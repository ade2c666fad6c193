use journey::cadence::clock::StepClock;
use journey::cadence::sequencer::{SequencerCore, TrackSlot, MAX_TRACKS};
use journey::cadence::track::{track_trigger, TrackRule, TrackTrigger};
use journey::cadence::{EuclideanPattern, Lfsr, MarkovChain, Scene};

#[test]
fn euclidean_pattern_distributes_pulses() {
    let pattern = EuclideanPattern::<16>::new(4, 16, 0);
    let active: [bool; 16] = core::array::from_fn(|index| pattern.is_active(index));

    assert_eq!(
        active,
        [
            true, false, false, false, true, false, false, false, true, false, false, false, true,
            false, false, false,
        ]
    );
    assert_eq!(pattern.active_count(), 4);
}

#[test]
fn euclidean_pattern_wraps_and_rotates() {
    let pattern = EuclideanPattern::<8>::new(3, 8, 1);

    assert_eq!(pattern.active_count(), 3);
    assert_eq!(pattern.is_active(7), pattern.is_active(15));
    assert_eq!(pattern.is_active(0), pattern.raw_step(1));
}

#[test]
fn lfsr_is_deterministic() {
    let mut a = Lfsr::new(0x1234);
    let mut b = Lfsr::new(0x1234);

    for _ in 0..512 {
        assert_eq!(a.next_u16(), b.next_u16());
    }
}

#[test]
fn markov_chain_uses_weighted_rows() {
    let matrix = [[0, 10, 0], [5, 0, 5], [0, 10, 0]];
    let mut chain = MarkovChain::<3>::new(matrix, 0);

    assert_eq!(chain.next(0), 1);

    let next = chain.next(7);
    assert!(next == 0 || next == 2);
    assert_eq!(chain.current_state(), next);
}

#[test]
fn markov_chain_stays_put_on_empty_row() {
    let matrix = [[0, 0], [10, 0]];
    let mut chain = MarkovChain::<2>::new(matrix, 0);

    assert_eq!(chain.next(42), 0);
    assert_eq!(chain.current_state(), 0);
}

#[test]
fn euclidean_onsets_always_equal_pulses() {
    for steps in 1..=16usize {
        for pulses in 0..=steps {
            for offset in 0..steps {
                let p = EuclideanPattern::<16>::new(pulses, steps, offset);
                assert_eq!(p.active_count(), pulses);
                let rotated = (0..steps).filter(|&i| p.is_active(i)).count();
                assert_eq!(rotated, pulses);
            }
        }
    }
}

#[test]
fn euclidean_pattern_clamps_parameters() {
    let p = EuclideanPattern::<8>::new(20, 12, 19);
    assert_eq!(p.steps, 8);
    assert_eq!(p.pulses, 8);
    assert_eq!(p.offset, 3);
    assert_eq!(p.active_count(), 8);

    let empty = EuclideanPattern::<8>::new(3, 0, 5);
    assert_eq!(empty.steps, 0);
    assert_eq!(empty.offset, 0);
    assert!(!empty.is_active(0));
    assert!(!empty.raw_step(0));
    assert_eq!(empty.active_count(), 0);
}

#[test]
fn euclidean_five_of_eight_layout() {
    let p = EuclideanPattern::<8>::new(5, 8, 0);
    let raw: Vec<bool> = (0..8).map(|i| p.raw_step(i)).collect();
    assert_eq!(raw, vec![true, false, true, false, true, true, false, true]);
    assert!(!p.raw_step(8));
}

#[test]
fn lfsr_zero_seed_uses_default_and_steps() {
    let mut l = Lfsr::new(0);
    assert_eq!(l.state(), 0xACE1);
    // 0xACE1 is odd: shift right and apply the taps.
    assert_eq!(l.next_u16(), (0xACE1u16 >> 1) ^ 0xB400);
    let mut even = Lfsr::new(0x0002);
    assert_eq!(even.next_u16(), 0x0001);
    assert_eq!(even.next_u16(), 0xB400);
}

#[test]
fn lfsr_never_reaches_zero() {
    let mut l = Lfsr::new(1);
    for _ in 0..70_000 {
        assert_ne!(l.next_u16(), 0);
    }
}

#[test]
fn markov_chain_clamps_state() {
    let mut chain = MarkovChain::<3>::new([[1; 3]; 3], 9);
    assert_eq!(chain.current_state(), 2);
    chain.set_state(7);
    assert_eq!(chain.current_state(), 2);
    chain.set_state(1);
    assert_eq!(chain.current_state(), 1);
}

#[test]
fn markov_chain_never_takes_zero_weight_transition() {
    let matrix = [[0, 3, 0, 7], [1, 0, 0, 0], [0, 0, 0, 0], [0, 0, 9, 0]];
    for seed in 0..2000u16 {
        for start in 0..4 {
            let mut chain = MarkovChain::<4>::new(matrix, start);
            let next = chain.next(seed);
            if start == 2 {
                assert_eq!(next, 2);
            } else {
                assert!(matrix[start][next] > 0);
            }
        }
    }
}

#[test]
fn markov_chain_threshold_walks_cumulative_weights() {
    let matrix = [[2, 3, 5], [0, 0, 1], [1, 0, 0]];
    let expected = [0, 0, 1, 1, 1, 2, 2, 2, 2, 2];
    for seed in 0..10u16 {
        let mut chain = MarkovChain::<3>::new(matrix, 0);
        assert_eq!(chain.next(seed), expected[seed as usize]);
        let mut again = MarkovChain::<3>::new(matrix, 0);
        assert_eq!(again.next(seed + 10), expected[seed as usize]);
    }
}

#[test]
fn markov_chain_saturates_large_rows() {
    // 300 states of weight 255 add up past u16::MAX; the total saturates.
    let mut matrix = [[255u8; 300]; 300];
    matrix[0][299] = 255;
    let mut chain = MarkovChain::<300>::new(matrix, 0);
    // seed % 65535 == 65534 lands in state 65534 / 255 = 256.
    assert_eq!(chain.next(65534), 256);
}

#[test]
fn scene_index_and_names() {
    assert_eq!(Scene::from_index(0), Some(Scene::Drums));
    assert_eq!(Scene::from_index(1), Some(Scene::Melodic));
    assert_eq!(Scene::from_index(2), Some(Scene::Full));
    assert_eq!(Scene::from_index(3), None);
    assert_eq!(Scene::Drums.name(), "Drums");
    assert_eq!(Scene::Melodic.name(), "Melodic");
    assert_eq!(Scene::Full.name(), "Full");
}

#[test]
fn step_clock_fires_on_schedule() {
    let mut clock = StepClock::new();
    let schedule = |step: u64| step * 10;
    let mut fired = Vec::new();
    for _ in 0..35 {
        let sample = clock.current_sample();
        if clock.tick(&schedule) {
            fired.push((sample, clock.current_step()));
        }
    }
    assert_eq!(fired, vec![(0, 0), (10, 1), (20, 2), (30, 3)]);
    assert_eq!(clock.step_in_cycle(2), 1);
    assert_eq!(clock.step_in_cycle(0), 0);
}

#[test]
fn step_clock_pushes_late_steps_forward() {
    let mut clock = StepClock::new();
    // A schedule that never advances: every later step is pushed to the next sample.
    let schedule = |_step: u64| 0u64;
    let mut count = 0;
    for _ in 0..5 {
        if clock.tick(&schedule) {
            count += 1;
        }
    }
    assert_eq!(count, 5);
    assert_eq!(clock.current_step(), 4);
    assert_eq!(clock.next_step(), 5);
}

#[test]
fn step_clock_reschedule_keeps_step_numbers() {
    let mut clock = StepClock::new();
    let slow = |step: u64| step * 100;
    for _ in 0..150 {
        clock.tick(&slow);
    }
    assert_eq!(clock.current_step(), 1);
    let fast = |step: u64| step * 10;
    clock.reschedule(&fast);
    // step 2 at 20 is already past: it is pushed to the next sample.
    assert!(!clock.tick(&fast));
    assert!(clock.tick(&fast));
    assert_eq!(clock.current_step(), 2);
}

#[test]
fn track_trigger_fires_patch_on_onsets() {
    let pattern = EuclideanPattern::<16>::new(4, 16, 0);
    let mut rule = TrackRule::Patch(3);
    let mut fired = 0;
    for step in 0..16u32 {
        if let Some(t) = track_trigger(true, &pattern, &mut rule, step, 0) {
            assert_eq!(t, TrackTrigger::Patch(3));
            fired += 1;
        }
    }
    assert_eq!(fired, 4);
    assert_eq!(track_trigger(false, &pattern, &mut rule, 0, 0), None);
}

#[test]
fn track_trigger_walks_melody_chain() {
    let pattern = EuclideanPattern::<16>::new(16, 16, 0);
    let matrix = [[0, 1, 0, 0, 0, 0, 0, 0]; 8];
    let mut rule = TrackRule::melody(MarkovChain::new(matrix, 0), 20);
    match rule {
        TrackRule::Melody { note_count, .. } => assert_eq!(note_count, 8),
        _ => panic!("expected a melody rule"),
    }
    assert_eq!(track_trigger(true, &pattern, &mut rule, 0, 5), Some(TrackTrigger::Note(1)));

    let mut one_note = TrackRule::melody(MarkovChain::new([[0, 0, 1, 0, 0, 0, 0, 0]; 8], 0), 2);
    assert_eq!(track_trigger(true, &pattern, &mut one_note, 0, 0), Some(TrackTrigger::Note(0)));

    let mut silent = TrackRule::melody(MarkovChain::new([[0, 0, 0, 1, 0, 0, 0, 0]; 8], 0), 0);
    assert_eq!(track_trigger(true, &pattern, &mut silent, 0, 0), Some(TrackTrigger::Note(0)));
}

fn kick_slot() -> TrackSlot<16> {
    TrackSlot { pattern: EuclideanPattern::<16>::new(4, 16, 0), rule: TrackRule::Patch(0), active: true }
}

fn run_steps(seq: &mut SequencerCore<16>, samples: u64) -> Vec<(u32, [Option<TrackTrigger>; 8])> {
    let schedule = |step: u64| step * 100;
    let mut out = Vec::new();
    for sample in 0..samples {
        let r = seq.tick(&schedule);
        if r.step_triggered {
            assert_eq!(sample % 100, 0);
            out.push((r.step_in_cycle, r.triggers));
        } else {
            assert!(r.triggers.iter().all(|t| t.is_none()));
        }
    }
    out
}

#[test]
fn sequencer_core_fires_kick_on_the_beat() {
    let mut seq = SequencerCore::<16>::new(16, 0xACE1);
    assert_eq!(seq.add_track(kick_slot()), Some(0));
    assert_eq!(seq.track_count(), 1);
    let steps = run_steps(&mut seq, 1700);
    assert_eq!(steps.len(), 17);
    let kicks: Vec<u32> = steps
        .iter()
        .filter(|(_, t)| t[0] == Some(TrackTrigger::Patch(0)))
        .map(|(s, _)| *s)
        .collect();
    assert_eq!(kicks, vec![0, 4, 8, 12, 0]);
    // The cycle wraps after sixteen steps.
    assert_eq!(steps[16].0, 0);
    assert_eq!(seq.current_step_in_cycle(), 0);
}

#[test]
fn sequencer_core_mute_silences_track() {
    let mut seq = SequencerCore::<16>::new(16, 7);
    seq.add_track(kick_slot());
    seq.mute(0);
    assert!(!seq.is_track_active(0));
    let steps = run_steps(&mut seq, 800);
    assert!(steps.iter().all(|(_, t)| t[0].is_none()));
    seq.unmute(0);
    assert!(seq.is_track_active(0));
    // Muting a slot without a track changes nothing.
    seq.mute(5);
    assert!(!seq.is_track_active(5));
    let steps = run_steps(&mut seq, 100);
    assert_eq!(steps.len(), 1);
}

#[test]
fn sequencer_core_refuses_ninth_track() {
    let mut seq = SequencerCore::<16>::new(0, 1);
    assert_eq!(seq.cycle_steps(), 1);
    for i in 0..MAX_TRACKS {
        assert_eq!(seq.add_track(kick_slot()), Some(i));
    }
    assert_eq!(seq.add_track(kick_slot()), None);
    assert_eq!(seq.track_count(), MAX_TRACKS);
}

#[test]
fn sequencer_core_is_deterministic_and_draws_one_value_per_track() {
    let matrix = [[1, 2, 3, 4, 5, 6, 7, 8]; 8];
    let melody = TrackSlot {
        pattern: EuclideanPattern::<16>::new(16, 16, 0),
        rule: TrackRule::melody(MarkovChain::new(matrix, 0), 5),
        active: true,
    };
    let mut a = SequencerCore::<16>::new(16, 0x1234);
    let mut b = SequencerCore::<16>::new(16, 0x1234);
    a.add_track(kick_slot());
    a.add_track(melody);
    b.add_track(kick_slot());
    b.add_track(melody);
    let sa = run_steps(&mut a, 3200);
    let sb = run_steps(&mut b, 3200);
    assert_eq!(sa, sb);
    for (_, t) in &sa {
        match t[1] {
            Some(TrackTrigger::Note(n)) => assert!(n < 5),
            other => panic!("melodic track fired {:?}", other),
        }
    }
    // Two tracks over 32 steps: the generator moved 64 times.
    let mut l = Lfsr::new(0x1234);
    for _ in 0..64 {
        l.next_u16();
    }
    assert_eq!(a.lfsr().state(), l.state());
}

#[test]
fn lfsr_default_is_the_default_seed() {
    let d = Lfsr::default();
    assert_eq!(d.state(), 0xACE1);
    assert_eq!(d, Lfsr::new(0xACE1));
    assert_eq!(d, Lfsr::new(0));
    let mut a = Lfsr::default();
    let mut b = Lfsr::new(0);
    for _ in 0..100 {
        assert_eq!(a.next_u16(), b.next_u16());
    }
}

#[test]
fn rotation_law_holds_for_fields_set_by_hand() {
    let mut pattern = EuclideanPattern::<8>::new(3, 8, 1);
    // An offset past the length, set directly, still reads entry (i + offset) % steps.
    pattern.offset = 11;
    for i in 0..24usize {
        assert_eq!(pattern.is_active(i), pattern.raw_step((i + 11) % 8));
        assert_eq!(pattern.is_active(i), pattern.is_active(i + 8));
    }
    // A shorter rhythm over the same table repeats at its own length.
    pattern.steps = 5;
    for i in 0..20usize {
        assert_eq!(pattern.is_active(i), pattern.raw_step((i + 11) % 5));
        assert_eq!(pattern.is_active(i), pattern.is_active(i + 5));
    }
    pattern.steps = 0;
    assert!(!pattern.is_active(3));
}

#[test]
fn sequencer_accepts_any_rotation() {
    let mut seq = SequencerCore::<16>::new(16, 0xACE1);
    let mut slot = kick_slot();
    slot.pattern.offset = 20;
    assert_eq!(seq.add_track(slot), Some(0));
    let steps = run_steps(&mut seq, 1600);
    assert_eq!(steps.len(), 16);
    // E(4, 16) rotated by 20 fires where (step + 20) % 16 is a multiple of 4.
    for (step, triggers) in &steps {
        assert_eq!(triggers[0].is_some(), (*step as usize + 20) % 16 % 4 == 0);
    }
}
