//! What a sequencer track plays on a step: a patch trigger or a note drawn
//! from its Markov chain.
use vstd::prelude::*;
use crate::cadence::euclid::{euclid_bit, EuclideanPattern};
use crate::cadence::markov::{markov_next, MarkovChain};

verus! {

/// Number of notes a melodic track can draw from.
pub const MAX_NOTES: usize = 8;

/// The integer part of a track's action: which patch it triggers, or the chain
/// that walks its notes and how many of its notes are in use.
#[derive(Debug, Clone, Copy)]
pub enum TrackRule {
    Patch(u8),
    Melody { chain: MarkovChain<MAX_NOTES>, note_count: usize },
}

/// What a track fires on a step: a patch number, or the index of a note.
#[derive(Debug, Clone, Copy, PartialEq, Eq, Structural)]
pub enum TrackTrigger {
    Patch(u8),
    Note(usize),
}

impl TrackRule {
    /// A melodic rule; the note count is capped at `MAX_NOTES`.
    pub fn melody(chain: MarkovChain<MAX_NOTES>, note_count: usize) -> (r: Self)
        ensures
            r == (TrackRule::Melody {
                chain,
                note_count: if note_count < MAX_NOTES { note_count } else { MAX_NOTES },
            }),
    {
        TrackRule::Melody {
            chain,
            note_count: if note_count < MAX_NOTES { note_count } else { MAX_NOTES },
        }
    }
}

/// The note index a chain state selects: the state reduced modulo the number of
/// notes in use (0 when none are).
pub open spec fn note_slot(state: int, note_count: int) -> int {
    if note_count == 0 { 0 } else { state % note_count }
}

/// What a track fires on `step_in_cycle` with `random_seed`, and its rule
/// afterwards: nothing when it is muted or its rhythm has no onset there;
/// otherwise its patch, or the note its chain walks to (the chain moves only
/// in that last case).
pub open spec fn trigger_outcome<const STEPS: usize>(
    active: bool,
    pattern: EuclideanPattern<STEPS>,
    rule: TrackRule,
    step_in_cycle: int,
    random_seed: u16,
) -> (Option<TrackTrigger>, TrackRule) {
    if !active || !pattern.active_at(step_in_cycle) {
        (None, rule)
    } else {
        match rule {
            TrackRule::Patch(i) => (Some(TrackTrigger::Patch(i)), rule),
            TrackRule::Melody { chain, note_count } => {
                let s = markov_next(chain@.matrix, MAX_NOTES as nat, chain@.current, random_seed);
                (
                    Some(TrackTrigger::Note(note_slot(s, note_count as int) as usize)),
                    TrackRule::Melody { chain: chain.stepped(random_seed), note_count },
                )
            },
        }
    }
}

/// Decides what a track fires on `step_in_cycle` (see `trigger_outcome`).
pub fn track_trigger<const STEPS: usize>(
    active: bool,
    pattern: &EuclideanPattern<STEPS>,
    rule: &mut TrackRule,
    step_in_cycle: u32,
    random_seed: u16,
) -> (r: Option<TrackTrigger>)
    requires
        pattern@.steps <= STEPS,
        step_in_cycle + pattern@.offset <= usize::MAX,
    ensures
        (r, *final(rule)) == trigger_outcome(
            active,
            *pattern,
            *old(rule),
            step_in_cycle as int,
            random_seed,
        ),
        pattern.wf() ==> (pattern@.steps > 0 && active && euclid_bit(
            pattern@.pulses,
            pattern@.steps,
            (step_in_cycle + pattern@.offset) % pattern@.steps,
        ) <==> r is Some),
        forall|k: usize| r == Some(TrackTrigger::Note(k)) ==> k < MAX_NOTES,
        *old(rule) matches TrackRule::Melody { chain, note_count } ==> (r is Some ==> (
        *final(rule) matches TrackRule::Melody { chain: walked, note_count: n2 } && n2 == note_count
            && walked@.matrix == chain@.matrix && walked@.current == markov_next(
            chain@.matrix,
            MAX_NOTES as nat,
            chain@.current,
            random_seed,
        ) && r == Some(TrackTrigger::Note(note_slot(walked@.current, note_count as int) as usize)))),
        (*old(rule) is Patch || r is None) ==> *final(rule) == *old(rule),
{
    if !active {
        return None;
    }
    if !pattern.is_active(step_in_cycle as usize) {
        return None;
    }
    match rule {
        TrackRule::Patch(index) => Some(TrackTrigger::Patch(*index)),
        TrackRule::Melody { chain, note_count } => {
            let state = chain.next(random_seed);
            let n: usize = *note_count;
            let clamped = if n == 0 { 0 } else { state % n };
            assert(n > 0 ==> state % n <= state) by (nonlinear_arith)
                requires
                    state >= 0,
            ;
            Some(TrackTrigger::Note(clamped))
        },
    }
}


/// A melody walks its chain: when a melodic track fires, its chain moves to
/// the state it drew (a weighted step from the previous state, with the same
/// weights), and the note is that new state modulo the notes in use; so the
/// next note is drawn from where this one landed. A step that does not fire
/// leaves the chain where it was.
pub proof fn lemma_melody_walks<const STEPS: usize>(
    pattern: EuclideanPattern<STEPS>,
    chain: MarkovChain<MAX_NOTES>,
    note_count: usize,
    step_in_cycle: int,
    random_seed: u16,
)
    requires
        0 <= chain@.current < MAX_NOTES,
    ensures
        ({
            let (r, rule) = trigger_outcome(
                true,
                pattern,
                TrackRule::Melody { chain, note_count },
                step_in_cycle,
                random_seed,
            );
            let drawn = markov_next(chain@.matrix, MAX_NOTES as nat, chain@.current, random_seed);
            &&& pattern.active_at(step_in_cycle) ==> {
                &&& rule matches TrackRule::Melody { chain: walked, note_count: n2 }
                    && walked@.current == drawn && walked@.matrix == chain@.matrix
                    && n2 == note_count
                &&& r == Some(TrackTrigger::Note(note_slot(drawn, note_count as int) as usize))
                &&& 0 <= drawn < MAX_NOTES
            }
            &&& !pattern.active_at(step_in_cycle) ==> r is None && rule == TrackRule::Melody {
                chain,
                note_count,
            }
        }),
{
    chain.lemma_stepped(random_seed);
}


/// A patch track fires its patch on exactly the onsets of its rotated rhythm
/// while unmuted, and its rule never changes; a muted track fires nothing.
pub proof fn lemma_patch_fires<const STEPS: usize>(
    active: bool,
    pattern: EuclideanPattern<STEPS>,
    patch: u8,
    step_in_cycle: int,
    random_seed: u16,
)
    ensures
        trigger_outcome(active, pattern, TrackRule::Patch(patch), step_in_cycle, random_seed).0 == (
        if active && pattern.active_at(step_in_cycle) {
            Some(TrackTrigger::Patch(patch))
        } else {
            None
        }),
        trigger_outcome(active, pattern, TrackRule::Patch(patch), step_in_cycle, random_seed).1
            == TrackRule::Patch(patch),
{
}

} // verus!
