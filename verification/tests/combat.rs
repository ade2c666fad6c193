use journey::game::combat::fsm::{
    self, advance_combat_fsm, begin_move, can_transition, CombatPhase, CombatState,
};
use journey::game::combat::hit::{check_hit, hit_freeze_frames, HitEvent, DEFAULT_MOVE_DAMAGE};
use journey::game::combat::hitbox::Hitbox;
use journey::game::combat::input_buffer::{CombatInputBuffer, DEFAULT_BUFFER_WINDOW};
use journey::game::combat::moves::{FrameData, MoveId, MoveTable};

fn db() -> MoveTable {
    MoveTable::default()
}

#[test]
fn idle_can_start_any_move() {
    let state = CombatState::default();
    let db = db();
    assert!(can_transition(&state, MoveId::AttackHorizontal, &db));
    assert!(can_transition(&state, MoveId::Parry, &db));
    assert!(can_transition(&state, MoveId::Dash, &db));
}

#[test]
fn startup_blocks_all_transitions() {
    let mut state = CombatState::default();
    let db = db();
    begin_move(&mut state, MoveId::AttackHorizontal, &db);
    assert_eq!(state.phase, CombatPhase::Startup);
    assert!(!can_transition(&state, MoveId::AttackUp, &db));
    assert!(!can_transition(&state, MoveId::Parry, &db));
}

#[test]
fn attack_horizontal_full_lifecycle() {
    let mut state = CombatState::default();
    let db = db();
    begin_move(&mut state, MoveId::AttackHorizontal, &db);

    assert_eq!(state.phase, CombatPhase::Startup);
    for _ in 0..2 {
        advance_combat_fsm(&mut state, &db);
    }
    assert_eq!(state.phase, CombatPhase::Startup);

    let transition = advance_combat_fsm(&mut state, &db);
    assert_eq!(transition, Some(CombatPhase::Active));

    for _ in 0..2 {
        advance_combat_fsm(&mut state, &db);
    }
    assert_eq!(state.phase, CombatPhase::Active);

    let transition = advance_combat_fsm(&mut state, &db);
    assert_eq!(transition, Some(CombatPhase::Recovery));

    for _ in 0..7 {
        advance_combat_fsm(&mut state, &db);
    }
    assert_eq!(state.phase, CombatPhase::Recovery);

    let transition = advance_combat_fsm(&mut state, &db);
    assert_eq!(transition, Some(CombatPhase::Idle));
    assert!(state.is_idle());
    assert!(state.current_move.is_none());
}

#[test]
fn parry_starts_in_active_phase() {
    let mut state = CombatState::default();
    let db = db();
    begin_move(&mut state, MoveId::Parry, &db);
    assert_eq!(state.phase, CombatPhase::Active);
}

#[test]
fn dash_has_iframes_then_loses_them() {
    let mut state = CombatState::default();
    let db = db();
    begin_move(&mut state, MoveId::Dash, &db);
    assert_eq!(state.phase, CombatPhase::Active);
    assert!(state.invincible);

    for _ in 0..3 {
        advance_combat_fsm(&mut state, &db);
    }
    assert!(state.invincible);

    advance_combat_fsm(&mut state, &db);
    assert!(!state.invincible);

    for _ in 0..3 {
        advance_combat_fsm(&mut state, &db);
    }
    advance_combat_fsm(&mut state, &db);
    assert!(state.is_idle());
}

#[test]
fn cancel_window_allows_transition() {
    let mut state = CombatState::default();
    let db = db();
    begin_move(&mut state, MoveId::AttackHorizontal, &db);

    for _ in 0..6 {
        advance_combat_fsm(&mut state, &db);
    }
    assert_eq!(state.phase, CombatPhase::Recovery);

    assert!(!can_transition(&state, MoveId::AttackUp, &db));

    for _ in 0..4 {
        advance_combat_fsm(&mut state, &db);
    }
    assert_eq!(state.frame_timer, 10);
    assert!(state.in_cancel_window(&db));
    assert!(can_transition(&state, MoveId::AttackUp, &db));
    assert!(can_transition(&state, MoveId::Parry, &db));
}

#[test]
fn cancel_into_new_move_during_window() {
    let mut state = CombatState::default();
    let db = db();
    begin_move(&mut state, MoveId::AttackHorizontal, &db);

    for _ in 0..10 {
        advance_combat_fsm(&mut state, &db);
    }
    assert!(state.in_cancel_window(&db));

    assert!(can_transition(&state, MoveId::AttackUp, &db));
    begin_move(&mut state, MoveId::AttackUp, &db);
    assert_eq!(state.current_move, Some(MoveId::AttackUp));
    assert_eq!(state.frame_timer, 0);
}

#[test]
fn frame_timer_counts_up() {
    let mut state = CombatState::default();
    let db = db();
    begin_move(&mut state, MoveId::AttackHorizontal, &db);
    assert_eq!(state.frame_timer, 0);
    advance_combat_fsm(&mut state, &db);
    assert_eq!(state.frame_timer, 1);
    advance_combat_fsm(&mut state, &db);
    assert_eq!(state.frame_timer, 2);
}

#[test]
fn move_frame_calculations() {
    let db = db();
    let atk = db.get(MoveId::AttackHorizontal);
    assert_eq!(atk.total_frames(), 14);
    assert_eq!(atk.active_start(), 3);
    assert_eq!(atk.recovery_start(), 6);
}

#[test]
fn parry_no_cancel_window() {
    let db = db();
    let parry = db.get(MoveId::Parry);
    assert_eq!(parry.total_frames(), 20);
    assert_eq!(parry.cancel_window_start(), 20);
}

#[test]
fn dash_zero_recovery() {
    let db = db();
    let dash = db.get(MoveId::Dash);
    assert_eq!(dash.total_frames(), 8);
    assert_eq!(dash.recovery_start(), 8);
}

#[test]
fn buffer_push_and_consume() {
    let mut buf = CombatInputBuffer::default();
    let state = CombatState::default();
    let db = db();

    buf.push(MoveId::AttackHorizontal, 100);
    assert!(buf.has_pending());

    let consumed = buf.consume(&state, &db, 100);
    assert_eq!(consumed, Some(MoveId::AttackHorizontal));
    assert!(!buf.has_pending());
}

#[test]
fn buffer_expires_old_inputs() {
    let mut buf = CombatInputBuffer::default();
    buf.push(MoveId::AttackHorizontal, 10);

    buf.expire(31);
    assert!(!buf.has_pending());
}

#[test]
fn buffer_keeps_fresh_inputs() {
    let mut buf = CombatInputBuffer::default();
    buf.push(MoveId::AttackHorizontal, 100);

    buf.expire(118);
    assert!(buf.has_pending());
}

#[test]
fn buffer_rejects_invalid_transition() {
    let mut buf = CombatInputBuffer::default();
    let db = db();

    let mut state = CombatState::default();
    fsm::begin_move(&mut state, MoveId::AttackHorizontal, &db);
    assert_eq!(state.phase, fsm::CombatPhase::Startup);

    buf.push(MoveId::AttackUp, 100);
    let consumed = buf.consume(&state, &db, 100);
    assert_eq!(consumed, None);
    assert!(buf.has_pending());
}

#[test]
fn multiple_inputs_consumed_in_order() {
    let mut buf = CombatInputBuffer::default();
    let state = CombatState::default();
    let db = db();

    buf.push(MoveId::AttackHorizontal, 100);
    buf.push(MoveId::Parry, 101);

    let first = buf.consume(&state, &db, 101);
    assert_eq!(first, Some(MoveId::AttackHorizontal));

    let second = buf.consume(&state, &db, 101);
    assert_eq!(second, Some(MoveId::Parry));
}

#[test]
fn every_move_lasts_its_frames() {
    let db = db();
    for id in [
        MoveId::AttackHorizontal,
        MoveId::AttackUp,
        MoveId::AttackDown,
        MoveId::Parry,
        MoveId::Dash,
        MoveId::Grapple,
    ] {
        let d = db.get(id);
        let mut state = CombatState::default();
        begin_move(&mut state, id, &db);
        for k in 0..d.total_frames() {
            let expected = if k < d.startup_frames {
                CombatPhase::Startup
            } else if k < d.recovery_start() {
                CombatPhase::Active
            } else {
                CombatPhase::Recovery
            };
            assert_eq!(state.phase, expected, "{:?} at tick {}", id, k);
            assert_eq!(state.frame_timer, k);
            advance_combat_fsm(&mut state, &db);
        }
        assert!(state.is_idle(), "{:?} should end after its frames", id);
        assert_eq!(state, CombatState::default());
    }
}

#[test]
fn zero_recovery_move_idles_one_tick_later() {
    let mut table = db();
    table.frames[0] = FrameData {
        startup_frames: 1,
        active_frames: 2,
        recovery_frames: 0,
        cancel_window_start: 3,
    };
    let mut state = CombatState::default();
    begin_move(&mut state, MoveId::AttackHorizontal, &table);
    for _ in 0..3 {
        advance_combat_fsm(&mut state, &table);
    }
    assert_eq!(state.phase, CombatPhase::Recovery);
    assert_eq!(advance_combat_fsm(&mut state, &table), Some(CombatPhase::Idle));
}

#[test]
fn idle_state_does_not_advance() {
    let mut state = CombatState::default();
    assert_eq!(advance_combat_fsm(&mut state, &db()), None);
    assert_eq!(state, CombatState::default());
    let mut orphan = CombatState {
        phase: CombatPhase::Active,
        frame_timer: 3,
        current_move: None,
        invincible: true,
    };
    assert_eq!(advance_combat_fsm(&mut orphan, &db()), None);
    assert_eq!(orphan.frame_timer, 3);
}

#[test]
fn buffer_window_and_attack_queries() {
    let mut buf = CombatInputBuffer::default();
    assert_eq!(buf.buffer_window, DEFAULT_BUFFER_WINDOW);
    assert!(buf.is_empty());
    assert!(buf.peek().is_none());
    buf.push(MoveId::Dash, 5);
    assert!(!buf.has_attack(5));
    buf.push(MoveId::AttackDown, 10);
    assert!(buf.has_attack(30));
    assert!(!buf.has_attack(31));
    assert_eq!(buf.len(), 2);
    assert_eq!(buf.peek().map(|b| b.action), Some(MoveId::Dash));
    buf.expire(26);
    assert_eq!(buf.len(), 1);
    assert_eq!(buf.peek().map(|b| b.tick_pressed), Some(10));
    buf.clear();
    assert!(!buf.has_pending());
}

#[test]
fn buffer_ages_saturate_for_future_ticks() {
    let mut buf = CombatInputBuffer::default();
    buf.push(MoveId::Parry, 500);
    buf.expire(10);
    assert_eq!(buf.len(), 1);
}

#[test]
fn consume_only_in_cancel_window() {
    let db = db();
    let mut state = CombatState::default();
    begin_move(&mut state, MoveId::AttackHorizontal, &db);
    for _ in 0..9 {
        advance_combat_fsm(&mut state, &db);
    }
    let mut buf = CombatInputBuffer::default();
    buf.push(MoveId::AttackUp, 0);
    assert_eq!(buf.consume(&state, &db, 5), None);
    advance_combat_fsm(&mut state, &db);
    assert_eq!(buf.consume(&state, &db, 5), Some(MoveId::AttackUp));
    assert!(buf.is_empty());
}

#[test]
fn hitbox_active_window() {
    let hb = Hitbox { start_tick: 10, end_tick: 15 };
    assert!(!hb.is_active(9));
    assert!(hb.is_active(10));
    assert!(hb.is_active(12));
    assert!(hb.is_active(15));
    assert!(!hb.is_active(16));
}

#[test]
fn hitbox_window_edges() {
    let single = Hitbox { start_tick: 0, end_tick: 0 };
    assert!(single.is_active(0));
    assert!(!single.is_active(1));
    let empty = Hitbox { start_tick: 5, end_tick: 4 };
    assert!(!empty.is_active(4));
    assert!(!empty.is_active(5));
    let open = Hitbox { start_tick: 0, end_tick: u64::MAX };
    assert!(open.is_active(u64::MAX));
}

fn swinging() -> CombatState {
    let db = db();
    let mut attacker = CombatState::default();
    begin_move(&mut attacker, MoveId::AttackHorizontal, &db);
    for _ in 0..3 {
        advance_combat_fsm(&mut attacker, &db);
    }
    attacker
}

#[test]
fn check_hit_detects_overlap() {
    // No hit when idle.
    assert!(check_hit(false, None, &CombatState::default(), true, &DEFAULT_MOVE_DAMAGE).is_none());
    let attacker = swinging();
    assert_eq!(attacker.phase, CombatPhase::Active);
    let event = check_hit(false, Some(true), &attacker, true, &DEFAULT_MOVE_DAMAGE);
    assert!(event.is_some());
    let event = event.unwrap();
    assert_eq!(event.damage, 20);
}

#[test]
fn check_hit_misses_when_far() {
    let attacker = swinging();
    assert!(check_hit(false, Some(true), &attacker, false, &DEFAULT_MOVE_DAMAGE).is_none());
}

#[test]
fn check_hit_guards_and_freeze_tiers() {
    let attacker = swinging();
    // A swing that already landed, or a missing or inactive hitbox, hits nothing.
    assert!(check_hit(true, Some(true), &attacker, true, &DEFAULT_MOVE_DAMAGE).is_none());
    assert!(check_hit(false, None, &attacker, true, &DEFAULT_MOVE_DAMAGE).is_none());
    assert!(check_hit(false, Some(false), &attacker, true, &DEFAULT_MOVE_DAMAGE).is_none());
    // Outside the active phase nothing lands.
    let mut startup = attacker;
    startup.phase = CombatPhase::Startup;
    assert!(check_hit(false, Some(true), &startup, true, &DEFAULT_MOVE_DAMAGE).is_none());
    // The move's damage picks the freeze: 20 gives 5 frames.
    assert_eq!(
        check_hit(false, Some(true), &attacker, true, &DEFAULT_MOVE_DAMAGE),
        Some(HitEvent { damage: 20, freeze_frames: 5 })
    );
    let heavy = [35u16, 0, 0, 0, 0, 0];
    assert_eq!(
        check_hit(false, Some(true), &attacker, true, &heavy),
        Some(HitEvent { damage: 35, freeze_frames: 8 })
    );
    assert_eq!(hit_freeze_frames(0), 3);
    assert_eq!(hit_freeze_frames(19), 3);
    assert_eq!(hit_freeze_frames(20), 5);
    assert_eq!(hit_freeze_frames(29), 5);
    assert_eq!(hit_freeze_frames(30), 8);
}
