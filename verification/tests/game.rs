use journey::engine::audio::AudioTrack;
use journey::game::audio::{
    duck_change, loop_retries, music_for, pick_voice, sfx_route, switch_music, AudioEvent, LoopCue,
    MusicState, Screen, SfxRoute,
};
use journey::game::combat::fsm::{CombatPhase, CombatState};
use journey::game::combat::moves::{MoveId, MoveTable};
use journey::game::enemy::{
    after_combat_transition, enter_stagger, freeze_stagger, is_alive, is_staggered, kill,
    update_ai, AiDecision, AiInputs, AiMotion, EnemyConfig, EnemyState, EnemyType,
    DEATH_FLASH_TICKS, ENEMY_AIM_TICKS, ENEMY_MELEE_WINDUP_TICKS, ENEMY_STAGGER_TICKS,
    SHOOT_COOLDOWN, SNIPER_AIM_TICKS,
};
use journey::game::jump::JumpWindows;
use journey::game::projectile::{check_parry_deflect, free_slot, parry_deflects, ricochets};
use journey::game::player::{
    accepts_combat_input, attack_for_aim, can_dash, is_combat_fsm_state, post_physics_transitions,
    state_after_move, state_for_move, Contacts, PlayerState, WallEffect, WallTracking,
    WALL_DETACH_COOLDOWN_TICKS,
};

fn far_away() -> AiInputs {
    AiInputs {
        sees_player: false,
        in_melee_reach: false,
        aim_ticks: 0,
        patrols: true,
        facing_right: true,
        blocked_ahead: false,
    }
}

fn stop() -> AiDecision {
    AiDecision { motion: AiMotion::Stop, shoot: false, begin_melee: false }
}

#[test]
fn staggered_enemy_returns_to_idle_after_stagger_ticks() {
    let mut state = EnemyState::Patrol { direction: 1 };
    let mut combat = CombatState::default();
    let table = MoveTable::default();
    enter_stagger(&mut state, &mut combat, ENEMY_STAGGER_TICKS);
    assert!(is_staggered(&state));
    for _ in 0..ENEMY_STAGGER_TICKS - 1 {
        let d = update_ai(&mut state, &mut combat, &table, far_away());
        assert_eq!(d.motion, AiMotion::Damp);
        assert!(is_staggered(&state));
    }
    update_ai(&mut state, &mut combat, &table, far_away());
    assert_eq!(state, EnemyState::Idle);
}

#[test]
fn killed_enemy_is_dead_and_keeps_still() {
    let mut state = EnemyState::Idle;
    let mut combat = CombatState::default();
    let mut flash = 0u16;
    kill(&mut state, &mut combat, &mut flash);
    assert_eq!(state, EnemyState::Dead);
    assert!(!is_alive(&state));
    assert_eq!(flash, DEATH_FLASH_TICKS);
    let table = MoveTable::default();
    let seen = AiInputs { sees_player: true, in_melee_reach: true, ..far_away() };
    let d = update_ai(&mut state, &mut combat, &table, seen);
    assert_eq!(d, AiDecision { motion: AiMotion::Keep, shoot: false, begin_melee: false });
    assert_eq!(state, EnemyState::Dead);
    assert_eq!(combat, CombatState::default());
}

#[test]
fn last_aim_tick_shoots_and_cools_down() {
    let mut state = EnemyState::Aim { timer: 1 };
    let mut combat = CombatState::default();
    let table = MoveTable::default();
    let d = update_ai(&mut state, &mut combat, &table, far_away());
    assert!(d.shoot);
    assert_eq!(state, EnemyState::Cooldown { timer: SHOOT_COOLDOWN });
}

#[test]
fn idle_patroller_starts_patrolling_towards_its_facing() {
    let mut state = EnemyState::Idle;
    let mut combat = CombatState::default();
    let table = MoveTable::default();
    let left = AiInputs { facing_right: false, ..far_away() };
    assert_eq!(update_ai(&mut state, &mut combat, &table, left), stop());
    assert_eq!(state, EnemyState::Patrol { direction: -1 });
    let d = update_ai(&mut state, &mut combat, &table, left);
    assert_eq!(d.motion, AiMotion::Walk(-1));
    let blocked = AiInputs { blocked_ahead: true, ..left };
    update_ai(&mut state, &mut combat, &table, blocked);
    assert_eq!(state, EnemyState::Patrol { direction: 1 });
}

#[test]
fn static_enemy_stays_idle() {
    let mut state = EnemyState::Idle;
    let mut combat = CombatState::default();
    let table = MoveTable::default();
    let sniper = AiInputs { patrols: false, aim_ticks: 45, ..far_away() };
    assert_eq!(update_ai(&mut state, &mut combat, &table, sniper), stop());
    assert_eq!(state, EnemyState::Idle);
    let sees = AiInputs { sees_player: true, ..sniper };
    update_ai(&mut state, &mut combat, &table, sees);
    assert_eq!(state, EnemyState::Aim { timer: 45 });
}

#[test]
fn melee_windup_starts_the_horizontal_attack() {
    let mut state = EnemyState::Patrol { direction: 1 };
    let mut combat = CombatState::default();
    let table = MoveTable::default();
    let close = AiInputs { sees_player: true, in_melee_reach: true, ..far_away() };
    update_ai(&mut state, &mut combat, &table, close);
    assert_eq!(state, EnemyState::MeleeWindup { timer: ENEMY_MELEE_WINDUP_TICKS });
    for _ in 0..ENEMY_MELEE_WINDUP_TICKS - 1 {
        let d = update_ai(&mut state, &mut combat, &table, close);
        assert!(!d.begin_melee);
    }
    let d = update_ai(&mut state, &mut combat, &table, close);
    assert!(d.begin_melee);
    assert_eq!(state, EnemyState::Attacking);
    assert_eq!(combat.current_move, Some(MoveId::AttackHorizontal));
    assert_eq!(combat.phase, CombatPhase::Startup);
    after_combat_transition(&mut state, Some(CombatPhase::Active));
    assert_eq!(state, EnemyState::Attacking);
    after_combat_transition(&mut state, Some(CombatPhase::Idle));
    assert_eq!(state, EnemyState::Cooldown { timer: SHOOT_COOLDOWN });
}

#[test]
fn cooldown_counts_down_to_idle() {
    let mut state = EnemyState::Cooldown { timer: 2 };
    let mut combat = CombatState::default();
    let table = MoveTable::default();
    update_ai(&mut state, &mut combat, &table, far_away());
    assert_eq!(state, EnemyState::Cooldown { timer: 1 });
    update_ai(&mut state, &mut combat, &table, far_away());
    assert_eq!(state, EnemyState::Idle);
}

#[test]
fn hitstop_holds_the_stagger_timer() {
    let mut state = EnemyState::Staggered { timer: 3 };
    freeze_stagger(&mut state, 40);
    assert_eq!(state, EnemyState::Staggered { timer: 40 });
    let mut idle = EnemyState::Idle;
    freeze_stagger(&mut idle, 40);
    assert_eq!(idle, EnemyState::Idle);
}

#[test]
fn buffered_press_jumps_on_landing() {
    let mut w = JumpWindows::new();
    w.ground_contact(false, true, 0);
    w.ground_contact(true, false, 10);
    // Pressed in the air well after coyote time: no jump yet.
    w.press(100);
    assert!(!w.handle_jump(false, true, false, 100, 7, 5));
    assert!(w.has_buffered_jump(104, 7));
    // Landing four ticks later replays the press.
    w.ground_contact(false, true, 104);
    assert!(w.handle_jump(true, true, false, 104, 7, 5));
    assert!(!w.has_buffered_jump(104, 7));
}

#[test]
fn press_too_early_is_not_replayed() {
    let mut w = JumpWindows::new();
    w.ground_contact(false, true, 0);
    w.ground_contact(true, false, 10);
    w.press(100);
    assert!(!w.handle_jump(false, true, false, 100, 7, 5));
    w.ground_contact(false, true, 108);
    assert!(!w.handle_jump(true, false, false, 108, 7, 5));
}

#[test]
fn coyote_jump_after_leaving_ledge() {
    let mut w = JumpWindows::new();
    w.ground_contact(false, true, 0);
    w.ground_contact(true, false, 50);
    assert!(w.can_use_coyote(false, 55, 5));
    assert!(!w.can_use_coyote(false, 56, 5));
    assert!(!w.can_use_coyote(true, 55, 5));
    w.press(54);
    assert!(w.handle_jump(false, true, false, 54, 7, 5));
    assert!(!w.can_use_coyote(false, 54, 5));
}

#[test]
fn releasing_while_rising_ends_jump_early() {
    let mut w = JumpWindows::new();
    assert!(!w.handle_jump(false, false, true, 3, 7, 5));
    assert!(w.ended_jump_early);
    w.ground_contact(false, true, 4);
    assert!(!w.ended_jump_early);
}

#[test]
fn wall_jump_spends_coyote_and_press() {
    let mut w = JumpWindows::new();
    w.ground_contact(false, true, 0);
    w.press(1);
    w.wall_jumped();
    assert!(!w.coyote_usable);
    assert!(!w.jump_to_consume);
    w.press(2);
    w.cancel_press();
    assert!(!w.jump_to_consume);
}

#[test]
fn player_state_groups() {
    assert!(is_combat_fsm_state(PlayerState::Parry));
    assert!(is_combat_fsm_state(PlayerState::AirDash));
    assert!(!is_combat_fsm_state(PlayerState::GrapplePull));
    assert!(!is_combat_fsm_state(PlayerState::Run));
    assert!(accepts_combat_input(PlayerState::Run));
    assert!(accepts_combat_input(PlayerState::AttackUp));
    assert!(!accepts_combat_input(PlayerState::WallSlide));
    assert!(!accepts_combat_input(PlayerState::Dash));
}

#[test]
fn dash_needs_cooldown_and_air_charge() {
    assert!(can_dash(PlayerState::Run, 0, true, true));
    assert!(!can_dash(PlayerState::Run, 3, true, false));
    assert!(can_dash(PlayerState::Fall, 0, false, false));
    assert!(!can_dash(PlayerState::Fall, 0, false, true));
    assert!(!can_dash(PlayerState::Dash, 0, true, false));
    assert!(!can_dash(PlayerState::Death, 0, true, false));
}

#[test]
fn aim_picks_the_attack() {
    assert_eq!(attack_for_aim(true, false, true), MoveId::AttackUp);
    assert_eq!(attack_for_aim(false, true, false), MoveId::AttackDown);
    assert_eq!(attack_for_aim(false, true, true), MoveId::AttackHorizontal);
    assert_eq!(attack_for_aim(false, false, false), MoveId::AttackHorizontal);
}

#[test]
fn moves_map_to_player_states() {
    assert_eq!(state_for_move(MoveId::Dash, true), PlayerState::Dash);
    assert_eq!(state_for_move(MoveId::Dash, false), PlayerState::AirDash);
    assert_eq!(state_for_move(MoveId::Grapple, true), PlayerState::GrapplePull);
    assert_eq!(state_for_move(MoveId::Parry, false), PlayerState::Parry);
    assert_eq!(state_after_move(true), PlayerState::Idle);
    assert_eq!(state_after_move(false), PlayerState::Fall);
}

#[test]
fn run_loops_and_other_events_are_one_shots() {
    assert_eq!(sfx_route(AudioEvent::Run), SfxRoute::StartLoop);
    assert_eq!(sfx_route(AudioEvent::RunStop), SfxRoute::StopLoop);
    assert_eq!(sfx_route(AudioEvent::Jump), SfxRoute::OneShot(AudioTrack::Sfx));
    assert_eq!(sfx_route(AudioEvent::ProjectileBounce), SfxRoute::OneShot(AudioTrack::Sfx));
}

#[test]
fn voice_pick_takes_first_free_after_cursor() {
    let active = [true, false, true, false];
    assert_eq!(pick_voice(&active, 0), (1, 2));
    assert_eq!(pick_voice(&active, 2), (3, 0));
    assert_eq!(pick_voice(&active, 3), (3, 0));
    // Past the end the walk wraps.
    assert_eq!(pick_voice(&active, 6), (3, 0));
}

#[test]
fn voice_pick_steals_cursor_when_all_busy() {
    let busy = [true; 3];
    assert_eq!(pick_voice(&busy, 1), (1, 2));
    assert_eq!(pick_voice(&busy, 2), (2, 0));
}

fn airborne() -> Contacts {
    Contacts {
        was_grounded: false,
        grounded: false,
        touching_wall_left: false,
        touching_wall_right: false,
        not_rising: true,
        moving: false,
        below_grabbed_wall: false,
    }
}

fn fresh_wall() -> WallTracking {
    WallTracking {
        has_air_dashed: true,
        last_wall_jump_dir: 0,
        wall_direction: 0,
        wall_grab_timer: 0,
        wall_jump_lock_timer: 5,
        wall_detach_cooldown: 0,
        wall_contact_lost_ticks: 0,
    }
}

#[test]
fn falling_into_wall_grabs_it() {
    let mut state = PlayerState::Fall;
    let mut wall = fresh_wall();
    let c = Contacts { touching_wall_left: true, ..airborne() };
    assert_eq!(post_physics_transitions(&mut state, &mut wall, c, 90), WallEffect::Grab);
    assert_eq!(state, PlayerState::WallGrab);
    assert_eq!(wall.wall_direction, -1);
    assert_eq!(wall.wall_grab_timer, 90);
    assert_eq!(wall.wall_jump_lock_timer, 0);
    assert!(!wall.has_air_dashed);
}

#[test]
fn rising_or_cooling_down_does_not_grab() {
    let c = Contacts { touching_wall_right: true, not_rising: false, ..airborne() };
    let mut state = PlayerState::Jump;
    let mut wall = fresh_wall();
    assert_eq!(post_physics_transitions(&mut state, &mut wall, c, 90), WallEffect::Stay);
    assert_eq!(state, PlayerState::Jump);
    let c = Contacts { touching_wall_right: true, ..airborne() };
    let mut cooling = WallTracking { wall_detach_cooldown: 3, ..fresh_wall() };
    let mut state = PlayerState::Fall;
    assert_eq!(post_physics_transitions(&mut state, &mut cooling, c, 90), WallEffect::Stay);
    assert_eq!(state, PlayerState::Fall);
    // Touching a wall still re-arms the air dash.
    assert!(!cooling.has_air_dashed);
}

#[test]
fn losing_the_wall_releases_with_cooldown() {
    let mut state = PlayerState::WallSlide;
    let mut wall = WallTracking { wall_direction: 1, ..fresh_wall() };
    assert_eq!(post_physics_transitions(&mut state, &mut wall, airborne(), 90), WallEffect::Release);
    assert_eq!(state, PlayerState::Fall);
    assert_eq!(wall.wall_detach_cooldown, WALL_DETACH_COOLDOWN_TICKS);
    let mut state = PlayerState::WallGrab;
    let mut wall = WallTracking { wall_direction: -1, ..fresh_wall() };
    let past_bottom = Contacts { touching_wall_left: true, below_grabbed_wall: true, ..airborne() };
    assert_eq!(post_physics_transitions(&mut state, &mut wall, past_bottom, 90), WallEffect::Release);
    assert_eq!(state, PlayerState::Fall);
}

#[test]
fn landing_resets_air_and_wall_locks() {
    let mut state = PlayerState::WallGrab;
    let mut wall = WallTracking {
        last_wall_jump_dir: 1,
        wall_direction: -1,
        wall_detach_cooldown: 4,
        ..fresh_wall()
    };
    let landed = Contacts { grounded: true, touching_wall_left: true, ..airborne() };
    assert_eq!(post_physics_transitions(&mut state, &mut wall, landed, 90), WallEffect::Land);
    assert_eq!(state, PlayerState::Idle);
    assert_eq!(wall.last_wall_jump_dir, 0);
    assert_eq!(wall.wall_detach_cooldown, 0);
    assert_eq!(wall.wall_jump_lock_timer, 0);
    assert!(!wall.has_air_dashed);
}

#[test]
fn motion_picks_locomotion_state() {
    let mut wall = fresh_wall();
    let mut state = PlayerState::Fall;
    let run = Contacts { was_grounded: true, grounded: true, moving: true, ..airborne() };
    post_physics_transitions(&mut state, &mut wall, run, 90);
    assert_eq!(state, PlayerState::Run);
    let stand = Contacts { moving: false, ..run };
    post_physics_transitions(&mut state, &mut wall, stand, 90);
    assert_eq!(state, PlayerState::Idle);
    let rising = Contacts { not_rising: false, ..airborne() };
    post_physics_transitions(&mut state, &mut wall, rising, 90);
    assert_eq!(state, PlayerState::Jump);
    let mut dash = PlayerState::Dash;
    post_physics_transitions(&mut dash, &mut wall, airborne(), 90);
    assert_eq!(dash, PlayerState::Dash);
}

#[test]
fn touching_other_wall_forgets_wall_jump_side() {
    let mut state = PlayerState::Jump;
    let mut wall = WallTracking { last_wall_jump_dir: -1, ..fresh_wall() };
    let c = Contacts { touching_wall_right: true, not_rising: false, ..airborne() };
    post_physics_transitions(&mut state, &mut wall, c, 90);
    assert_eq!(wall.last_wall_jump_dir, 0);
    let mut same = WallTracking { last_wall_jump_dir: 1, ..fresh_wall() };
    post_physics_transitions(&mut state, &mut same, c, 90);
    assert_eq!(same.last_wall_jump_dir, 1);
}

#[test]
fn screens_pick_their_music() {
    assert_eq!(music_for(Screen::Splash), MusicState::Silent);
    assert_eq!(music_for(Screen::StartMenu), MusicState::StartScreen);
    assert_eq!(music_for(Screen::Options { from_start_menu: true }), MusicState::StartScreen);
    assert_eq!(music_for(Screen::Options { from_start_menu: false }), MusicState::InGame);
    assert_eq!(music_for(Screen::LevelEditor), MusicState::LevelEditor);
    assert_eq!(music_for(Screen::Paused), MusicState::InGame);
}

#[test]
fn music_switches_once_with_its_fades() {
    let mut state = MusicState::Silent;
    let mut ducked = true;
    let cues = switch_music(&mut state, &mut ducked, Screen::LevelEditor);
    assert_eq!(cues, Some((LoopCue::Play { fade_ms: 1000 }, LoopCue::Stop { fade_ms: 500 })));
    assert_eq!(state, MusicState::LevelEditor);
    assert!(!ducked);
    assert_eq!(switch_music(&mut state, &mut ducked, Screen::LevelEditor), None);
    let cues = switch_music(&mut state, &mut ducked, Screen::InGame);
    assert_eq!(cues, Some((LoopCue::Play { fade_ms: 1000 }, LoopCue::Play { fade_ms: 1000 })));
    let cues = switch_music(&mut state, &mut ducked, Screen::Splash);
    assert_eq!(cues, Some((LoopCue::Stop { fade_ms: 1000 }, LoopCue::Stop { fade_ms: 1000 })));
}

#[test]
fn silent_loops_are_retried_only_where_wanted() {
    assert_eq!(loop_retries(MusicState::InGame, false, false), (true, true));
    assert_eq!(loop_retries(MusicState::StartScreen, false, false), (true, false));
    assert_eq!(loop_retries(MusicState::Silent, false, false), (false, false));
    assert_eq!(loop_retries(MusicState::InGame, true, true), (false, false));
}

#[test]
fn options_menu_ducks_and_restores() {
    let mut ducked = false;
    assert_eq!(duck_change(&mut ducked, Screen::Options { from_start_menu: false }), Some(true));
    assert!(ducked);
    assert_eq!(duck_change(&mut ducked, Screen::Options { from_start_menu: false }), None);
    assert_eq!(duck_change(&mut ducked, Screen::InGame), Some(false));
    assert_eq!(duck_change(&mut ducked, Screen::InGame), None);
}

#[test]
fn new_projectile_takes_first_dead_slot() {
    assert_eq!(free_slot(&[true, false, false]), Some(1));
    assert_eq!(free_slot(&[false]), Some(0));
    assert_eq!(free_slot(&[true, true]), None);
    assert_eq!(free_slot(&[]), None);
}

#[test]
fn projectile_ricochets_once() {
    assert!(ricochets(0));
    assert!(!ricochets(1));
    assert!(!ricochets(7));
}

#[test]
fn enemy_type_configs_differ() {
    let grunt = EnemyConfig::for_type(EnemyType::Grunt);
    let sniper = EnemyConfig::for_type(EnemyType::Sniper);
    let ronin = EnemyConfig::for_type(EnemyType::Ronin);
    assert!(grunt.patrols);
    // Snipers are static.
    assert!(!sniper.patrols);
    assert!(ronin.patrols);
}

#[test]
fn enemy_config_table() {
    let grunt = EnemyConfig::for_type(EnemyType::Grunt);
    let sniper = EnemyConfig::for_type(EnemyType::Sniper);
    let ronin = EnemyConfig::for_type(EnemyType::Ronin);
    assert_eq!(grunt, EnemyConfig { stagger_ticks: 60, aim_ticks: 20, patrols: true });
    assert_eq!(sniper, EnemyConfig { stagger_ticks: 60, aim_ticks: 45, patrols: false });
    assert_eq!(ronin, EnemyConfig { stagger_ticks: 60, aim_ticks: 0, patrols: true });
    assert_eq!(ENEMY_STAGGER_TICKS, 60);
    assert_eq!(ENEMY_AIM_TICKS, 20);
    assert_eq!(SNIPER_AIM_TICKS, 45);
}

fn parrying(phase: CombatPhase) -> CombatState {
    CombatState { phase, current_move: Some(MoveId::Parry), ..CombatState::default() }
}

#[test]
fn parry_deflects_projectile() {
    let player = parrying(CombatPhase::Active);
    let mut alive = vec![true];
    let result = check_parry_deflect(&player, &mut alive, &[true], &[42]);
    assert_eq!(result, Some(42));
    assert_eq!(alive.iter().filter(|a| **a).count(), 0);
}

#[test]
fn no_parry_when_not_in_active_phase() {
    let player = parrying(CombatPhase::Startup);
    let mut alive = vec![true];
    assert!(check_parry_deflect(&player, &mut alive, &[true], &[0]).is_none());
    assert_eq!(alive.iter().filter(|a| **a).count(), 1);
}

#[test]
fn parry_deflects_only_the_first_live_touching_projectile() {
    let player = parrying(CombatPhase::Active);
    let mut alive = vec![false, true, true, true];
    let touching = [true, false, true, true];
    assert_eq!(check_parry_deflect(&player, &mut alive, &touching, &[7, 8, 9, 10]), Some(9));
    assert_eq!(alive, vec![false, true, false, true]);
    assert_eq!(check_parry_deflect(&player, &mut alive, &touching, &[7, 8, 9, 10]), Some(10));
    assert_eq!(alive, vec![false, true, false, false]);
    assert_eq!(check_parry_deflect(&player, &mut alive, &touching, &[7, 8, 9, 10]), None);
    assert_eq!(alive, vec![false, true, false, false]);
}

#[test]
fn only_an_active_parry_deflects() {
    assert!(parry_deflects(&parrying(CombatPhase::Active)));
    assert!(!parry_deflects(&parrying(CombatPhase::Startup)));
    assert!(!parry_deflects(&parrying(CombatPhase::Recovery)));
    let attacking = CombatState {
        phase: CombatPhase::Active,
        current_move: Some(MoveId::AttackHorizontal),
        ..CombatState::default()
    };
    assert!(!parry_deflects(&attacking));
    assert!(!parry_deflects(&CombatState::default()));
    let mut alive = vec![true];
    assert_eq!(check_parry_deflect(&attacking, &mut alive, &[true], &[3]), None);
    assert_eq!(alive, vec![true]);
}
