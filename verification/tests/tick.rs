use journey::game::tick::{game_tick, GameTickActions, GameTickFacts, GameTickState, GrappleOutcome};

fn calm(enemies: usize) -> GameTickFacts {
    GameTickFacts {
        in_game: true,
        respawn_delay: 60,
        fell_below_death_line: false,
        player_invincible: false,
        grapple_arrived: false,
        staggered_enemy_at_arrival: None,
        attack_buffered: false,
        enemy_alive: vec![true; enemies],
        player_hits: vec![false; enemies],
        player_hit_damage: 20,
        enemy_hits: vec![false; enemies],
        enemy_hit_damage: vec![20; enemies],
        parry_source: None,
        projectile_hit_player: false,
    }
}

#[test]
fn tick_does_nothing_out_of_play() {
    let mut state = GameTickState { player_dead: true, respawn_timer: 7 };
    let mut facts = calm(2);
    facts.in_game = false;
    facts.fell_below_death_line = true;
    let r = game_tick(&mut state, facts);
    assert_eq!(r, GameTickActions::none());
    assert_eq!(state, GameTickState { player_dead: true, respawn_timer: 7 });
}

#[test]
fn tick_quiet_world_runs() {
    let mut state = GameTickState::new();
    let r = game_tick(&mut state, calm(3));
    assert!(r.world_runs);
    assert!(!r.player_dies && !r.respawn && !r.hitstop);
    assert_eq!(r.freeze_frames, 0);
    assert_eq!(state, GameTickState::new());
}

#[test]
fn falling_below_the_death_line_starts_the_countdown() {
    let mut state = GameTickState::new();
    let mut facts = calm(1);
    facts.fell_below_death_line = true;
    let r = game_tick(&mut state, facts);
    assert!(r.player_dies);
    assert!(!r.world_runs);
    // The countdown starts at the delay and already runs on the death tick.
    assert_eq!(state, GameTickState { player_dead: true, respawn_timer: 59 });
    let mut ticks = 0;
    loop {
        let r = game_tick(&mut state, calm(1));
        ticks += 1;
        if r.respawn {
            break;
        }
        assert!(state.player_dead);
        assert!(!r.world_runs);
    }
    assert_eq!(ticks, 60);
    assert_eq!(state, GameTickState::new());
}

#[test]
fn zero_delay_respawns_on_the_death_tick() {
    let mut state = GameTickState::new();
    let mut facts = calm(0);
    facts.respawn_delay = 0;
    facts.fell_below_death_line = true;
    let r = game_tick(&mut state, facts);
    assert!(r.player_dies && r.respawn);
    assert!(!state.player_dead);
}

#[test]
fn grapple_arrival_executes_bounces_or_falls() {
    let mut facts = calm(3);
    facts.grapple_arrived = true;
    facts.staggered_enemy_at_arrival = Some(1);
    facts.attack_buffered = true;
    let mut state = GameTickState::new();
    let r = game_tick(&mut state, facts);
    assert_eq!(r.grapple, Some(GrappleOutcome::Execute(1)));
    assert_eq!(r.freeze_frames, 8);
    assert!(r.hitstop);

    let mut facts = calm(3);
    facts.grapple_arrived = true;
    facts.staggered_enemy_at_arrival = Some(1);
    let r = game_tick(&mut state, facts);
    assert_eq!(r.grapple, Some(GrappleOutcome::Bounce));
    assert_eq!(r.freeze_frames, 0);
    assert!(!r.hitstop);

    let mut facts = calm(3);
    facts.grapple_arrived = true;
    facts.attack_buffered = true;
    let r = game_tick(&mut state, facts);
    assert_eq!(r.grapple, Some(GrappleOutcome::Fall));
}

#[test]
fn an_executed_enemy_cannot_strike_back() {
    let mut facts = calm(2);
    facts.grapple_arrived = true;
    facts.staggered_enemy_at_arrival = Some(0);
    facts.attack_buffered = true;
    facts.enemy_hits = vec![true, false];
    let mut state = GameTickState::new();
    let r = game_tick(&mut state, facts);
    assert_eq!(r.killed_by, None);
    assert!(!r.player_dies);
}

#[test]
fn grapple_arrival_ends_attack_and_parry() {
    let mut facts = calm(2);
    facts.grapple_arrived = true;
    facts.player_hits = vec![true, true];
    facts.parry_source = Some(1);
    let mut state = GameTickState::new();
    let r = game_tick(&mut state, facts);
    assert_eq!(r.player_kills, None);
    assert_eq!(r.stagger_enemy, None);
}

#[test]
fn player_kills_the_first_live_enemy_hit() {
    let mut facts = calm(3);
    facts.enemy_alive = vec![false, true, true];
    facts.player_hits = vec![true, true, true];
    facts.player_hit_damage = 25;
    // The enemy just killed cannot hit back; the next one can.
    facts.enemy_hits = vec![false, true, true];
    facts.enemy_hit_damage = vec![0, 0, 30];
    let mut state = GameTickState::new();
    let r = game_tick(&mut state, facts);
    assert_eq!(r.player_kills, Some(1));
    assert!(r.hitstop);
    assert_eq!(r.killed_by, Some(2));
    assert!(r.player_dies);
    assert_eq!(r.freeze_frames, 8);
    assert_eq!(state, GameTickState { player_dead: true, respawn_timer: 60 });
}

#[test]
fn invincibility_frames_block_one_hit_kills() {
    let mut facts = calm(1);
    facts.player_invincible = true;
    facts.enemy_hits = vec![true];
    facts.projectile_hit_player = true;
    let mut state = GameTickState::new();
    let r = game_tick(&mut state, facts);
    assert!(!r.player_dies);
    assert_eq!(r.killed_by, None);
    assert!(!state.player_dead);

    let mut facts = calm(1);
    facts.projectile_hit_player = true;
    let r = game_tick(&mut state, facts);
    assert!(r.player_dies);
    assert_eq!(r.killed_by, None);
    assert_eq!(state, GameTickState { player_dead: true, respawn_timer: 60 });
}

#[test]
fn a_parry_staggers_the_shooter() {
    let mut facts = calm(4);
    facts.parry_source = Some(3);
    let mut state = GameTickState::new();
    let r = game_tick(&mut state, facts);
    assert_eq!(r.stagger_enemy, Some(3));
    assert_eq!(r.freeze_frames, 5);
    assert!(!r.player_dies);
}

#[test]
fn a_dead_player_ignores_the_world() {
    let mut state = GameTickState { player_dead: true, respawn_timer: 3 };
    let mut facts = calm(2);
    facts.parry_source = Some(0);
    facts.player_hits = vec![true, true];
    facts.enemy_hits = vec![true, true];
    let r = game_tick(&mut state, facts);
    assert_eq!(r.stagger_enemy, None);
    assert_eq!(r.player_kills, None);
    assert!(!r.player_dies && !r.world_runs);
    assert_eq!(state, GameTickState { player_dead: true, respawn_timer: 2 });
}
