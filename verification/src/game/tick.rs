//! One fixed tick of play. The world's geometry (physics, distances, box
//! overlaps, the death line) is measured elsewhere and arrives as facts; this
//! step decides what the tick does: the death and respawn countdown, what a
//! grapple does on arrival, which attacks kill, whether a parry staggers the
//! shooter, and how long the screen freezes.
use vstd::prelude::*;
use crate::game::combat::hit::{freeze_for_damage, hit_freeze_frames};

verus! {

/// What a grapple pull does when it reaches its enemy target.
#[derive(Debug, Clone, Copy, PartialEq, Eq, Structural)]
pub enum GrappleOutcome {
    /// An attack was buffered during the pull: the staggered enemy is executed.
    Execute(usize),
    /// No attack buffered: the player bounces off the staggered enemy.
    Bounce,
    /// The enemy recovered or died before arrival: the player just falls.
    Fall,
}

/// The state the tick carries over: whether the player is dead and how many
/// ticks remain before the respawn.
#[derive(Debug, Clone, Copy, PartialEq, Eq, Structural)]
pub struct GameTickState {
    pub player_dead: bool,
    pub respawn_timer: u32,
}

impl GameTickState {
    /// A living player has no respawn pending.
    pub open spec fn wf(self) -> bool {
        !self.player_dead ==> self.respawn_timer == 0
    }

    /// A living player at the start of play.
    pub fn new() -> (r: Self)
        ensures
            r == (GameTickState { player_dead: false, respawn_timer: 0 }),
            r.wf(),
    {
        GameTickState { player_dead: false, respawn_timer: 0 }
    }
}

/// What the world reports for this tick. Per-enemy entries are indexed alike.
pub struct GameTickFacts {
    /// Play is running (not a menu, the pause screen or the level editor).
    pub in_game: bool,
    /// The respawn delay in ticks at the current tick rate.
    pub respawn_delay: u32,
    /// After its physics step the living player is below the level's death line.
    pub fell_below_death_line: bool,
    /// The player's invincibility frames are on.
    pub player_invincible: bool,
    /// A grapple pull reached its enemy target this tick.
    pub grapple_arrived: bool,
    /// The first staggered enemy at the arrival point, if any.
    pub staggered_enemy_at_arrival: Option<usize>,
    /// An attack press is waiting in the player's input buffer.
    pub attack_buffered: bool,
    /// Each enemy is alive when the tick starts.
    pub enemy_alive: Vec<bool>,
    /// The player's attack lands on each enemy (as `check_hit` decides it).
    pub player_hits: Vec<bool>,
    /// The damage of the player's current move.
    pub player_hit_damage: u16,
    /// Each enemy's attack lands on the player.
    pub enemy_hits: Vec<bool>,
    /// The damage of each enemy's current move.
    pub enemy_hit_damage: Vec<u16>,
    /// The enemy whose projectile the player's parry deflected, if any.
    pub parry_source: Option<usize>,
    /// A live projectile touches the player's hurtbox.
    pub projectile_hit_player: bool,
}

impl GameTickFacts {
    /// The per-enemy entries cover the same enemies (as many as a `Vec` holds).
    pub open spec fn wf(self) -> bool {
        &&& self.enemy_alive@.len() <= usize::MAX
        &&& self.player_hits@.len() == self.enemy_alive@.len()
        &&& self.enemy_hits@.len() == self.enemy_alive@.len()
        &&& self.enemy_hit_damage@.len() == self.enemy_alive@.len()
    }
}

/// What the caller carries out after the tick.
#[derive(Debug, Clone, Copy, PartialEq, Eq, Structural)]
pub struct GameTickActions {
    /// Respawn the player at the level spawn and rebuild enemies and projectiles.
    pub respawn: bool,
    /// The living world advances: enemies think and move, projectiles fly,
    /// the camera follows.
    pub world_runs: bool,
    /// What the grapple arrival does, when one happened.
    pub grapple: Option<GrappleOutcome>,
    /// The enemy the player's attack kills.
    pub player_kills: Option<usize>,
    /// The player dies this tick.
    pub player_dies: bool,
    /// The enemy whose attack killed the player.
    pub killed_by: Option<usize>,
    /// The enemy that fired the parried projectile is staggered.
    pub stagger_enemy: Option<usize>,
    /// Screen freeze frames to request (0: none).
    pub freeze_frames: u16,
    /// The player enters kill hitstop.
    pub hitstop: bool,
}

/// Ticks of freeze for a grapple execution.
pub const EXECUTE_FREEZE_FRAMES: u16 = 8;

/// Ticks of freeze for a parry.
pub const PARRY_FREEZE_FRAMES: u16 = 5;

/// No action at all.
pub open spec fn no_actions() -> GameTickActions {
    GameTickActions {
        respawn: false,
        world_runs: false,
        grapple: None,
        player_kills: None,
        player_dies: false,
        killed_by: None,
        stagger_enemy: None,
        freeze_frames: 0,
        hitstop: false,
    }
}

impl GameTickActions {
    pub fn none() -> (r: Self)
        ensures
            r == no_actions(),
    {
        GameTickActions {
            respawn: false,
            world_runs: false,
            grapple: None,
            player_kills: None,
            player_dies: false,
            killed_by: None,
            stagger_enemy: None,
            freeze_frames: 0,
            hitstop: false,
        }
    }
}

/// `o` does not name enemy `i`.
pub open spec fn spares(o: Option<usize>, i: int) -> bool {
    match o {
        Some(k) => k != i,
        None => true,
    }
}

/// Enemy `i` is alive, was not killed earlier this tick, and its strike lands.
pub open spec fn strikes(
    alive: Seq<bool>,
    hits: Seq<bool>,
    gone1: Option<usize>,
    gone2: Option<usize>,
    i: int,
) -> bool {
    alive[i] && hits[i] && spares(gone1, i) && spares(gone2, i)
}

/// The first enemy at index `i` or later that strikes.
pub open spec fn first_striker_from(
    alive: Seq<bool>,
    hits: Seq<bool>,
    gone1: Option<usize>,
    gone2: Option<usize>,
    i: int,
) -> Option<usize>
    decreases alive.len() - i,
{
    if i < 0 || i >= alive.len() {
        None
    } else if strikes(alive, hits, gone1, gone2, i) {
        Some(i as usize)
    } else {
        first_striker_from(alive, hits, gone1, gone2, i + 1)
    }
}

/// The first enemy that strikes.
pub open spec fn first_striker(
    alive: Seq<bool>,
    hits: Seq<bool>,
    gone1: Option<usize>,
    gone2: Option<usize>,
) -> Option<usize> {
    first_striker_from(alive, hits, gone1, gone2, 0)
}

/// What a grapple arrival does.
pub open spec fn grapple_outcome(target: Option<usize>, attack_buffered: bool) -> GrappleOutcome {
    match target {
        Some(i) => if attack_buffered {
            GrappleOutcome::Execute(i)
        } else {
            GrappleOutcome::Bounce
        },
        None => GrappleOutcome::Fall,
    }
}

/// The larger of two freeze requests.
pub open spec fn max_freeze(a: u16, b: u16) -> u16 {
    if a >= b {
        a
    } else {
        b
    }
}

/// Freeze frames for an optional trigger.
pub open spec fn freeze_if(on: bool, frames: u16) -> u16 {
    if on {
        frames
    } else {
        0
    }
}

/// The enemy a grapple executes.
pub open spec fn executed(g: Option<GrappleOutcome>) -> Option<usize> {
    match g {
        Some(GrappleOutcome::Execute(i)) => Some(i),
        _ => None,
    }
}

/// One tick of play.
///
/// Out of play nothing happens. A living player below the death line dies and
/// the respawn countdown starts at the delay. A dead player counts down one
/// tick, or respawns when the countdown is over; nothing else happens while
/// dead. A living player's tick then runs in order:
/// - a grapple arrival executes the staggered enemy if an attack was buffered,
///   bounces off it otherwise, and falls without one; it also ends the
///   player's move, so neither an attack nor a parry acts this tick;
/// - the player's attack kills the first live enemy it lands on;
/// - unless invincible, the player dies to the first live enemy (not killed
///   earlier this tick) whose attack lands, or to a projectile, and the
///   countdown starts at the delay;
/// - a parry staggers the enemy that fired the deflected projectile.
/// The screen freezes for the longest request: 8 for an execution, the
/// damage tier for a landed hit either way, 5 for a parry.
pub open spec fn game_step(s: GameTickState, f: GameTickFacts) -> (GameTickState, GameTickActions) {
    if !f.in_game {
        (s, no_actions())
    } else {
        let fell = !s.player_dead && f.fell_below_death_line;
        let timer = if fell {
            f.respawn_delay
        } else {
            s.respawn_timer
        };
        if s.player_dead || fell {
            if timer > 0 {
                (
                    GameTickState { player_dead: true, respawn_timer: (timer - 1) as u32 },
                    GameTickActions { player_dies: fell, ..no_actions() },
                )
            } else {
                (
                    GameTickState { player_dead: false, respawn_timer: 0 },
                    GameTickActions { respawn: true, player_dies: fell, ..no_actions() },
                )
            }
        } else {
            let grapple = if f.grapple_arrived {
                Some(grapple_outcome(f.staggered_enemy_at_arrival, f.attack_buffered))
            } else {
                None
            };
            let exec = executed(grapple);
            let player_kills = if f.grapple_arrived {
                None
            } else {
                first_striker(f.enemy_alive@, f.player_hits@, None, None)
            };
            let killed_by = if f.player_invincible {
                None
            } else {
                first_striker(f.enemy_alive@, f.enemy_hits@, exec, player_kills)
            };
            let shot = !f.player_invincible && f.projectile_hit_player;
            let dies = killed_by is Some || shot;
            let parry = if f.grapple_arrived {
                None
            } else {
                f.parry_source
            };
            let freeze = max_freeze(
                max_freeze(
                    freeze_if(exec is Some, EXECUTE_FREEZE_FRAMES),
                    freeze_if(player_kills is Some, freeze_for_damage(f.player_hit_damage)),
                ),
                max_freeze(
                    match killed_by {
                        Some(k) => freeze_for_damage(f.enemy_hit_damage@[k as int]),
                        None => 0,
                    },
                    freeze_if(parry is Some, PARRY_FREEZE_FRAMES),
                ),
            );
            (
                GameTickState {
                    player_dead: dies,
                    respawn_timer: if dies {
                        f.respawn_delay
                    } else {
                        s.respawn_timer
                    },
                },
                GameTickActions {
                    respawn: false,
                    world_runs: true,
                    grapple,
                    player_kills,
                    player_dies: dies,
                    killed_by,
                    stagger_enemy: parry,
                    freeze_frames: freeze,
                    hitstop: exec is Some || player_kills is Some,
                },
            )
        }
    }
}

/// The state after the first `n` ticks of `fs`.
pub open spec fn tick_run(s: GameTickState, fs: Seq<GameTickFacts>, n: nat) -> GameTickState
    decreases n,
{
    if n == 0 {
        s
    } else {
        game_step(tick_run(s, fs, (n - 1) as nat), fs[n - 1]).0
    }
}

/// The respawn countdown: a dead player whose countdown shows `t` stays dead
/// through `t` ticks of play, whatever happens in the world, and respawns on
/// the tick after them.
pub proof fn lemma_respawn_countdown(s: GameTickState, fs: Seq<GameTickFacts>)
    requires
        s.player_dead,
        fs.len() > s.respawn_timer,
        forall|k: int| 0 <= k < fs.len() ==> (#[trigger] fs[k]).in_game,
    ensures
        forall|k: nat|
            k <= s.respawn_timer ==> {
                let m = #[trigger] tick_run(s, fs, k);
                m.player_dead && m.respawn_timer == s.respawn_timer - k
            },
        game_step(tick_run(s, fs, s.respawn_timer as nat), fs[s.respawn_timer as int]).1.respawn,
        !game_step(tick_run(s, fs, s.respawn_timer as nat), fs[s.respawn_timer as int]).0.player_dead,
{
    assert forall|k: nat| k <= s.respawn_timer implies {
        let m = #[trigger] tick_run(s, fs, k);
        m.player_dead && m.respawn_timer == s.respawn_timer - k
    } by {
        lemma_countdown_steps(s, fs, k);
    }
    lemma_countdown_steps(s, fs, s.respawn_timer as nat);
}

proof fn lemma_countdown_steps(s: GameTickState, fs: Seq<GameTickFacts>, k: nat)
    requires
        s.player_dead,
        k <= s.respawn_timer,
        fs.len() > s.respawn_timer,
        forall|j: int| 0 <= j < fs.len() ==> (#[trigger] fs[j]).in_game,
    ensures
        tick_run(s, fs, k).player_dead,
        tick_run(s, fs, k).respawn_timer == s.respawn_timer - k,
    decreases k,
{
    if k > 0 {
        lemma_countdown_steps(s, fs, (k - 1) as nat);
        assert(fs[k - 1].in_game);
    }
}

/// The first enemy that strikes, scanning in order.
fn find_striker(
    alive: &Vec<bool>,
    hits: &Vec<bool>,
    gone1: Option<usize>,
    gone2: Option<usize>,
) -> (r: Option<usize>)
    requires
        hits@.len() == alive@.len(),
    ensures
        r == first_striker(alive@, hits@, gone1, gone2),
        r matches Some(i) ==> i < alive@.len(),
{
    let mut i: usize = 0;
    while i < alive.len()
        invariant
            i <= alive@.len(),
            hits@.len() == alive@.len(),
            first_striker(alive@, hits@, gone1, gone2) == first_striker_from(
                alive@,
                hits@,
                gone1,
                gone2,
                i as int,
            ),
        decreases alive@.len() - i,
    {
        let spared1 = match gone1 {
            Some(k) => k != i,
            None => true,
        };
        let spared2 = match gone2 {
            Some(k) => k != i,
            None => true,
        };
        if alive[i] && hits[i] && spared1 && spared2 {
            assert(first_striker_from(alive@, hits@, gone1, gone2, i as int) == Some(i));
            return Some(i);
        }
        assert(first_striker_from(alive@, hits@, gone1, gone2, i as int) == first_striker_from(
            alive@,
            hits@,
            gone1,
            gone2,
            i + 1,
        ));
        i = i + 1;
    }
    None
}

fn larger(a: u16, b: u16) -> (r: u16)
    ensures
        r == max_freeze(a, b),
{
    if a >= b {
        a
    } else {
        b
    }
}

/// Runs one tick of play on `state` with this tick's `facts`; see `game_step`.
pub fn game_tick(state: &mut GameTickState, facts: GameTickFacts) -> (r: GameTickActions)
    requires
        old(state).wf(),
        facts.wf(),
    ensures
        (*final(state), r) == game_step(*old(state), facts),
        final(state).wf(),
        !facts.in_game ==> *final(state) == *old(state) && r == no_actions(),
        facts.in_game && old(state).player_dead && old(state).respawn_timer > 0 ==> {
            &&& final(state).player_dead
            &&& final(state).respawn_timer == old(state).respawn_timer - 1
            &&& !r.respawn
        },
        facts.in_game && old(state).player_dead && old(state).respawn_timer == 0 ==> r.respawn
            && !final(state).player_dead,
        facts.in_game && !old(state).player_dead && !facts.fell_below_death_line
            && facts.grapple_arrived ==> r.grapple == Some(
            grapple_outcome(facts.staggered_enemy_at_arrival, facts.attack_buffered),
        ),
        facts.in_game ==> r.player_dies == (!old(state).player_dead && (facts.fell_below_death_line
            || (!facts.player_invincible && (r.killed_by is Some || facts.projectile_hit_player)))),
        facts.player_invincible ==> r.killed_by is None,
        r.player_kills is Some ==> r.hitstop && r.freeze_frames >= freeze_for_damage(
            facts.player_hit_damage,
        ),
        old(state).player_dead ==> !r.world_runs && r.grapple is None && r.player_kills is None
            && r.killed_by is None && r.stagger_enemy is None && r.freeze_frames == 0,
        facts.in_game && !old(state).player_dead && !facts.fell_below_death_line
            && !facts.grapple_arrived ==> match facts.parry_source {
            Some(i) => r.stagger_enemy == Some(i) && r.freeze_frames >= PARRY_FREEZE_FRAMES,
            None => r.stagger_enemy is None,
        },
{
    if !facts.in_game {
        return GameTickActions::none();
    }
    let fell = !state.player_dead && facts.fell_below_death_line;
    let timer = if fell {
        facts.respawn_delay
    } else {
        state.respawn_timer
    };
    if state.player_dead || fell {
        if timer > 0 {
            *state = GameTickState { player_dead: true, respawn_timer: timer - 1 };
            let mut r = GameTickActions::none();
            r.player_dies = fell;
            return r;
        } else {
            *state = GameTickState { player_dead: false, respawn_timer: 0 };
            let mut r = GameTickActions::none();
            r.respawn = true;
            r.player_dies = fell;
            return r;
        }
    }
    let grapple = if facts.grapple_arrived {
        Some(
            match facts.staggered_enemy_at_arrival {
                Some(i) => if facts.attack_buffered {
                    GrappleOutcome::Execute(i)
                } else {
                    GrappleOutcome::Bounce
                },
                None => GrappleOutcome::Fall,
            },
        )
    } else {
        None
    };
    let exec = match grapple {
        Some(GrappleOutcome::Execute(i)) => Some(i),
        _ => None,
    };
    let player_kills = if facts.grapple_arrived {
        None
    } else {
        find_striker(&facts.enemy_alive, &facts.player_hits, None, None)
    };
    let killed_by = if facts.player_invincible {
        None
    } else {
        find_striker(&facts.enemy_alive, &facts.enemy_hits, exec, player_kills)
    };
    let shot = !facts.player_invincible && facts.projectile_hit_player;
    let dies = killed_by.is_some() || shot;
    let parry = if facts.grapple_arrived {
        None
    } else {
        facts.parry_source
    };
    let f_exec: u16 = if exec.is_some() {
        EXECUTE_FREEZE_FRAMES
    } else {
        0
    };
    let f_kill: u16 = if player_kills.is_some() {
        hit_freeze_frames(facts.player_hit_damage)
    } else {
        0
    };
    let f_killed: u16 = match killed_by {
        Some(k) => hit_freeze_frames(facts.enemy_hit_damage[k]),
        None => 0,
    };
    let f_parry: u16 = if parry.is_some() {
        PARRY_FREEZE_FRAMES
    } else {
        0
    };
    let freeze = larger(larger(f_exec, f_kill), larger(f_killed, f_parry));
    *state = GameTickState {
        player_dead: dies,
        respawn_timer: if dies {
            facts.respawn_delay
        } else {
            state.respawn_timer
        },
    };
    GameTickActions {
        respawn: false,
        world_runs: true,
        grapple,
        player_kills,
        player_dies: dies,
        killed_by,
        stagger_enemy: parry,
        freeze_frames: freeze,
        hitstop: exec.is_some() || player_kills.is_some(),
    }
}


/// The screen freeze of a living player's tick answers every event that calls
/// for one, with at least that event's frames: a grapple execution (8), a kill
/// by the player (the damage tier of the player's move: 3 below 20 damage, 5
/// from 20, 8 from 30), a kill of the player by an enemy (that enemy's damage
/// tier) and a parry (5); and it is exactly one of those requests, so with no
/// such event there is no freeze.
pub proof fn lemma_tick_freeze(s: GameTickState, f: GameTickFacts)
    requires
        f.wf(),
        f.in_game,
        !s.player_dead,
        !f.fell_below_death_line,
    ensures
        ({
            let r = game_step(s, f).1;
            &&& r.player_kills is Some ==> r.freeze_frames >= 3
            &&& r.player_kills is Some && f.player_hit_damage >= 20 ==> r.freeze_frames >= 5
            &&& r.player_kills is Some && f.player_hit_damage >= 30 ==> r.freeze_frames >= 8
            &&& r.player_kills is Some ==> r.freeze_frames >= freeze_for_damage(f.player_hit_damage)
            &&& r.player_kills is Some ==> r.hitstop
            &&& r.grapple matches Some(GrappleOutcome::Execute(_)) ==> r.freeze_frames >= 8
                && r.hitstop
            &&& r.killed_by matches Some(k) ==> k < f.enemy_alive@.len() && r.freeze_frames >= 3
                && (f.enemy_hit_damage@[k as int] >= 20 ==> r.freeze_frames >= 5)
                && (f.enemy_hit_damage@[k as int] >= 30 ==> r.freeze_frames >= 8)
            &&& r.stagger_enemy is Some ==> r.freeze_frames >= 5
            &&& r.freeze_frames == 0 || r.freeze_frames == 3 || r.freeze_frames == 5
                || r.freeze_frames == 8
            &&& (r.player_kills is None && r.killed_by is None && r.stagger_enemy is None && !(
            r.grapple matches Some(GrappleOutcome::Execute(_)))) ==> r.freeze_frames == 0
        }),
{
    lemma_first_striker_in_range(
        f.enemy_alive@,
        f.enemy_hits@,
        executed(game_step(s, f).1.grapple),
        game_step(s, f).1.player_kills,
        0,
    );
}

/// A strike found by the scan names an enemy that exists and strikes.
proof fn lemma_first_striker_in_range(
    alive: Seq<bool>,
    hits: Seq<bool>,
    gone1: Option<usize>,
    gone2: Option<usize>,
    i: int,
)
    requires
        0 <= i,
        alive.len() <= usize::MAX,
    ensures
        first_striker_from(alive, hits, gone1, gone2, i) matches Some(k) ==> i <= k < alive.len()
            && strikes(alive, hits, gone1, gone2, k as int) && forall|j: int|
            i <= j < k ==> !#[trigger] strikes(alive, hits, gone1, gone2, j),
        first_striker_from(alive, hits, gone1, gone2, i) is None ==> forall|j: int|
            i <= j < alive.len() ==> !#[trigger] strikes(alive, hits, gone1, gone2, j),
    decreases alive.len() - i,
{
    if i < alive.len() && !strikes(alive, hits, gone1, gone2, i) {
        lemma_first_striker_in_range(alive, hits, gone1, gone2, i + 1);
    }
}


/// Who kills whom in a living player's tick. The player's attack kills the
/// first live enemy it lands on, unless a grapple arrival ended the move; if
/// it lands on some live enemy, it kills one. The player dies to the first
/// live enemy whose attack lands, skipping an enemy executed or killed by the
/// player earlier in the tick, and never while invincible.
pub proof fn lemma_tick_kills(s: GameTickState, f: GameTickFacts)
    requires
        f.wf(),
        f.in_game,
        !s.player_dead,
        !f.fell_below_death_line,
    ensures
        ({
            let r = game_step(s, f).1;
            let alive = f.enemy_alive@;
            &&& r.player_kills matches Some(k) ==> {
                &&& k < alive.len() && alive[k as int] && f.player_hits@[k as int]
                &&& !f.grapple_arrived
                &&& forall|j: int| 0 <= j < k ==> !(alive[j] && #[trigger] f.player_hits@[j])
            }
            &&& !f.grapple_arrived && (exists|j: int|
                0 <= j < alive.len() && alive[j] && #[trigger] f.player_hits@[j]) ==> r.player_kills
                is Some
            &&& r.killed_by matches Some(k) ==> {
                &&& k < alive.len() && alive[k as int] && f.enemy_hits@[k as int]
                &&& !f.player_invincible
                &&& r.player_kills != Some(k)
                &&& r.grapple != Some(GrappleOutcome::Execute(k))
            }
            &&& r.player_dies == (r.killed_by is Some || (!f.player_invincible
                && f.projectile_hit_player))
        }),
{
    let r = game_step(s, f).1;
    lemma_first_striker_in_range(f.enemy_alive@, f.player_hits@, None, None, 0);
    lemma_first_striker_in_range(
        f.enemy_alive@,
        f.enemy_hits@,
        executed(r.grapple),
        r.player_kills,
        0,
    );
    if !f.grapple_arrived && (exists|j: int|
        0 <= j < f.enemy_alive@.len() && f.enemy_alive@[j] && #[trigger] f.player_hits@[j]) {
        let j = choose|j: int|
            0 <= j < f.enemy_alive@.len() && f.enemy_alive@[j] && #[trigger] f.player_hits@[j];
        assert(strikes(f.enemy_alive@, f.player_hits@, None, None, j));
    }
    if let Some(k) = r.player_kills {
        assert forall|j: int| 0 <= j < k implies !(f.enemy_alive@[j] && #[trigger] f.player_hits@[j]) by {
            assert(!strikes(f.enemy_alive@, f.player_hits@, None, None, j));
        }
    }
}

} // verus!
