//! Enemy kinds, behaviour states and the tick-driven AI decisions. The world
//! geometry is measured elsewhere and reaches the AI as yes/no perceptions;
//! the AI decides the next state, how the enemy moves, and whether it shoots
//! or starts its melee attack.
use vstd::prelude::*;
use crate::game::combat::fsm::{begin_move, begun_state, CombatPhase, CombatState};
use crate::game::combat::moves::{MoveId, MoveTable};

verus! {

/// Visual and behavioural enemy variants.
#[derive(Debug, Clone, Copy, PartialEq, Eq, Structural)]
pub enum EnemyType {
    Grunt,
    Sniper,
    Ronin,
}

/// An enemy's AI state; timers count ticks.
#[derive(Debug, Clone, Copy, PartialEq, Eq, Structural)]
pub enum EnemyState {
    Idle,
    Patrol { direction: i8 },
    Aim { timer: u16 },
    MeleeWindup { timer: u16 },
    Attacking,
    Cooldown { timer: u16 },
    Staggered { timer: u16 },
    Dead,
}

/// Ticks between shots after firing.
pub const SHOOT_COOLDOWN: u16 = 30;

/// Ticks of melee wind-up before the attack starts.
pub const ENEMY_MELEE_WINDUP_TICKS: u16 = 10;

/// Ticks an enemy stays staggered.
pub const ENEMY_STAGGER_TICKS: u16 = 60;

/// Ticks a death flash lasts.
pub const DEATH_FLASH_TICKS: u16 = 6;

/// Ticks a Grunt aims before firing.
pub const ENEMY_AIM_TICKS: u16 = 20;

/// Ticks a Sniper aims before firing: a longer lock-on.
pub const SNIPER_AIM_TICKS: u16 = 45;

/// The integer side of an enemy type's tuning: how long it stays staggered,
/// how long it aims before firing (0: it never shoots) and whether it patrols.
/// Speeds, ranges and colours are float data kept beside it.
#[derive(Debug, Clone, Copy, PartialEq, Eq, Structural)]
pub struct EnemyConfig {
    pub stagger_ticks: u16,
    pub aim_ticks: u16,
    pub patrols: bool,
}

/// The tuning table: every type staggers for `ENEMY_STAGGER_TICKS`; a Grunt
/// aims `ENEMY_AIM_TICKS` and patrols, a Sniper aims `SNIPER_AIM_TICKS` and
/// stands still, a Ronin never shoots and patrols.
pub open spec fn enemy_config(t: EnemyType) -> EnemyConfig {
    match t {
        EnemyType::Grunt => EnemyConfig {
            stagger_ticks: ENEMY_STAGGER_TICKS,
            aim_ticks: ENEMY_AIM_TICKS,
            patrols: true,
        },
        EnemyType::Sniper => EnemyConfig {
            stagger_ticks: ENEMY_STAGGER_TICKS,
            aim_ticks: SNIPER_AIM_TICKS,
            patrols: false,
        },
        EnemyType::Ronin => EnemyConfig {
            stagger_ticks: ENEMY_STAGGER_TICKS,
            aim_ticks: 0,
            patrols: true,
        },
    }
}

impl EnemyConfig {
    /// The tuning of `enemy_type`.
    pub fn for_type(enemy_type: EnemyType) -> (r: Self)
        ensures
            r == enemy_config(enemy_type),
    {
        match enemy_type {
            EnemyType::Grunt => EnemyConfig {
                stagger_ticks: ENEMY_STAGGER_TICKS,
                aim_ticks: ENEMY_AIM_TICKS,
                patrols: true,
            },
            EnemyType::Sniper => EnemyConfig {
                stagger_ticks: ENEMY_STAGGER_TICKS,
                aim_ticks: SNIPER_AIM_TICKS,
                patrols: false,
            },
            EnemyType::Ronin => EnemyConfig {
                stagger_ticks: ENEMY_STAGGER_TICKS,
                aim_ticks: 0,
                patrols: true,
            },
        }
    }
}

/// What the enemy perceives this tick.
#[derive(Debug, Clone, Copy, PartialEq, Eq, Structural)]
pub struct AiInputs {
    /// The player is within aggro range and no wall blocks the line of sight.
    pub sees_player: bool,
    /// The player is within melee range horizontally and within the enemy's
    /// height vertically.
    pub in_melee_reach: bool,
    /// Ticks this enemy type aims before firing (0: it does not shoot).
    pub aim_ticks: u16,
    /// This enemy type patrols.
    pub patrols: bool,
    /// The enemy faces right (after turning towards a player in aggro range).
    pub facing_right: bool,
    /// Walking on in the patrol direction would leave the floor or hit a wall.
    pub blocked_ahead: bool,
}

/// How the enemy moves this tick.
#[derive(Debug, Clone, Copy, PartialEq, Eq, Structural)]
pub enum AiMotion {
    /// Velocity unchanged.
    Keep,
    /// Horizontal velocity set to zero.
    Stop,
    /// Horizontal velocity set to the patrol speed in this direction.
    Walk(i8),
    /// Horizontal velocity damped (staggered slide).
    Damp,
}

/// The AI's decision for one tick.
#[derive(Debug, Clone, Copy, PartialEq, Eq, Structural)]
pub struct AiDecision {
    pub motion: AiMotion,
    /// The enemy fires a projectile at the player this tick.
    pub shoot: bool,
    /// The enemy starts its horizontal melee attack this tick.
    pub begin_melee: bool,
}

/// A decision with no shot and no melee start.
pub open spec fn motion_only(motion: AiMotion) -> AiDecision {
    AiDecision { motion, shoot: false, begin_melee: false }
}

/// The AI's next state and decision from `s` on perceptions `p`.
pub open spec fn ai_next(s: EnemyState, p: AiInputs) -> (EnemyState, AiDecision) {
    match s {
        EnemyState::Idle | EnemyState::Patrol { .. } => {
            if p.sees_player && p.in_melee_reach {
                (
                    EnemyState::MeleeWindup { timer: ENEMY_MELEE_WINDUP_TICKS },
                    motion_only(AiMotion::Stop),
                )
            } else if p.sees_player && p.aim_ticks > 0 {
                (EnemyState::Aim { timer: p.aim_ticks }, motion_only(AiMotion::Stop))
            } else {
                match s {
                    EnemyState::Patrol { direction } => if p.blocked_ahead {
                        (EnemyState::Patrol { direction: (-direction) as i8 }, motion_only(AiMotion::Stop))
                    } else {
                        (s, motion_only(AiMotion::Walk(direction)))
                    },
                    _ => if p.patrols {
                        (
                            EnemyState::Patrol { direction: if p.facing_right { 1i8 } else { -1i8 } },
                            motion_only(AiMotion::Stop),
                        )
                    } else {
                        (s, motion_only(AiMotion::Stop))
                    },
                }
            }
        },
        EnemyState::Attacking => (s, motion_only(AiMotion::Stop)),
        EnemyState::Aim { timer } => if timer <= 1 {
            (
                EnemyState::Cooldown { timer: SHOOT_COOLDOWN },
                AiDecision { motion: AiMotion::Stop, shoot: true, begin_melee: false },
            )
        } else {
            (EnemyState::Aim { timer: (timer - 1) as u16 }, motion_only(AiMotion::Stop))
        },
        EnemyState::MeleeWindup { timer } => if timer <= 1 {
            (
                EnemyState::Attacking,
                AiDecision { motion: AiMotion::Stop, shoot: false, begin_melee: true },
            )
        } else {
            (EnemyState::MeleeWindup { timer: (timer - 1) as u16 }, motion_only(AiMotion::Stop))
        },
        EnemyState::Cooldown { timer } => if timer <= 1 {
            (EnemyState::Idle, motion_only(AiMotion::Stop))
        } else {
            (EnemyState::Cooldown { timer: (timer - 1) as u16 }, motion_only(AiMotion::Stop))
        },
        EnemyState::Staggered { timer } => if timer <= 1 {
            (EnemyState::Idle, motion_only(AiMotion::Damp))
        } else {
            (EnemyState::Staggered { timer: (timer - 1) as u16 }, motion_only(AiMotion::Damp))
        },
        EnemyState::Dead => (s, motion_only(AiMotion::Keep)),
    }
}

/// A patrol direction can be reversed without overflow.
pub open spec fn ai_state_ok(s: EnemyState) -> bool {
    s matches EnemyState::Patrol { direction } ==> direction != i8::MIN
}

/// Runs the AI for one tick: updates the state and, when the wind-up ends,
/// starts the horizontal melee attack on the combat machine.
pub fn update_ai(
    state: &mut EnemyState,
    combat: &mut CombatState,
    table: &MoveTable,
    inputs: AiInputs,
) -> (r: AiDecision)
    requires
        ai_state_ok(*old(state)),
    ensures
        (*final(state), r) == ai_next(*old(state), inputs),
        (*old(state) is Idle || *old(state) is Patrol) && inputs.sees_player
            && !inputs.in_melee_reach && inputs.aim_ticks > 0 ==> *final(state) == (EnemyState::Aim {
            timer: inputs.aim_ticks,
        }) && r.motion == AiMotion::Stop && !r.shoot && !r.begin_melee,
        r.begin_melee ==> *final(combat) == begun_state(
            MoveId::AttackHorizontal,
            table.spec_get(MoveId::AttackHorizontal),
        ),
        !r.begin_melee ==> *final(combat) == *old(combat),
{
    match *state {
        EnemyState::Idle | EnemyState::Patrol { .. } => {
            if inputs.sees_player {
                if inputs.in_melee_reach {
                    *state = EnemyState::MeleeWindup { timer: ENEMY_MELEE_WINDUP_TICKS };
                    return AiDecision { motion: AiMotion::Stop, shoot: false, begin_melee: false };
                }
                if inputs.aim_ticks > 0 {
                    *state = EnemyState::Aim { timer: inputs.aim_ticks };
                    return AiDecision { motion: AiMotion::Stop, shoot: false, begin_melee: false };
                }
            }
            match *state {
                EnemyState::Patrol { direction } => {
                    if inputs.blocked_ahead {
                        *state = EnemyState::Patrol { direction: -direction };
                        AiDecision { motion: AiMotion::Stop, shoot: false, begin_melee: false }
                    } else {
                        AiDecision {
                            motion: AiMotion::Walk(direction),
                            shoot: false,
                            begin_melee: false,
                        }
                    }
                },
                _ => {
                    if inputs.patrols {
                        *state = EnemyState::Patrol {
                            direction: if inputs.facing_right { 1 } else { -1 },
                        };
                    }
                    AiDecision { motion: AiMotion::Stop, shoot: false, begin_melee: false }
                },
            }
        },
        EnemyState::Attacking => AiDecision { motion: AiMotion::Stop, shoot: false, begin_melee: false },
        EnemyState::Aim { timer } => {
            if timer <= 1 {
                *state = EnemyState::Cooldown { timer: SHOOT_COOLDOWN };
                AiDecision { motion: AiMotion::Stop, shoot: true, begin_melee: false }
            } else {
                *state = EnemyState::Aim { timer: timer - 1 };
                AiDecision { motion: AiMotion::Stop, shoot: false, begin_melee: false }
            }
        },
        EnemyState::MeleeWindup { timer } => {
            if timer <= 1 {
                begin_move(combat, MoveId::AttackHorizontal, table);
                *state = EnemyState::Attacking;
                AiDecision { motion: AiMotion::Stop, shoot: false, begin_melee: true }
            } else {
                *state = EnemyState::MeleeWindup { timer: timer - 1 };
                AiDecision { motion: AiMotion::Stop, shoot: false, begin_melee: false }
            }
        },
        EnemyState::Cooldown { timer } => {
            if timer <= 1 {
                *state = EnemyState::Idle;
            } else {
                *state = EnemyState::Cooldown { timer: timer - 1 };
            }
            AiDecision { motion: AiMotion::Stop, shoot: false, begin_melee: false }
        },
        EnemyState::Staggered { timer } => {
            if timer <= 1 {
                *state = EnemyState::Idle;
            } else {
                *state = EnemyState::Staggered { timer: timer - 1 };
            }
            AiDecision { motion: AiMotion::Damp, shoot: false, begin_melee: false }
        },
        EnemyState::Dead => AiDecision { motion: AiMotion::Keep, shoot: false, begin_melee: false },
    }
}

/// The state after the enemy's combat machine changed phase: finishing a move
/// (back to Idle) starts the shot cooldown; other changes leave the AI state.
pub fn after_combat_transition(state: &mut EnemyState, transition: Option<CombatPhase>)
    ensures
        *final(state) == (if transition == Some(CombatPhase::Idle) {
            EnemyState::Cooldown { timer: SHOOT_COOLDOWN }
        } else {
            *old(state)
        }),
{
    if let Some(CombatPhase::Idle) = transition {
        *state = EnemyState::Cooldown { timer: SHOOT_COOLDOWN };
    }
}

/// Interrupts whatever the enemy was doing and staggers it for `stagger_ticks`.
pub fn enter_stagger(state: &mut EnemyState, combat: &mut CombatState, stagger_ticks: u16)
    ensures
        *final(state) == (EnemyState::Staggered { timer: stagger_ticks }),
        final(combat).phase == CombatPhase::Idle,
        final(combat).current_move is None,
        final(combat).frame_timer == 0,
        final(combat).invincible == old(combat).invincible,
{
    combat.phase = CombatPhase::Idle;
    combat.current_move = None;
    combat.frame_timer = 0;
    *state = EnemyState::Staggered { timer: stagger_ticks };
}

/// Kills the enemy: it drops its move and starts the death flash.
pub fn kill(state: &mut EnemyState, combat: &mut CombatState, death_flash_timer: &mut u16)
    ensures
        *final(state) == EnemyState::Dead,
        final(combat).phase == CombatPhase::Idle,
        final(combat).current_move is None,
        final(combat).frame_timer == old(combat).frame_timer,
        final(combat).invincible == old(combat).invincible,
        *final(death_flash_timer) == DEATH_FLASH_TICKS,
{
    combat.phase = CombatPhase::Idle;
    combat.current_move = None;
    *state = EnemyState::Dead;
    *death_flash_timer = DEATH_FLASH_TICKS;
}

/// A staggered enemy's timer is held at `stagger_ticks`; other states are unchanged.
pub fn freeze_stagger(state: &mut EnemyState, stagger_ticks: u16)
    ensures
        *final(state) == (if *old(state) is Staggered {
            EnemyState::Staggered { timer: stagger_ticks }
        } else {
            *old(state)
        }),
{
    if let EnemyState::Staggered { .. } = *state {
        *state = EnemyState::Staggered { timer: stagger_ticks };
    }
}

pub fn is_alive(state: &EnemyState) -> (r: bool)
    ensures
        r == !(*state is Dead),
{
    match state {
        EnemyState::Dead => false,
        _ => true,
    }
}

pub fn is_staggered(state: &EnemyState) -> (r: bool)
    ensures
        r == (*state is Staggered),
{
    match state {
        EnemyState::Staggered { .. } => true,
        _ => false,
    }
}

/// The AI after `n` ticks on the perceptions `ps` (one per tick).
pub open spec fn ai_run(s: EnemyState, ps: Seq<AiInputs>, n: nat) -> EnemyState
    decreases n,
{
    if n == 0 {
        s
    } else {
        ai_next(ai_run(s, ps, (n - 1) as nat), ps[n - 1]).0
    }
}

/// Countdown states run their course whatever the enemy perceives: aiming with
/// `t` ticks left fires after `t` ticks (at least one), and a cooldown or a
/// stagger with `t` ticks left is back to Idle after `t` ticks (at least one).
/// A dead enemy stays dead.
pub proof fn lemma_countdowns(t: u16, ps: Seq<AiInputs>, n: nat)
    requires
        t >= 1,
        n <= t,
        ps.len() >= t,
    ensures
        n < t ==> ai_run(EnemyState::Aim { timer: t }, ps, n) == (EnemyState::Aim {
            timer: (t - n) as u16,
        }),
        n == t ==> ai_next(ai_run(EnemyState::Aim { timer: t }, ps, (n - 1) as nat), ps[n - 1]).1.shoot,
        n == t ==> ai_run(EnemyState::Cooldown { timer: t }, ps, n) == EnemyState::Idle,
        n == t ==> ai_run(EnemyState::Staggered { timer: t }, ps, n) == EnemyState::Idle,
        n < t ==> ai_run(EnemyState::Cooldown { timer: t }, ps, n) == (EnemyState::Cooldown {
            timer: (t - n) as u16,
        }),
        n < t ==> ai_run(EnemyState::Staggered { timer: t }, ps, n) == (EnemyState::Staggered {
            timer: (t - n) as u16,
        }),
        ai_run(EnemyState::Dead, ps, n) == EnemyState::Dead,
    decreases n,
{
    if n > 0 {
        lemma_countdowns(t, ps, (n - 1) as nat);
    }
}


/// Engaging the player: an idle or patrolling enemy that sees the player
/// winds up its melee attack when the player is in reach, and otherwise, if
/// it is a shooter (`aim_ticks > 0`), stops and aims for `aim_ticks` ticks,
/// whatever its patrol direction or surroundings; it never fires or strikes
/// on the tick it notices the player. An enemy that does not see the player
/// neither aims nor winds up.
pub proof fn lemma_engages_player(s: EnemyState, p: AiInputs)
    requires
        s is Idle || s is Patrol,
    ensures
        p.sees_player && p.in_melee_reach ==> ai_next(s, p).0 == (EnemyState::MeleeWindup {
            timer: ENEMY_MELEE_WINDUP_TICKS,
        }) && ai_next(s, p).1.motion == AiMotion::Stop,
        p.sees_player && !p.in_melee_reach && p.aim_ticks > 0 ==> ai_next(s, p).0 == (
        EnemyState::Aim { timer: p.aim_ticks }) && ai_next(s, p).1.motion == AiMotion::Stop,
        !ai_next(s, p).1.shoot && !ai_next(s, p).1.begin_melee,
        !p.sees_player ==> !(ai_next(s, p).0 is Aim) && !(ai_next(s, p).0 is MeleeWindup),
        p.sees_player && !p.in_melee_reach && p.aim_ticks == 0 ==> !(ai_next(s, p).0 is Aim),
{
}

/// A patrolling shooter that spots the player fires exactly `aim_ticks`
/// ticks later, whatever it perceives meanwhile.
pub proof fn lemma_spotted_then_shoots(direction: i8, p: AiInputs, ps: Seq<AiInputs>)
    requires
        p.sees_player,
        !p.in_melee_reach,
        p.aim_ticks > 0,
        ps.len() >= p.aim_ticks,
    ensures
        ai_next(EnemyState::Patrol { direction }, p).0 == (EnemyState::Aim { timer: p.aim_ticks }),
        ai_next(
            ai_run(EnemyState::Aim { timer: p.aim_ticks }, ps, (p.aim_ticks - 1) as nat),
            ps[p.aim_ticks - 1],
        ).1.shoot,
{
    lemma_countdowns(p.aim_ticks, ps, p.aim_ticks as nat);
}


/// Patrolling: an enemy that does not see the player walks on in its patrol
/// direction, and at a ledge or wall it stops and turns around; an idle enemy
/// of a patrolling type starts patrolling the way it faces, and one of a
/// standing type stays idle.
pub proof fn lemma_patrol(s: EnemyState, p: AiInputs)
    requires
        !p.sees_player,
        ai_state_ok(s),
    ensures
        s matches EnemyState::Patrol { direction } ==> (if p.blocked_ahead {
            ai_next(s, p).0 == EnemyState::Patrol { direction: -direction as i8 }
                && ai_next(s, p).1.motion == AiMotion::Stop
        } else {
            ai_next(s, p).0 == s && ai_next(s, p).1.motion == AiMotion::Walk(direction)
        }),
        s is Idle && p.patrols ==> ai_next(s, p).0 == (EnemyState::Patrol {
            direction: if p.facing_right { 1i8 } else { -1i8 },
        }),
        s is Idle && !p.patrols ==> ai_next(s, p).0 == EnemyState::Idle,
{
}

/// A melee wind-up of `t` ticks starts the attack exactly on its last tick,
/// whatever the enemy perceives meanwhile, and not before.
pub proof fn lemma_windup(t: u16, ps: Seq<AiInputs>, n: nat)
    requires
        t >= 1,
        n < t,
        ps.len() >= t,
    ensures
        ai_run(EnemyState::MeleeWindup { timer: t }, ps, n) == (EnemyState::MeleeWindup {
            timer: (t - n) as u16,
        }),
        n + 1 < t ==> !ai_next(ai_run(EnemyState::MeleeWindup { timer: t }, ps, n), ps[n as int]).1.begin_melee,
        n + 1 == t ==> ai_next(ai_run(EnemyState::MeleeWindup { timer: t }, ps, n), ps[n as int]).1.begin_melee
            && ai_next(ai_run(EnemyState::MeleeWindup { timer: t }, ps, n), ps[n as int]).0
            == EnemyState::Attacking,
    decreases n,
{
    if n > 0 {
        lemma_windup(t, ps, (n - 1) as nat);
    }
}

} // verus!
