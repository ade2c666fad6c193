//! Player states and the tick-level decisions around them that do not depend
//! on positions or velocities.
use vstd::prelude::*;
use crate::game::combat::moves::MoveId;

verus! {

/// The primary driver of player movement behaviour and animation.
#[derive(PartialEq, Clone, Copy, Debug, Eq, Structural)]
pub enum PlayerState {
    Idle,
    Run,
    Jump,
    Fall,
    Dash,
    AirDash,
    Parry,
    AttackHorizontal,
    AttackUp,
    AttackDown,
    WallGrab,
    WallSlide,
    GrapplePull,
    GrappleSlingshot,
    Death,
}

/// Ticks between dashes.
pub const DASH_COOLDOWN_TICKS: u16 = 10;

/// States whose timing is driven by the combat machine (grapple pull is not:
/// it lasts until the player arrives).
pub open spec fn spec_is_combat_fsm_state(s: PlayerState) -> bool {
    s is Dash || s is AirDash || s is Parry || s is AttackHorizontal || s is AttackUp
        || s is AttackDown
}

/// States in which buffered combat input may start a move: not while dashing,
/// on a wall or grappling.
pub open spec fn spec_accepts_combat_input(s: PlayerState) -> bool {
    !(s is Dash || s is AirDash || s is WallSlide || s is WallGrab || s is GrapplePull
        || s is GrappleSlingshot)
}

pub fn is_combat_fsm_state(s: PlayerState) -> (r: bool)
    ensures
        r == spec_is_combat_fsm_state(s),
{
    match s {
        PlayerState::Dash | PlayerState::AirDash | PlayerState::Parry
        | PlayerState::AttackHorizontal | PlayerState::AttackUp | PlayerState::AttackDown => true,
        _ => false,
    }
}

pub fn accepts_combat_input(s: PlayerState) -> (r: bool)
    ensures
        r == spec_accepts_combat_input(s),
{
    match s {
        PlayerState::Dash | PlayerState::AirDash | PlayerState::WallSlide | PlayerState::WallGrab
        | PlayerState::GrapplePull | PlayerState::GrappleSlingshot => false,
        _ => true,
    }
}

/// A dash is allowed once its cooldown has run out, at most once per airtime,
/// and not while dead or already dashing.
pub fn can_dash(state: PlayerState, dash_cooldown_timer: u16, grounded: bool, has_air_dashed: bool) -> (r: bool)
    ensures
        r == (dash_cooldown_timer == 0 && (grounded || !has_air_dashed) && !(state is Death
            || state is Dash || state is AirDash)),
{
    if dash_cooldown_timer > 0 {
        return false;
    }
    if !grounded && has_air_dashed {
        return false;
    }
    match state {
        PlayerState::Death | PlayerState::Dash | PlayerState::AirDash => false,
        _ => true,
    }
}

/// The attack an attack press queues: aiming up attacks up, aiming down in the
/// air attacks down, anything else attacks horizontally.
pub fn attack_for_aim(aim_up: bool, aim_down: bool, grounded: bool) -> (r: MoveId)
    ensures
        r == (if aim_up {
            MoveId::AttackUp
        } else if aim_down && !grounded {
            MoveId::AttackDown
        } else {
            MoveId::AttackHorizontal
        }),
{
    if aim_up {
        MoveId::AttackUp
    } else if aim_down && !grounded {
        MoveId::AttackDown
    } else {
        MoveId::AttackHorizontal
    }
}

/// The player state a move puts the player in (a dash in the air is an air dash).
pub fn state_for_move(m: MoveId, grounded: bool) -> (r: PlayerState)
    ensures
        r == (match m {
            MoveId::Dash => if grounded { PlayerState::Dash } else { PlayerState::AirDash },
            MoveId::Parry => PlayerState::Parry,
            MoveId::AttackHorizontal => PlayerState::AttackHorizontal,
            MoveId::AttackUp => PlayerState::AttackUp,
            MoveId::AttackDown => PlayerState::AttackDown,
            MoveId::Grapple => PlayerState::GrapplePull,
        }),
        spec_is_combat_fsm_state(r) <==> !(m is Grapple),
{
    match m {
        MoveId::Dash => if grounded { PlayerState::Dash } else { PlayerState::AirDash },
        MoveId::Parry => PlayerState::Parry,
        MoveId::AttackHorizontal => PlayerState::AttackHorizontal,
        MoveId::AttackUp => PlayerState::AttackUp,
        MoveId::AttackDown => PlayerState::AttackDown,
        MoveId::Grapple => PlayerState::GrapplePull,
    }
}

/// The state after a move ends: standing on the ground, or falling.
pub fn state_after_move(grounded: bool) -> (r: PlayerState)
    ensures
        r == (if grounded { PlayerState::Idle } else { PlayerState::Fall }),
{
    if grounded {
        PlayerState::Idle
    } else {
        PlayerState::Fall
    }
}

/// What the physics step reports about the player, reduced to the facts the
/// state transitions read.
#[derive(Debug, Clone, Copy, PartialEq, Eq, Structural)]
pub struct Contacts {
    pub was_grounded: bool,
    pub grounded: bool,
    pub touching_wall_left: bool,
    pub touching_wall_right: bool,
    /// The vertical velocity is zero or downward.
    pub not_rising: bool,
    /// The horizontal speed is above the standstill threshold.
    pub moving: bool,
    /// The player's bottom edge lies below the bottom of the wall it holds.
    pub below_grabbed_wall: bool,
}

/// The wall and air bookkeeping of the player. Directions are -1 (left),
/// 1 (right) or 0 (none).
#[derive(Debug, Clone, Copy, PartialEq, Eq, Structural)]
pub struct WallTracking {
    pub has_air_dashed: bool,
    pub last_wall_jump_dir: i8,
    pub wall_direction: i8,
    pub wall_grab_timer: u16,
    pub wall_jump_lock_timer: u16,
    pub wall_detach_cooldown: u16,
    pub wall_contact_lost_ticks: u16,
}

/// What else changes with a post-physics transition.
#[derive(Debug, Clone, Copy, PartialEq, Eq, Structural)]
pub enum WallEffect {
    /// Nothing beyond the state.
    Stay,
    /// The player grabbed a wall: remember its bottom, play the grab animation.
    Grab,
    /// The player left the wall it held: forget its bottom, play the fall animation.
    Release,
    /// The player landed while on a wall: play the idle animation.
    Land,
}

/// Ticks during which a released wall cannot be grabbed again.
pub const WALL_DETACH_COOLDOWN_TICKS: u16 = 8;

/// The bookkeeping after landing and wall contact, before any state change:
/// landing re-arms the air dash and clears wall-jump locks; touching a wall
/// re-arms the air dash and forgets a wall jump off the other side.
pub open spec fn touch_update(w: WallTracking, c: Contacts) -> WallTracking {
    let landed = if !c.was_grounded && c.grounded {
        WallTracking {
            has_air_dashed: false,
            last_wall_jump_dir: 0i8,
            wall_jump_lock_timer: 0,
            wall_detach_cooldown: 0,
            ..w
        }
    } else {
        w
    };
    if c.touching_wall_left || c.touching_wall_right {
        let side: i8 = if c.touching_wall_left { -1i8 } else { 1i8 };
        WallTracking {
            has_air_dashed: false,
            last_wall_jump_dir: if landed.last_wall_jump_dir != 0 && side != landed.last_wall_jump_dir {
                0i8
            } else {
                landed.last_wall_jump_dir
            },
            ..landed
        }
    } else {
        landed
    }
}

/// The state, bookkeeping and effect after physics. In order: an airborne
/// player that is not rising, touches a wall, has no detach cooldown and is
/// jumping or falling grabs the wall; a player on a wall lets go when it slid
/// below the wall's bottom or lost contact (with a detach cooldown), and
/// stands when it landed; otherwise a grounded, jumping or falling player
/// runs, idles, jumps or falls by its motion.
pub open spec fn post_physics(
    s: PlayerState,
    w0: WallTracking,
    c: Contacts,
    grab_timeout: u16,
) -> (PlayerState, WallTracking, WallEffect) {
    let w = touch_update(w0, c);
    let on_wall = c.touching_wall_left || c.touching_wall_right;
    if !c.grounded && c.not_rising && on_wall && w.wall_detach_cooldown == 0 && (s is Jump
        || s is Fall) {
        (
            PlayerState::WallGrab,
            WallTracking {
                wall_direction: if c.touching_wall_left { -1i8 } else { 1i8 },
                wall_grab_timer: grab_timeout,
                wall_jump_lock_timer: 0,
                has_air_dashed: false,
                ..w
            },
            WallEffect::Grab,
        )
    } else if (s is WallSlide || s is WallGrab) && c.below_grabbed_wall {
        (
            PlayerState::Fall,
            WallTracking {
                wall_contact_lost_ticks: 0,
                wall_detach_cooldown: WALL_DETACH_COOLDOWN_TICKS,
                ..w
            },
            WallEffect::Release,
        )
    } else if (s is WallSlide || s is WallGrab) && c.grounded {
        (PlayerState::Idle, WallTracking { wall_contact_lost_ticks: 0, ..w }, WallEffect::Land)
    } else if (s is WallSlide || s is WallGrab) && !(if w.wall_direction < 0 {
        c.touching_wall_left
    } else {
        c.touching_wall_right
    }) {
        (
            PlayerState::Fall,
            WallTracking {
                wall_contact_lost_ticks: 0,
                wall_detach_cooldown: WALL_DETACH_COOLDOWN_TICKS,
                ..w
            },
            WallEffect::Release,
        )
    } else if s is WallSlide || s is WallGrab {
        (s, WallTracking { wall_contact_lost_ticks: 0, ..w }, WallEffect::Stay)
    } else if s is Idle || s is Run || s is Jump || s is Fall {
        let next = if c.grounded {
            if c.moving { PlayerState::Run } else { PlayerState::Idle }
        } else if !c.not_rising {
            PlayerState::Jump
        } else {
            PlayerState::Fall
        };
        (next, w, WallEffect::Stay)
    } else {
        (s, w, WallEffect::Stay)
    }
}

/// Applies the post-physics transitions to the player's state and wall
/// bookkeeping and returns the accompanying effect.
pub fn post_physics_transitions(
    state: &mut PlayerState,
    wall: &mut WallTracking,
    contacts: Contacts,
    grab_timeout: u16,
) -> (r: WallEffect)
    ensures
        (*final(state), *final(wall), r) == post_physics(*old(state), *old(wall), contacts, grab_timeout),
        (*old(state) is WallGrab || *old(state) is WallSlide) && !contacts.grounded
            && !contacts.below_grabbed_wall && touches_side(contacts, old(wall).wall_direction)
            ==> *final(state) == *old(state) && r == WallEffect::Stay
            && final(wall).wall_detach_cooldown == old(wall).wall_detach_cooldown,
{
    if !contacts.was_grounded && contacts.grounded {
        wall.has_air_dashed = false;
        wall.last_wall_jump_dir = 0;
        wall.wall_jump_lock_timer = 0;
        wall.wall_detach_cooldown = 0;
    }
    if contacts.touching_wall_left || contacts.touching_wall_right {
        wall.has_air_dashed = false;
        let side: i8 = if contacts.touching_wall_left { -1 } else { 1 };
        if wall.last_wall_jump_dir != 0 && side != wall.last_wall_jump_dir {
            wall.last_wall_jump_dir = 0;
        }
    }
    let on_wall = contacts.touching_wall_left || contacts.touching_wall_right;
    let jumping_or_falling = match *state {
        PlayerState::Jump | PlayerState::Fall => true,
        _ => false,
    };
    if !contacts.grounded && contacts.not_rising && on_wall && wall.wall_detach_cooldown == 0
        && jumping_or_falling {
        wall.wall_direction = if contacts.touching_wall_left { -1 } else { 1 };
        wall.wall_grab_timer = grab_timeout;
        wall.wall_jump_lock_timer = 0;
        wall.has_air_dashed = false;
        *state = PlayerState::WallGrab;
        return WallEffect::Grab;
    }
    let on_held_wall = match *state {
        PlayerState::WallSlide | PlayerState::WallGrab => true,
        _ => false,
    };
    if on_held_wall {
        if contacts.below_grabbed_wall {
            wall.wall_contact_lost_ticks = 0;
            wall.wall_detach_cooldown = WALL_DETACH_COOLDOWN_TICKS;
            *state = PlayerState::Fall;
            return WallEffect::Release;
        }
        let still_touching = if wall.wall_direction < 0 {
            contacts.touching_wall_left
        } else {
            contacts.touching_wall_right
        };
        if contacts.grounded {
            wall.wall_contact_lost_ticks = 0;
            *state = PlayerState::Idle;
            return WallEffect::Land;
        }
        // Losing contact for a single tick already lets go.
        wall.wall_contact_lost_ticks = 0;
        if !still_touching {
            wall.wall_detach_cooldown = WALL_DETACH_COOLDOWN_TICKS;
            *state = PlayerState::Fall;
            return WallEffect::Release;
        }
        return WallEffect::Stay;
    }
    match *state {
        PlayerState::Idle | PlayerState::Run | PlayerState::Jump | PlayerState::Fall => {
            *state = if contacts.grounded {
                if contacts.moving {
                    PlayerState::Run
                } else {
                    PlayerState::Idle
                }
            } else if !contacts.not_rising {
                PlayerState::Jump
            } else {
                PlayerState::Fall
            };
        },
        _ => {},
    }
    WallEffect::Stay
}


/// Whether the player touches the wall on the side `dir` points to
/// (-1 left, 1 right).
pub open spec fn touches_side(c: Contacts, dir: i8) -> bool {
    (dir < 0 && c.touching_wall_left) || (dir > 0 && c.touching_wall_right)
}

/// Holding a wall: a player grabbing or sliding on a wall that is airborne
/// and not below the wall's bottom keeps its state, with effect `Stay`, as
/// long as it still touches the wall on its side (left for direction -1,
/// right for 1); its wall direction and detach cooldown are unchanged. If it
/// no longer touches that side it lets go: it falls, with effect `Release`,
/// and cannot grab again for `WALL_DETACH_COOLDOWN_TICKS` ticks.
pub proof fn lemma_wall_hold(s: PlayerState, w: WallTracking, c: Contacts, grab_timeout: u16)
    requires
        s is WallGrab || s is WallSlide,
        !c.grounded,
        !c.below_grabbed_wall,
        w.wall_direction == -1 || w.wall_direction == 1,
    ensures
        touches_side(c, w.wall_direction) ==> {
            let (s2, w2, e) = post_physics(s, w, c, grab_timeout);
            &&& s2 == s
            &&& e == WallEffect::Stay
            &&& w2.wall_direction == w.wall_direction
            &&& w2.wall_detach_cooldown == w.wall_detach_cooldown
        },
        !touches_side(c, w.wall_direction) ==> {
            let (s2, w2, e) = post_physics(s, w, c, grab_timeout);
            &&& s2 == PlayerState::Fall
            &&& e == WallEffect::Release
            &&& w2.wall_detach_cooldown == WALL_DETACH_COOLDOWN_TICKS
        },
{
}

/// Landing from a wall: a player grabbing or sliding on a wall that lands
/// stands idle (unless it slid below the wall's bottom first, which releases).
pub proof fn lemma_wall_landing(s: PlayerState, w: WallTracking, c: Contacts, grab_timeout: u16)
    requires
        s is WallGrab || s is WallSlide,
        c.grounded,
        !c.below_grabbed_wall,
    ensures
        post_physics(s, w, c, grab_timeout).0 == PlayerState::Idle,
        post_physics(s, w, c, grab_timeout).2 == WallEffect::Land,
{
}


/// Grabbing and moving: an airborne player that is jumping or falling, not
/// rising, touching a wall and past its detach cooldown grabs that wall,
/// facing its side, with the full grab timer. Otherwise a player on the
/// ground runs when moving and idles when still, and an airborne one jumps
/// while rising and falls when not.
pub proof fn lemma_grab_and_move(s: PlayerState, w: WallTracking, c: Contacts, grab_timeout: u16)
    requires
        s is Jump || s is Fall || s is Idle || s is Run,
    ensures
        ({
            let (s2, w2, e) = post_physics(s, w, c, grab_timeout);
            let can_grab = (s is Jump || s is Fall) && !c.grounded && c.not_rising
                && (c.touching_wall_left || c.touching_wall_right)
                && w.wall_detach_cooldown == 0;
            &&& can_grab ==> s2 == PlayerState::WallGrab && e == WallEffect::Grab
                && w2.wall_grab_timer == grab_timeout && w2.wall_direction == (if c.touching_wall_left {
                -1i8
            } else {
                1i8
            })
            &&& !can_grab && c.grounded ==> s2 == (if c.moving {
                PlayerState::Run
            } else {
                PlayerState::Idle
            })
            &&& !can_grab && !c.grounded ==> s2 == (if c.not_rising {
                PlayerState::Fall
            } else {
                PlayerState::Jump
            })
            &&& !can_grab ==> e == WallEffect::Stay
        }),
{
}

} // verus!
