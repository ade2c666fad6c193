//! Journey's input actions and their default bindings.
use vstd::prelude::*;
use crate::engine::input::{
    button_slot, key_slot, lemma_input_map_tables, mouse_slot, GameAction, GamepadButton,
    InputMap, Key, MouseBinding,
};

verus! {

/// All input actions available in Journey.
#[derive(Debug, Clone, Copy, PartialEq, Eq, Hash, Structural)]
pub enum JourneyAction {
    MoveLeft,
    MoveRight,
    MoveUp,
    MoveDown,
    Jump,
    Attack,
    Block,
    Dash,
    Grapple,
}

/// The number of an action, in declaration order.
pub open spec fn journey_index(a: JourneyAction) -> nat {
    match a {
        JourneyAction::MoveLeft => 0,
        JourneyAction::MoveRight => 1,
        JourneyAction::MoveUp => 2,
        JourneyAction::MoveDown => 3,
        JourneyAction::Jump => 4,
        JourneyAction::Attack => 5,
        JourneyAction::Block => 6,
        JourneyAction::Dash => 7,
        JourneyAction::Grapple => 8,
    }
}

impl GameAction for JourneyAction {
    open spec fn action_count() -> nat {
        9
    }

    open spec fn action_index(self) -> nat {
        journey_index(self)
    }

    fn count() -> (r: usize) {
        9
    }

    fn index(&self) -> (r: usize) {
        match self {
            JourneyAction::MoveLeft => 0,
            JourneyAction::MoveRight => 1,
            JourneyAction::MoveUp => 2,
            JourneyAction::MoveDown => 3,
            JourneyAction::Jump => 4,
            JourneyAction::Attack => 5,
            JourneyAction::Block => 6,
            JourneyAction::Dash => 7,
            JourneyAction::Grapple => 8,
        }
    }

    fn from_index(index: usize) -> (r: Option<Self>) {
        match index {
            0 => Some(Self::MoveLeft),
            1 => Some(Self::MoveRight),
            2 => Some(Self::MoveUp),
            3 => Some(Self::MoveDown),
            4 => Some(Self::Jump),
            5 => Some(Self::Attack),
            6 => Some(Self::Block),
            7 => Some(Self::Dash),
            8 => Some(Self::Grapple),
            _ => None,
        }
    }

    fn move_negative_x() -> (r: Option<Self>)
        ensures
            r == Some(JourneyAction::MoveLeft),
    {
        Some(Self::MoveLeft)
    }

    fn move_positive_x() -> (r: Option<Self>)
        ensures
            r == Some(JourneyAction::MoveRight),
    {
        Some(Self::MoveRight)
    }

    fn move_negative_y() -> (r: Option<Self>)
        ensures
            r == Some(JourneyAction::MoveUp),
    {
        Some(Self::MoveUp)
    }

    fn move_positive_y() -> (r: Option<Self>)
        ensures
            r == Some(JourneyAction::MoveDown),
    {
        Some(Self::MoveDown)
    }
}

/// Numbering is a bijection between the actions and `0..9`: the action with a
/// number has that number, and every action's number gives it back.
pub proof fn lemma_journey_index_roundtrip(a: JourneyAction, b: JourneyAction)
    ensures
        journey_index(a) < 9,
        journey_index(a) == journey_index(b) ==> a == b,
{
}

/// The default keyboard binding of a key.
pub open spec fn default_key_binding(k: Key) -> Option<JourneyAction> {
    match k {
        Key::A | Key::Left => Some(JourneyAction::MoveLeft),
        Key::D | Key::Right => Some(JourneyAction::MoveRight),
        Key::W | Key::Up => Some(JourneyAction::MoveUp),
        Key::S | Key::Down => Some(JourneyAction::MoveDown),
        Key::Space => Some(JourneyAction::Jump),
        Key::Shift => Some(JourneyAction::Dash),
        Key::Alt => Some(JourneyAction::Grapple),
        Key::F12 | Key::Escape => None,
    }
}

/// The default binding of a mouse button.
pub open spec fn default_mouse_binding(b: MouseBinding) -> Option<JourneyAction> {
    match b {
        MouseBinding::Left => Some(JourneyAction::Attack),
        MouseBinding::Right => Some(JourneyAction::Block),
        MouseBinding::Middle => None,
    }
}

/// The default binding of a gamepad button, as the controller list shows it:
/// A/Cross jumps, B/Circle dashes, X/Square attacks, Y/Triangle parries and
/// RT/R2 grapples; RB parries and LT/L2 grapples too, and the D-pad moves.
pub open spec fn default_button_binding(b: GamepadButton) -> Option<JourneyAction> {
    match b {
        GamepadButton::South => Some(JourneyAction::Jump),
        GamepadButton::East => Some(JourneyAction::Dash),
        GamepadButton::West => Some(JourneyAction::Attack),
        GamepadButton::North => Some(JourneyAction::Block),
        GamepadButton::RightTrigger => Some(JourneyAction::Block),
        GamepadButton::RightTrigger2 => Some(JourneyAction::Grapple),
        GamepadButton::LeftTrigger2 => Some(JourneyAction::Grapple),
        GamepadButton::DPadUp => Some(JourneyAction::MoveUp),
        GamepadButton::DPadDown => Some(JourneyAction::MoveDown),
        GamepadButton::DPadLeft => Some(JourneyAction::MoveLeft),
        GamepadButton::DPadRight => Some(JourneyAction::MoveRight),
        _ => None,
    }
}

/// `old` with the default binding laid over it.
pub open spec fn with_default<T>(d: Option<T>, old: Option<T>) -> Option<T> {
    match d {
        Some(a) => Some(a),
        None => old,
    }
}

/// Registers Journey's default keyboard, mouse and gamepad bindings; inputs
/// without a default keep their previous binding.
pub fn setup_default_bindings(map: &mut InputMap<JourneyAction>)
    ensures
        forall|k: Key|
            #[trigger] final(map)@.keyboard[key_slot(k)] == with_default(
                default_key_binding(k),
                old(map)@.keyboard[key_slot(k)],
            ),
        final(map)@.keyboard[key_slot(Key::A)] == Some(JourneyAction::MoveLeft),
        final(map)@.keyboard[key_slot(Key::Left)] == Some(JourneyAction::MoveLeft),
        final(map)@.keyboard[key_slot(Key::D)] == Some(JourneyAction::MoveRight),
        final(map)@.keyboard[key_slot(Key::Right)] == Some(JourneyAction::MoveRight),
        final(map)@.keyboard[key_slot(Key::W)] == Some(JourneyAction::MoveUp),
        final(map)@.keyboard[key_slot(Key::Up)] == Some(JourneyAction::MoveUp),
        final(map)@.keyboard[key_slot(Key::S)] == Some(JourneyAction::MoveDown),
        final(map)@.keyboard[key_slot(Key::Down)] == Some(JourneyAction::MoveDown),
        final(map)@.keyboard[key_slot(Key::Space)] == Some(JourneyAction::Jump),
        final(map)@.gamepad[button_slot(GamepadButton::DPadLeft)] == Some(JourneyAction::MoveLeft),
        final(map)@.gamepad[button_slot(GamepadButton::DPadRight)] == Some(JourneyAction::MoveRight),
        forall|b: MouseBinding|
            #[trigger] final(map)@.mouse[mouse_slot(b)] == with_default(
                default_mouse_binding(b),
                old(map)@.mouse[mouse_slot(b)],
            ),
        forall|b: GamepadButton|
            #[trigger] final(map)@.gamepad[button_slot(b)] == with_default(
                default_button_binding(b),
                old(map)@.gamepad[button_slot(b)],
            ),
{
    proof {
        lemma_input_map_tables(*map);
    }
    map.bind_key(Key::A, JourneyAction::MoveLeft);
    map.bind_key(Key::Left, JourneyAction::MoveLeft);
    map.bind_key(Key::D, JourneyAction::MoveRight);
    map.bind_key(Key::Right, JourneyAction::MoveRight);
    map.bind_key(Key::W, JourneyAction::MoveUp);
    map.bind_key(Key::Up, JourneyAction::MoveUp);
    map.bind_key(Key::S, JourneyAction::MoveDown);
    map.bind_key(Key::Down, JourneyAction::MoveDown);
    map.bind_key(Key::Space, JourneyAction::Jump);
    map.bind_key(Key::Shift, JourneyAction::Dash);
    map.bind_key(Key::Alt, JourneyAction::Grapple);

    map.bind_mouse(MouseBinding::Left, JourneyAction::Attack);
    map.bind_mouse(MouseBinding::Right, JourneyAction::Block);

    map.bind_button(GamepadButton::South, JourneyAction::Jump);
    map.bind_button(GamepadButton::East, JourneyAction::Dash);
    map.bind_button(GamepadButton::West, JourneyAction::Attack);
    map.bind_button(GamepadButton::North, JourneyAction::Block);
    map.bind_button(GamepadButton::RightTrigger, JourneyAction::Block);
    map.bind_button(GamepadButton::RightTrigger2, JourneyAction::Grapple);
    map.bind_button(GamepadButton::LeftTrigger2, JourneyAction::Grapple);
    map.bind_button(GamepadButton::DPadUp, JourneyAction::MoveUp);
    map.bind_button(GamepadButton::DPadDown, JourneyAction::MoveDown);
    map.bind_button(GamepadButton::DPadLeft, JourneyAction::MoveLeft);
    map.bind_button(GamepadButton::DPadRight, JourneyAction::MoveRight);
}


/// The default movement keys: exactly A and Left move left, exactly D and
/// Right move right, exactly W and Up move up, exactly S and Down move down,
/// so the two keys of each hand point the same way and opposite keys point
/// opposite ways; exactly Space jumps. On the gamepad the D-pad moves in its
/// own four directions, and no other button moves; the left mouse button
/// attacks and the right one blocks.
pub proof fn lemma_default_movement(k: Key, b: GamepadButton, m: MouseBinding)
    ensures
        default_mouse_binding(m) == Some(JourneyAction::Attack) <==> m == MouseBinding::Left,
        default_mouse_binding(m) == Some(JourneyAction::Block) <==> m == MouseBinding::Right,
        default_key_binding(k) == Some(JourneyAction::MoveLeft) <==> (k == Key::A || k == Key::Left),
        default_key_binding(k) == Some(JourneyAction::MoveRight) <==> (k == Key::D || k
            == Key::Right),
        default_key_binding(k) == Some(JourneyAction::MoveUp) <==> (k == Key::W || k == Key::Up),
        default_key_binding(k) == Some(JourneyAction::MoveDown) <==> (k == Key::S || k
            == Key::Down),
        default_key_binding(k) == Some(JourneyAction::Jump) <==> k == Key::Space,
        default_button_binding(b) == Some(JourneyAction::MoveLeft) <==> b
            == GamepadButton::DPadLeft,
        default_button_binding(b) == Some(JourneyAction::MoveRight) <==> b
            == GamepadButton::DPadRight,
        default_button_binding(b) == Some(JourneyAction::MoveUp) <==> b == GamepadButton::DPadUp,
        default_button_binding(b) == Some(JourneyAction::MoveDown) <==> b
            == GamepadButton::DPadDown,
{
}

} // verus!
