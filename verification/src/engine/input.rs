//! Action-based input: games name their actions, and an input map binds
//! keyboard keys, mouse buttons and gamepad buttons to them.
use vstd::prelude::*;

verus! {

/// Implemented by a game's action enum: actions are numbered `0..count()`.
pub trait GameAction: Copy + Sized {
    /// The number of actions.
    spec fn action_count() -> nat;

    /// The number of this action.
    spec fn action_index(self) -> nat;

    /// Total number of action variants.
    fn count() -> (r: usize)
        ensures
            r == Self::action_count(),
    ;

    /// Unique index for this action variant, below `count()`.
    fn index(&self) -> (r: usize)
        ensures
            r == self.action_index(),
            r < Self::action_count(),
    ;

    /// The action numbered `index`; `None` for indices from `count()` on.
    fn from_index(index: usize) -> (r: Option<Self>)
        ensures
            r matches Some(a) ==> a.action_index() == index,
            r is Some <==> index < Self::action_count(),
    ;

    /// The action that moves left, if the game has one.
    fn move_negative_x() -> (r: Option<Self>)
        default_ensures
            r is None,
    {
        None
    }

    /// The action that moves right, if the game has one.
    fn move_positive_x() -> (r: Option<Self>)
        default_ensures
            r is None,
    {
        None
    }

    /// The action that moves up, if the game has one.
    fn move_negative_y() -> (r: Option<Self>)
        default_ensures
            r is None,
    {
        None
    }

    /// The action that moves down, if the game has one.
    fn move_positive_y() -> (r: Option<Self>)
        default_ensures
            r is None,
    {
        None
    }
}

/// Mouse buttons that can be bound to game actions.
#[derive(Debug, Clone, Copy, PartialEq, Eq, Hash, Structural)]
pub enum MouseBinding {
    Left,
    Right,
    Middle,
}

/// Keyboard keys the engine tracks.
#[derive(Debug, Clone, Copy, PartialEq, Eq, Hash, Structural)]
pub enum Key {
    W,
    A,
    S,
    D,
    Space,
    Shift,
    Alt,
    Up,
    Down,
    Left,
    Right,
    F12,
    Escape,
}

/// Gamepad buttons, in the gamepad library's order.
#[derive(Debug, Clone, Copy, PartialEq, Eq, Hash, Structural)]
pub enum GamepadButton {
    South,
    East,
    North,
    West,
    C,
    Z,
    LeftTrigger,
    LeftTrigger2,
    RightTrigger,
    RightTrigger2,
    Select,
    Start,
    Mode,
    LeftThumb,
    RightThumb,
    DPadUp,
    DPadDown,
    DPadLeft,
    DPadRight,
    Unknown,
}

/// Number of keyboard keys.
pub const KEY_COUNT: usize = 13;

/// Number of mouse buttons.
pub const MOUSE_COUNT: usize = 3;

/// Number of gamepad buttons.
pub const BUTTON_COUNT: usize = 20;

/// The slot of a key, in declaration order.
pub open spec fn key_slot(k: Key) -> int {
    match k {
        Key::W => 0,
        Key::A => 1,
        Key::S => 2,
        Key::D => 3,
        Key::Space => 4,
        Key::Shift => 5,
        Key::Alt => 6,
        Key::Up => 7,
        Key::Down => 8,
        Key::Left => 9,
        Key::Right => 10,
        Key::F12 => 11,
        Key::Escape => 12,
    }
}

/// The slot of a mouse button: left 0, right 1, middle 2.
pub open spec fn mouse_slot(b: MouseBinding) -> int {
    match b {
        MouseBinding::Left => 0,
        MouseBinding::Right => 1,
        MouseBinding::Middle => 2,
    }
}

/// The slot of a gamepad button, in declaration order.
pub open spec fn button_slot(b: GamepadButton) -> int {
    match b {
        GamepadButton::South => 0,
        GamepadButton::East => 1,
        GamepadButton::North => 2,
        GamepadButton::West => 3,
        GamepadButton::C => 4,
        GamepadButton::Z => 5,
        GamepadButton::LeftTrigger => 6,
        GamepadButton::LeftTrigger2 => 7,
        GamepadButton::RightTrigger => 8,
        GamepadButton::RightTrigger2 => 9,
        GamepadButton::Select => 10,
        GamepadButton::Start => 11,
        GamepadButton::Mode => 12,
        GamepadButton::LeftThumb => 13,
        GamepadButton::RightThumb => 14,
        GamepadButton::DPadUp => 15,
        GamepadButton::DPadDown => 16,
        GamepadButton::DPadLeft => 17,
        GamepadButton::DPadRight => 18,
        GamepadButton::Unknown => 19,
    }
}

impl Key {
    /// The key's slot in per-key tables.
    pub fn slot(self) -> (r: usize)
        ensures
            r == key_slot(self),
            r < KEY_COUNT,
    {
        match self {
            Key::W => 0,
            Key::A => 1,
            Key::S => 2,
            Key::D => 3,
            Key::Space => 4,
            Key::Shift => 5,
            Key::Alt => 6,
            Key::Up => 7,
            Key::Down => 8,
            Key::Left => 9,
            Key::Right => 10,
            Key::F12 => 11,
            Key::Escape => 12,
        }
    }
}

impl MouseBinding {
    /// The button's slot in per-button tables.
    pub fn slot(self) -> (r: usize)
        ensures
            r == mouse_slot(self),
            r < MOUSE_COUNT,
    {
        match self {
            MouseBinding::Left => 0,
            MouseBinding::Right => 1,
            MouseBinding::Middle => 2,
        }
    }
}

impl GamepadButton {
    /// The button's slot in per-button tables.
    pub fn slot(self) -> (r: usize)
        ensures
            r == button_slot(self),
            r < BUTTON_COUNT,
    {
        match self {
            GamepadButton::South => 0,
            GamepadButton::East => 1,
            GamepadButton::North => 2,
            GamepadButton::West => 3,
            GamepadButton::C => 4,
            GamepadButton::Z => 5,
            GamepadButton::LeftTrigger => 6,
            GamepadButton::LeftTrigger2 => 7,
            GamepadButton::RightTrigger => 8,
            GamepadButton::RightTrigger2 => 9,
            GamepadButton::Select => 10,
            GamepadButton::Start => 11,
            GamepadButton::Mode => 12,
            GamepadButton::LeftThumb => 13,
            GamepadButton::RightThumb => 14,
            GamepadButton::DPadUp => 15,
            GamepadButton::DPadDown => 16,
            GamepadButton::DPadLeft => 17,
            GamepadButton::DPadRight => 18,
            GamepadButton::Unknown => 19,
        }
    }
}

/// The bindings, one optional action per key, mouse button and gamepad button.
pub struct InputMapView<A> {
    pub keyboard: Seq<Option<A>>,
    pub mouse: Seq<Option<A>>,
    pub gamepad: Seq<Option<A>>,
}

/// Bindings from hardware inputs to game actions; binding an input again
/// replaces its action.
pub struct InputMap<A: GameAction> {
    keyboard_map: [Option<A>; 13],
    mouse_map: [Option<A>; 3],
    gamepad_map: [Option<A>; 20],
}

impl<A: GameAction> View for InputMap<A> {
    type V = InputMapView<A>;

    closed spec fn view(&self) -> InputMapView<A> {
        InputMapView {
            keyboard: self.keyboard_map@,
            mouse: self.mouse_map@,
            gamepad: self.gamepad_map@,
        }
    }
}

/// A map has one binding slot per key, mouse button and gamepad button.
pub proof fn lemma_input_map_tables<A: GameAction>(map: InputMap<A>)
    ensures
        map@.keyboard.len() == KEY_COUNT,
        map@.mouse.len() == MOUSE_COUNT,
        map@.gamepad.len() == BUTTON_COUNT,
{
}

impl<A: GameAction> InputMap<A> {
    /// A map with nothing bound.
    pub fn new() -> (r: Self)
        ensures
            forall|i: int| 0 <= i < KEY_COUNT ==> (#[trigger] r@.keyboard[i]) is None,
            forall|i: int| 0 <= i < MOUSE_COUNT ==> (#[trigger] r@.mouse[i]) is None,
            forall|i: int| 0 <= i < BUTTON_COUNT ==> (#[trigger] r@.gamepad[i]) is None,
    {
        Self { keyboard_map: [None; 13], mouse_map: [None; 3], gamepad_map: [None; 20] }
    }

    /// Binds `key` to `action`.
    pub fn bind_key(&mut self, key: Key, action: A)
        ensures
            final(self)@.keyboard == old(self)@.keyboard.update(key_slot(key), Some(action)),
            final(self)@.mouse == old(self)@.mouse,
            final(self)@.gamepad == old(self)@.gamepad,
    {
        let i = key.slot();
        self.keyboard_map[i] = Some(action);
    }

    /// Binds `button` to `action`.
    pub fn bind_mouse(&mut self, button: MouseBinding, action: A)
        ensures
            final(self)@.keyboard == old(self)@.keyboard,
            final(self)@.mouse == old(self)@.mouse.update(mouse_slot(button), Some(action)),
            final(self)@.gamepad == old(self)@.gamepad,
    {
        let i = button.slot();
        self.mouse_map[i] = Some(action);
    }

    /// Binds gamepad `button` to `action`.
    pub fn bind_button(&mut self, button: GamepadButton, action: A)
        ensures
            final(self)@.keyboard == old(self)@.keyboard,
            final(self)@.mouse == old(self)@.mouse,
            final(self)@.gamepad == old(self)@.gamepad.update(button_slot(button), Some(action)),
    {
        let i = button.slot();
        self.gamepad_map[i] = Some(action);
    }

    /// The action bound to `key`, if any.
    pub fn action_for_key(&self, key: Key) -> (r: Option<A>)
        ensures
            r == self@.keyboard[key_slot(key)],
    {
        self.keyboard_map[key.slot()]
    }

    /// The action bound to mouse `button`, if any.
    pub fn action_for_mouse(&self, button: MouseBinding) -> (r: Option<A>)
        ensures
            r == self@.mouse[mouse_slot(button)],
    {
        self.mouse_map[button.slot()]
    }

    /// The action bound to gamepad `button`, if any.
    pub fn get_action_for_button(&self, button: GamepadButton) -> (r: Option<A>)
        ensures
            r == self@.gamepad[button_slot(button)],
    {
        self.gamepad_map[button.slot()]
    }
}

/// Whether some held key among the first `n` is bound to action number `i`.
pub open spec fn key_drives<A: GameAction>(m: InputMapView<A>, keys: Seq<bool>, i: int, n: int) -> bool {
    exists|k: int|
        0 <= k < n && #[trigger] keys[k] && (m.keyboard[k] matches Some(a) && a.action_index()
            == i)
}

/// Whether some held mouse button among the first `n` is bound to action number `i`.
pub open spec fn mouse_drives<A: GameAction>(m: InputMapView<A>, mouse: Seq<bool>, i: int, n: int) -> bool {
    exists|b: int|
        0 <= b < n && #[trigger] mouse[b] && (m.mouse[b] matches Some(a) && a.action_index()
            == i)
}

/// Whether action number `i` is held: through a held key or mouse button bound to
/// it, or through its held gamepad state.
pub open spec fn action_held<A: GameAction>(
    m: InputMapView<A>,
    keys: Seq<bool>,
    mouse: Seq<bool>,
    pad: Seq<bool>,
    i: int,
) -> bool {
    key_drives(m, keys, i, KEY_COUNT as int) || mouse_drives(m, mouse, i, MOUSE_COUNT as int)
        || pad[i]
}

/// Rebuilds the held state of every action from the raw key, mouse button and
/// per-action gamepad state.
pub fn rebuild_actions<A: GameAction>(
    map: &InputMap<A>,
    keys: &[bool; 13],
    mouse_buttons: &[bool; 3],
    gamepad_buttons: &[bool],
    actions: &mut [bool],
)
    requires
        old(actions)@.len() == A::action_count(),
        gamepad_buttons@.len() == A::action_count(),
    ensures
        final(actions)@.len() == A::action_count(),
        forall|i: int|
            0 <= i < A::action_count() ==> #[trigger] final(actions)@[i] == action_held(
                map@,
                keys@,
                mouse_buttons@,
                gamepad_buttons@,
                i,
            ),
{
    let n = actions.len();
    let mut i: usize = 0;
    while i < n
        invariant
            i <= n,
            n == actions@.len(),
            n == A::action_count(),
            forall|j: int| 0 <= j < i ==> !#[trigger] actions@[j],
        decreases n - i,
    {
        actions[i] = false;
        i += 1;
    }
    let mut k: usize = 0;
    while k < KEY_COUNT
        invariant
            k <= KEY_COUNT,
            n == actions@.len(),
            n == A::action_count(),
            forall|j: int|
                0 <= j < n ==> #[trigger] actions@[j] == key_drives(map@, keys@, j, k as int),
        decreases KEY_COUNT - k,
    {
        if keys[k] {
            match map.keyboard_map[k] {
                Some(a) => {
                    let idx = a.index();
                    actions[idx] = true;
                },
                None => {},
            }
        }
        assert forall|j: int| 0 <= j < n implies #[trigger] actions@[j] == key_drives(
            map@,
            keys@,
            j,
            k + 1,
        ) by {
            if key_drives(map@, keys@, j, k + 1) && !key_drives(map@, keys@, j, k as int) {
                let w = choose|w: int|
                    0 <= w < k + 1 && #[trigger] keys@[w] && (map@.keyboard[w] matches Some(a)
                        && a.action_index() == j);
                assert(w == k);
            }
        }
        k += 1;
    }
    let mut b: usize = 0;
    while b < MOUSE_COUNT
        invariant
            b <= MOUSE_COUNT,
            n == actions@.len(),
            n == A::action_count(),
            forall|j: int|
                0 <= j < n ==> #[trigger] actions@[j] == (key_drives(
                    map@,
                    keys@,
                    j,
                    KEY_COUNT as int,
                ) || mouse_drives(map@, mouse_buttons@, j, b as int)),
        decreases MOUSE_COUNT - b,
    {
        if mouse_buttons[b] {
            match map.mouse_map[b] {
                Some(a) => {
                    let idx = a.index();
                    actions[idx] = true;
                },
                None => {},
            }
        }
        assert forall|j: int| 0 <= j < n implies #[trigger] actions@[j] == (key_drives(
            map@,
            keys@,
            j,
            KEY_COUNT as int,
        ) || mouse_drives(map@, mouse_buttons@, j, b + 1)) by {
            if mouse_drives(map@, mouse_buttons@, j, b + 1) && !mouse_drives(
                map@,
                mouse_buttons@,
                j,
                b as int,
            ) {
                let w = choose|w: int|
                    0 <= w < b + 1 && #[trigger] mouse_buttons@[w] && (map@.mouse[w] matches Some(
                        a,
                    ) && a.action_index() == j);
                assert(w == b);
            }
        }
        b += 1;
    }
    let mut g: usize = 0;
    while g < n
        invariant
            g <= n,
            n == actions@.len(),
            n == A::action_count(),
            gamepad_buttons@.len() == n,
            forall|j: int|
                0 <= j < n ==> #[trigger] actions@[j] == (key_drives(
                    map@,
                    keys@,
                    j,
                    KEY_COUNT as int,
                ) || mouse_drives(map@, mouse_buttons@, j, MOUSE_COUNT as int) || (j < g
                    && gamepad_buttons@[j])),
        decreases n - g,
    {
        if gamepad_buttons[g] {
            actions[g] = true;
        }
        g += 1;
    }
}

impl<A: GameAction> Default for InputMap<A> {
    fn default() -> (r: Self)
        ensures
            forall|i: int| 0 <= i < KEY_COUNT ==> (#[trigger] r@.keyboard[i]) is None,
            forall|i: int| 0 <= i < MOUSE_COUNT ==> (#[trigger] r@.mouse[i]) is None,
            forall|i: int| 0 <= i < BUTTON_COUNT ==> (#[trigger] r@.gamepad[i]) is None,
    {
        Self::new()
    }
}


/// Whether action `action` went down this frame: held now and not held on the
/// previous frame.
pub fn is_action_just_pressed<A: GameAction>(actions: &[bool], actions_prev: &[bool], action: A) -> (r:
    bool)
    requires
        actions@.len() == A::action_count(),
        actions_prev@.len() == A::action_count(),
    ensures
        r == (actions@[action.action_index() as int] && !actions_prev@[action.action_index() as int]),
{
    let i = action.index();
    actions[i] && !actions_prev[i]
}

/// The numbers of the actions among the first `n` that went down this frame,
/// in increasing order.
pub open spec fn pressed_upto(actions: Seq<bool>, prev: Seq<bool>, n: nat) -> Seq<usize>
    decreases n,
{
    if n == 0 {
        Seq::empty()
    } else {
        let before = pressed_upto(actions, prev, (n - 1) as nat);
        if actions[n - 1] && !prev[n - 1] {
            before.push((n - 1) as usize)
        } else {
            before
        }
    }
}

/// The actions that went down this frame, in increasing order: the presses
/// that enter the input buffer.
pub fn just_pressed_actions(actions: &[bool], actions_prev: &[bool]) -> (r: Vec<usize>)
    requires
        actions_prev@.len() == actions@.len(),
    ensures
        r@ == pressed_upto(actions@, actions_prev@, actions@.len()),
{
    let mut r: Vec<usize> = Vec::new();
    let mut i: usize = 0;
    while i < actions.len()
        invariant
            i <= actions@.len(),
            actions_prev@.len() == actions@.len(),
            r@ == pressed_upto(actions@, actions_prev@, i as nat),
        decreases actions@.len() - i,
    {
        if actions[i] && !actions_prev[i] {
            r.push(i);
        }
        i = i + 1;
    }
    r
}

} // verus!
