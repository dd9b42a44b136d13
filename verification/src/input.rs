use vstd::prelude::*;

verus! {

/// A key of the keyboard.
#[derive(Clone, Copy, Debug, PartialEq, Eq, Structural)]
pub enum Key {
    Key0,
    Key1,
    Key2,
    Key3,
    Key4,
    Key5,
    Key6,
    Key7,
    Key8,
    Key9,
    A,
    B,
    C,
    D,
    E,
    F,
    G,
    H,
    I,
    J,
    K,
    L,
    M,
    N,
    O,
    P,
    Q,
    R,
    S,
    T,
    U,
    V,
    W,
    X,
    Y,
    Z,
    F1,
    F2,
    F3,
    F4,
    F5,
    F6,
    F7,
    F8,
    F9,
    F10,
    F11,
    F12,
    F13,
    F14,
    F15,
    Down,
    Left,
    Right,
    Up,
    Apostrophe,
    Backquote,
    Backslash,
    Comma,
    Equal,
    LeftBracket,
    Minus,
    Period,
    RightBracket,
    Semicolon,
    Slash,
    Backspace,
    Delete,
    End,
    Enter,
    Escape,
    Home,
    Insert,
    Menu,
    PageDown,
    PageUp,
    Pause,
    Space,
    Tab,
    NumLock,
    CapsLock,
    ScrollLock,
    LeftShift,
    RightShift,
    LeftCtrl,
    RightCtrl,
    NumPad0,
    NumPad1,
    NumPad2,
    NumPad3,
    NumPad4,
    NumPad5,
    NumPad6,
    NumPad7,
    NumPad8,
    NumPad9,
    NumPadDot,
    NumPadSlash,
    NumPadAsterisk,
    NumPadMinus,
    NumPadPlus,
    NumPadEnter,
    LeftAlt,
    RightAlt,
    LeftSuper,
    RightSuper,
    /// A key that has no name here.
    Unknown,
}

/// The pushes that the held keys give a ball in one frame. Each is given at
/// most once per frame, however often its key occurs, and again in every
/// frame in which the key is still held.
#[derive(Clone, Copy, Debug, PartialEq, Eq, Structural)]
pub struct Impulses {
    /// Push to the left: `A` is held.
    pub left: bool,
    /// Push to the right: `D` is held.
    pub right: bool,
    /// Push upwards: `W` is held and the ball can jump.
    pub jump: bool,
}

/// The pushes for the held keys `keys`. `can_jump` says whether the ball
/// stands on the floor and does not fall.
pub open spec fn impulses_of(keys: Seq<Key>, can_jump: bool) -> Impulses {
    Impulses {
        left: keys.contains(Key::A),
        right: keys.contains(Key::D),
        jump: can_jump && keys.contains(Key::W),
    }
}

/// Whether `key` is among the held keys.
pub fn is_key_down(keys: &[Key], key: Key) -> (down: bool)
    ensures
        down == keys@.contains(key),
{
    let mut i: usize = 0;
    while i < keys.len()
        invariant
            i <= keys.len(),
            forall|k: int| 0 <= k < i ==> keys@[k] != key,
        decreases keys.len() - i,
    {
        if keys[i] == key {
            return true;
        }
        i += 1;
    }
    false
}

/// The pushes that the held keys give a ball that can jump or cannot.
pub fn impulses(keys: &[Key], can_jump: bool) -> (pushes: Impulses)
    ensures
        pushes == impulses_of(keys@, can_jump),
{
    Impulses {
        left: is_key_down(keys, Key::A),
        right: is_key_down(keys, Key::D),
        jump: can_jump && is_key_down(keys, Key::W),
    }
}

} // verus!
