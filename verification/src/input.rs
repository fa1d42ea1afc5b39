//! Keys and input events, as a front end reports them.

use vstd::prelude::*;

verus! {

/// All pressable keys.
#[derive(Clone, Copy, Debug, Eq, Hash, PartialEq, Structural)]
pub enum KeyCode {
    A,
    B,
    C,
    D,
    E,
    F,
    G,
    H,
    I,
    J,
    K,
    L,
    M,
    N,
    O,
    P,
    Q,
    R,
    S,
    T,
    U,
    V,
    W,
    X,
    Y,
    Z,
    /// Top-row `1/!` key.
    Row1,
    /// Top-row `2/@` key.
    Row2,
    /// Top-row `3/#` key.
    Row3,
    /// Top-row `4/$` key.
    Row4,
    /// Top-row `5/%` key.
    Row5,
    /// Top-row `6/^` key.
    Row6,
    /// Top-row `7/&` key.
    Row7,
    /// Top-row `8/*` key.
    Row8,
    /// Top-row `9/(` key.
    Row9,
    /// Top-row `0/)` key.
    Row0,
    /// Top-row backtick/tilde key.
    Grave,
    /// Top-row `-/_` key.
    Minus,
    /// Top-row `=/+` key.
    Equals,
    /// Second-row `[/{` key.
    LeftBracket,
    /// Second-row `]/}` key.
    RightBracket,
    /// Second-row `\/|` key.
    Backslash,
    /// Third-row `;/:` key.
    Semicolon,
    /// Third-row `'/"` key.
    Apostrophe,
    /// Fourth-row `,/<` key.
    Comma,
    /// Fourth-row `./>` key.
    Period,
    /// Fourth-row `//?` key.
    Slash,
    F1,
    F2,
    F3,
    F4,
    F5,
    F6,
    F7,
    F8,
    F9,
    F10,
    F11,
    F12,
    Enter,
    Escape,
    Backspace,
    Tab,
    Space,
    Pause,
    Insert,
    Home,
    PageUp,
    Delete,
    End,
    PageDown,
    /// Right arrow key.
    Right,
    /// Left arrow key.
    Left,
    /// Down arrow key.
    Down,
    /// Up arrow key.
    Up,
    /// Numpad `/` key.
    NumDivide,
    /// Numpad `*` key.
    NumMultiply,
    /// Numpad `-` key.
    NumMinus,
    /// Numpad `+` key.
    NumPlus,
    /// Numpad enter key.
    NumEnter,
    /// Numpad `Del/.` key.
    NumPeriod,
    /// Numpad `1/End` key.
    Num1,
    /// Numpad 2/down key.
    Num2,
    /// Numpad `3/PageDown` key.
    Num3,
    /// Numpad 4/left key.
    Num4,
    /// Numpad `5` key.
    Num5,
    /// Numpad 6/right key.
    Num6,
    /// Numpad `7/Home` key.
    Num7,
    /// Numpad 8/up key.
    Num8,
    /// Numpad `9/PageUp` key.
    Num9,
    /// Numpad `0/Insert` key.
    Num0,
    /// Left mouse button.
    MouseLeft,
    /// Right mouse button.
    MouseRight,
    /// Middle mouse button, the pressed scroll wheel.
    MouseMiddle,
    MouseFourth,
    MouseFifth,
}

/// A single input event.
#[derive(Clone, Copy, Debug, Eq, Hash, PartialEq, Structural)]
pub enum Event {
    /// The window was closed.
    Close,
    /// The window was resized to the given width and height.
    Resize { width: i32, height: i32 },
    /// The mouse moved to the cell in column `x` and row `y`, both counted from
    /// zero.
    MouseMove { x: i32, y: i32 },
    /// The mouse wheel turned by `delta` steps: positive towards the user,
    /// negative away.
    MouseScroll { delta: i32 },
    /// A key or mouse button was pressed, with Control or Shift held or not.
    KeyPressed { key: KeyCode, ctrl: bool, shift: bool },
    /// A key or mouse button was released, with Control or Shift held or not.
    KeyReleased { key: KeyCode, ctrl: bool, shift: bool },
    /// The Shift key was pressed.
    ShiftPressed,
    /// The Shift key was released.
    ShiftReleased,
    /// The Control key was pressed.
    ControlPressed,
    /// The Control key was released.
    ControlReleased,
}

} // verus!
