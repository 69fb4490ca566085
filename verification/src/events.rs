use vstd::prelude::*;

verus! {

/// One keyboard key as the control loop sees it.
#[derive(Clone, Copy, PartialEq, Eq, Structural, Debug)]
pub enum Key {
    Char(char),
    Up,
    Down,
    Enter,
    Backspace,
    Esc,
    Other,
}

/// One occurrence reported by the terminal layer: raw input, a timer firing,
/// or a fault while reading.
pub enum Event {
    Init,
    Error,
    Tick,
    Render,
    Key(Key),
    Mouse,
    FocusGained,
    FocusLost,
    Resize(u16, u16),
    Paste(String),
    Quit,
}

} // verus!
