use vstd::prelude::*;

verus! {

/// A 32-bit float, by its bit pattern.
#[derive(Clone, Copy, Debug, PartialEq, Eq, Structural)]
pub struct FloatBits {
    pub bits: u32,
}

/// A mouse button, by the number that the page reports for it.
#[derive(Clone, Copy, Debug, PartialEq, Eq, Structural)]
pub struct MouseButton {
    pub code: i32,
}

/// A key, by the number that the page reports for it.
#[derive(Clone, Copy, Debug, PartialEq, Eq, Structural)]
pub struct KeyCode {
    pub code: u32,
}

/// The modifier keys that go with a key event.
#[derive(Clone, Copy, Debug, PartialEq, Eq, Structural)]
pub enum KeyMods {
    /// No modifier is held down.
    Unmodified,
    /// The modifiers that the page reports, as its bit mask.
    Reported { mask: u32 },
}

impl Default for KeyMods {
    fn default() -> (mods: Self)
        ensures
            mods == KeyMods::Unmodified,
    {
        KeyMods::Unmodified
    }
}

/// The stage that a touch is in, by the number that the page reports for it.
#[derive(Clone, Copy, Debug, PartialEq, Eq, Structural)]
pub struct TouchPhase {
    pub code: u32,
}

/// Events that may be deferred if the event handler is already borrowed.
///
/// The page reports mouse positions and window sizes as integers and touch positions as floats.
/// They are kept here as they came; the handler turns them into the numbers it works with.
#[derive(Clone, Copy, Debug, PartialEq, Eq, Structural)]
pub enum DeferredEvent {
    Touch { phase: TouchPhase, id: u64, x: FloatBits, y: FloatBits },
    MouseMove { x: i32, y: i32 },
    RawMouseMove { dx: i32, dy: i32 },
    MouseDown { btn: MouseButton, x: i32, y: i32 },
    MouseUp { btn: MouseButton, x: i32, y: i32 },
    MouseWheel { dx: i32, dy: i32 },
    KeyDown { key: KeyCode, mods: KeyMods, repeat: bool },
    KeyUp { key: KeyCode, mods: KeyMods },
    CharEvent { character: char, mods: KeyMods, repeat: bool },
    Resize { width: i32, height: i32 },
    Focus { has_focus: bool },
    FilesDropped,
}

} // verus!
