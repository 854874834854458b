use vstd::prelude::*;

use crate::event::{DeferredEvent, FloatBits, KeyCode, KeyMods, MouseButton, TouchPhase};
use crate::stage::{try_event_handler_or_defer, Arrival, Stage};

verus! {

/// The Unicode scalar values: the code points that are not surrogates.
pub open spec fn is_scalar_value(code: u32) -> bool {
    code <= 0xD7FF || 0xE000 <= code <= 0x10FFFF
}

/// `char::from_u32` gives the character with the given number if the number is a Unicode scalar
/// value, and nothing otherwise.
pub assume_specification[ char::from_u32 ](i: u32) -> (character: Option<char>)
    ensures
        character == if is_scalar_value(i) {
            Some(i as char)
        } else {
            None
        },
;

/// The page reports that the mouse moved.
pub fn mouse_move<H>(stage: &mut Stage<H>, x: i32, y: i32) -> (res: Arrival<H>)
    ensures
        (final(stage)@, res) == crate::stage::arrival(
            old(stage)@,
            DeferredEvent::MouseMove { x, y },
        ),
{
    try_event_handler_or_defer(stage, DeferredEvent::MouseMove { x, y })
}

/// The page reports a movement of the mouse while the cursor is grabbed.
pub fn raw_mouse_move<H>(stage: &mut Stage<H>, dx: i32, dy: i32) -> (res: Arrival<H>)
    ensures
        (final(stage)@, res) == crate::stage::arrival(
            old(stage)@,
            DeferredEvent::RawMouseMove { dx, dy },
        ),
{
    try_event_handler_or_defer(stage, DeferredEvent::RawMouseMove { dx, dy })
}

/// The page reports that a mouse button went down.
pub fn mouse_down<H>(stage: &mut Stage<H>, x: i32, y: i32, btn: i32) -> (res: Arrival<H>)
    ensures
        (final(stage)@, res) == crate::stage::arrival(
            old(stage)@,
            DeferredEvent::MouseDown { btn: MouseButton { code: btn }, x, y },
        ),
{
    let btn = MouseButton { code: btn };
    try_event_handler_or_defer(stage, DeferredEvent::MouseDown { btn, x, y })
}

/// The page reports that a mouse button went up.
pub fn mouse_up<H>(stage: &mut Stage<H>, x: i32, y: i32, btn: i32) -> (res: Arrival<H>)
    ensures
        (final(stage)@, res) == crate::stage::arrival(
            old(stage)@,
            DeferredEvent::MouseUp { btn: MouseButton { code: btn }, x, y },
        ),
{
    let btn = MouseButton { code: btn };
    try_event_handler_or_defer(stage, DeferredEvent::MouseUp { btn, x, y })
}

/// The page reports that the mouse wheel was turned.
pub fn mouse_wheel<H>(stage: &mut Stage<H>, dx: i32, dy: i32) -> (res: Arrival<H>)
    ensures
        (final(stage)@, res) == crate::stage::arrival(
            old(stage)@,
            DeferredEvent::MouseWheel { dx, dy },
        ),
{
    try_event_handler_or_defer(stage, DeferredEvent::MouseWheel { dx, dy })
}

/// The page reports that a key went down, or is held down.
pub fn key_down<H>(stage: &mut Stage<H>, key: u32, modifiers: u32, repeat: bool) -> (res: Arrival<
    H,
>)
    ensures
        (final(stage)@, res) == crate::stage::arrival(
            old(stage)@,
            DeferredEvent::KeyDown {
                key: KeyCode { code: key },
                mods: KeyMods::Reported { mask: modifiers },
                repeat,
            },
        ),
{
    let key = KeyCode { code: key };
    let mods = KeyMods::Reported { mask: modifiers };
    try_event_handler_or_defer(stage, DeferredEvent::KeyDown { key, mods, repeat })
}

/// The page reports a character that was typed. A number that is no character is passed over.
pub fn key_press<H>(stage: &mut Stage<H>, key: u32) -> (res: Option<Arrival<H>>)
    ensures
        if is_scalar_value(key) {
            let event = DeferredEvent::CharEvent {
                character: key as char,
                mods: KeyMods::Unmodified,
                repeat: false,
            };
            res is Some && (final(stage)@, res->0) == crate::stage::arrival(old(stage)@, event)
        } else {
            res is None && final(stage)@ == old(stage)@
        },
{
    if let Some(character) = char::from_u32(key) {
        let mods = KeyMods::default();
        Some(
            try_event_handler_or_defer(
                stage,
                DeferredEvent::CharEvent { character, mods, repeat: false },
            ),
        )
    } else {
        None
    }
}

/// The page reports that a key went up.
pub fn key_up<H>(stage: &mut Stage<H>, key: u32, modifiers: u32) -> (res: Arrival<H>)
    ensures
        (final(stage)@, res) == crate::stage::arrival(
            old(stage)@,
            DeferredEvent::KeyUp {
                key: KeyCode { code: key },
                mods: KeyMods::Reported { mask: modifiers },
            },
        ),
{
    let key = KeyCode { code: key };
    let mods = KeyMods::Reported { mask: modifiers };
    try_event_handler_or_defer(stage, DeferredEvent::KeyUp { key, mods })
}

/// The page reports a new size of the canvas. The size is known at once, also where the handler is
/// told of it later.
pub fn resize<H>(stage: &mut Stage<H>, width: i32, height: i32) -> (res: Arrival<H>)
    requires
        old(stage).display is Some,
    ensures
        (final(stage)@, res) == crate::stage::arrival(
            crate::stage::resized(old(stage)@, width, height),
            DeferredEvent::Resize { width, height },
        ),
{
    match &mut stage.display {
        Some(display) => {
            display.set_size(width, height);
        },
        None => {},
    }
    try_event_handler_or_defer(stage, DeferredEvent::Resize { width, height })
}

/// The page reports a touch.
pub fn touch<H>(stage: &mut Stage<H>, phase: u32, id: u32, x: FloatBits, y: FloatBits) -> (res:
    Arrival<H>)
    ensures
        (final(stage)@, res) == crate::stage::arrival(
            old(stage)@,
            DeferredEvent::Touch { phase: TouchPhase { code: phase }, id: id as u64, x, y },
        ),
{
    let phase = TouchPhase { code: phase };
    let id: u64 = id as u64;
    try_event_handler_or_defer(stage, DeferredEvent::Touch { phase, id, x, y })
}

/// The page reports that it got or lost the focus.
pub fn focus<H>(stage: &mut Stage<H>, has_focus: bool) -> (res: Arrival<H>)
    ensures
        (final(stage)@, res) == crate::stage::arrival(
            old(stage)@,
            DeferredEvent::Focus { has_focus },
        ),
{
    try_event_handler_or_defer(stage, DeferredEvent::Focus { has_focus })
}

/// The page reports that files are about to be dropped: those of the last drop are forgotten.
pub fn on_files_dropped_start<H>(stage: &mut Stage<H>)
    requires
        old(stage).display is Some,
    ensures
        final(stage)@ == crate::stage::files_forgotten(old(stage)@),
{
    match &mut stage.display {
        Some(display) => {
            display.clear_dropped_files();
        },
        None => {},
    }
}

/// The page reports that all files of a drop were handed over.
pub fn on_files_dropped_finish<H>(stage: &mut Stage<H>) -> (res: Arrival<H>)
    ensures
        (final(stage)@, res) == crate::stage::arrival(old(stage)@, DeferredEvent::FilesDropped),
{
    try_event_handler_or_defer(stage, DeferredEvent::FilesDropped)
}

/// The page hands over one file of a drop.
pub fn on_file_dropped<H>(stage: &mut Stage<H>, path: String, bytes: Vec<u8>)
    requires
        old(stage).display is Some,
    ensures
        final(stage)@ == crate::stage::file_added(old(stage)@, path@, bytes@),
{
    match &mut stage.display {
        Some(display) => {
            display.add_dropped_file(path, bytes);
        },
        None => {},
    }
}

} // verus!
