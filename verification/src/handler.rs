use vstd::prelude::*;

use crate::event::{DeferredEvent, FloatBits, KeyCode, KeyMods, MouseButton, TouchPhase};

verus! {

/// One call of a method of an event handler, with what was handed to it.
#[derive(Clone, Copy, Debug, PartialEq, Eq, Structural)]
pub enum HandlerCall {
    Update,
    Draw,
    Touch { phase: TouchPhase, id: u64, x: FloatBits, y: FloatBits },
    MouseMotion { x: i32, y: i32 },
    RawMouseMotion { dx: i32, dy: i32 },
    MouseButtonDown { btn: MouseButton, x: i32, y: i32 },
    MouseButtonUp { btn: MouseButton, x: i32, y: i32 },
    MouseWheel { dx: i32, dy: i32 },
    KeyDown { key: KeyCode, mods: KeyMods, repeat: bool },
    KeyUp { key: KeyCode, mods: KeyMods },
    Char { character: char, mods: KeyMods, repeat: bool },
    Resize { width: i32, height: i32 },
    WindowRestored,
    WindowMinimized,
    FilesDropped,
}

/// The calls that a handler has had, oldest first. It exists in proofs only.
pub type CallHistory = Seq<HandlerCall>;

/// What an application implements to be told of events and to be asked to draw.
///
/// Each method adds one call to the history of the handler. What it does besides is up to the
/// application.
pub trait EventHandler: Sized {
    spec fn calls(&self) -> CallHistory;

    fn update(&mut self)
        ensures
            final(self).calls() == old(self).calls().push(HandlerCall::Update),
    ;

    fn draw(&mut self)
        ensures
            final(self).calls() == old(self).calls().push(HandlerCall::Draw),
    ;

    fn touch_event(&mut self, phase: TouchPhase, id: u64, x: FloatBits, y: FloatBits)
        ensures
            final(self).calls() == old(self).calls().push(HandlerCall::Touch { phase, id, x, y }),
    ;

    fn mouse_motion_event(&mut self, x: i32, y: i32)
        ensures
            final(self).calls() == old(self).calls().push(HandlerCall::MouseMotion { x, y }),
    ;

    fn raw_mouse_motion(&mut self, dx: i32, dy: i32)
        ensures
            final(self).calls() == old(self).calls().push(HandlerCall::RawMouseMotion { dx, dy }),
    ;

    fn mouse_button_down_event(&mut self, btn: MouseButton, x: i32, y: i32)
        ensures
            final(self).calls() == old(self).calls().push(
                HandlerCall::MouseButtonDown { btn, x, y },
            ),
    ;

    fn mouse_button_up_event(&mut self, btn: MouseButton, x: i32, y: i32)
        ensures
            final(self).calls() == old(self).calls().push(HandlerCall::MouseButtonUp { btn, x, y }),
    ;

    fn mouse_wheel_event(&mut self, dx: i32, dy: i32)
        ensures
            final(self).calls() == old(self).calls().push(HandlerCall::MouseWheel { dx, dy }),
    ;

    fn key_down_event(&mut self, key: KeyCode, mods: KeyMods, repeat: bool)
        ensures
            final(self).calls() == old(self).calls().push(
                HandlerCall::KeyDown { key, mods, repeat },
            ),
    ;

    fn key_up_event(&mut self, key: KeyCode, mods: KeyMods)
        ensures
            final(self).calls() == old(self).calls().push(HandlerCall::KeyUp { key, mods }),
    ;

    fn char_event(&mut self, character: char, mods: KeyMods, repeat: bool)
        ensures
            final(self).calls() == old(self).calls().push(
                HandlerCall::Char { character, mods, repeat },
            ),
    ;

    fn resize_event(&mut self, width: i32, height: i32)
        ensures
            final(self).calls() == old(self).calls().push(HandlerCall::Resize { width, height }),
    ;

    fn window_restored_event(&mut self)
        ensures
            final(self).calls() == old(self).calls().push(HandlerCall::WindowRestored),
    ;

    fn window_minimized_event(&mut self)
        ensures
            final(self).calls() == old(self).calls().push(HandlerCall::WindowMinimized),
    ;

    fn files_dropped_event(&mut self)
        ensures
            final(self).calls() == old(self).calls().push(HandlerCall::FilesDropped),
    ;
}

/// The call by which a handler is told of an event.
pub open spec fn call_for(event: DeferredEvent) -> HandlerCall {
    match event {
        DeferredEvent::Touch { phase, id, x, y } => HandlerCall::Touch { phase, id, x, y },
        DeferredEvent::MouseMove { x, y } => HandlerCall::MouseMotion { x, y },
        DeferredEvent::RawMouseMove { dx, dy } => HandlerCall::RawMouseMotion { dx, dy },
        DeferredEvent::MouseDown { btn, x, y } => HandlerCall::MouseButtonDown { btn, x, y },
        DeferredEvent::MouseUp { btn, x, y } => HandlerCall::MouseButtonUp { btn, x, y },
        DeferredEvent::MouseWheel { dx, dy } => HandlerCall::MouseWheel { dx, dy },
        DeferredEvent::KeyDown { key, mods, repeat } => HandlerCall::KeyDown { key, mods, repeat },
        DeferredEvent::KeyUp { key, mods } => HandlerCall::KeyUp { key, mods },
        DeferredEvent::CharEvent { character, mods, repeat } => HandlerCall::Char {
            character,
            mods,
            repeat,
        },
        DeferredEvent::Resize { width, height } => HandlerCall::Resize { width, height },
        DeferredEvent::Focus { has_focus: true } => HandlerCall::WindowRestored,
        DeferredEvent::Focus { has_focus: false } => HandlerCall::WindowMinimized,
        DeferredEvent::FilesDropped => HandlerCall::FilesDropped,
    }
}

/// Dispatch a deferred event to the event handler.
pub fn dispatch_deferred_event<H: EventHandler>(handler: &mut H, event: DeferredEvent)
    ensures
        final(handler).calls() == old(handler).calls().push(call_for(event)),
{
    match event {
        DeferredEvent::Touch { phase, id, x, y } => {
            handler.touch_event(phase, id, x, y);
        },
        DeferredEvent::MouseMove { x, y } => {
            handler.mouse_motion_event(x, y);
        },
        DeferredEvent::RawMouseMove { dx, dy } => {
            handler.raw_mouse_motion(dx, dy);
        },
        DeferredEvent::MouseDown { btn, x, y } => {
            handler.mouse_button_down_event(btn, x, y);
        },
        DeferredEvent::MouseUp { btn, x, y } => {
            handler.mouse_button_up_event(btn, x, y);
        },
        DeferredEvent::MouseWheel { dx, dy } => {
            handler.mouse_wheel_event(dx, dy);
        },
        DeferredEvent::KeyDown { key, mods, repeat } => {
            handler.key_down_event(key, mods, repeat);
        },
        DeferredEvent::KeyUp { key, mods } => {
            handler.key_up_event(key, mods);
        },
        DeferredEvent::CharEvent { character, mods, repeat } => {
            handler.char_event(character, mods, repeat);
        },
        DeferredEvent::Resize { width, height } => {
            handler.resize_event(width, height);
        },
        DeferredEvent::Focus { has_focus } => {
            if has_focus {
                handler.window_restored_event();
            } else {
                handler.window_minimized_event();
            }
        },
        DeferredEvent::FilesDropped => {
            handler.files_dropped_event();
        },
    }
}

/// Advance the application by one frame and draw it.
pub fn update_and_draw<H: EventHandler>(handler: &mut H)
    ensures
        final(handler).calls() == old(handler).calls().push(HandlerCall::Update).push(
            HandlerCall::Draw,
        ),
{
    handler.update();
    handler.draw();
}

} // verus!
