use vstd::prelude::*;

use crate::event::{FloatBits, KeyCode, KeyMods, MouseButton, TouchPhase};
use crate::handler::{CallHistory, EventHandler, HandlerCall};

verus! {

/// An event handler that writes down the calls it has, and does nothing else.
#[derive(Debug)]
pub struct Recorder {
    pub log: Vec<HandlerCall>,
}

impl Recorder {
    /// A recorder that had no call yet.
    pub fn new() -> (recorder: Self)
        ensures
            recorder.calls() == Seq::<HandlerCall>::empty(),
    {
        Recorder { log: Vec::new() }
    }
}

impl EventHandler for Recorder {
    open spec fn calls(&self) -> CallHistory {
        self.log@
    }

    fn update(&mut self) {
        self.log.push(HandlerCall::Update);
    }

    fn draw(&mut self) {
        self.log.push(HandlerCall::Draw);
    }

    fn touch_event(&mut self, phase: TouchPhase, id: u64, x: FloatBits, y: FloatBits) {
        self.log.push(HandlerCall::Touch { phase, id, x, y });
    }

    fn mouse_motion_event(&mut self, x: i32, y: i32) {
        self.log.push(HandlerCall::MouseMotion { x, y });
    }

    fn raw_mouse_motion(&mut self, dx: i32, dy: i32) {
        self.log.push(HandlerCall::RawMouseMotion { dx, dy });
    }

    fn mouse_button_down_event(&mut self, btn: MouseButton, x: i32, y: i32) {
        self.log.push(HandlerCall::MouseButtonDown { btn, x, y });
    }

    fn mouse_button_up_event(&mut self, btn: MouseButton, x: i32, y: i32) {
        self.log.push(HandlerCall::MouseButtonUp { btn, x, y });
    }

    fn mouse_wheel_event(&mut self, dx: i32, dy: i32) {
        self.log.push(HandlerCall::MouseWheel { dx, dy });
    }

    fn key_down_event(&mut self, key: KeyCode, mods: KeyMods, repeat: bool) {
        self.log.push(HandlerCall::KeyDown { key, mods, repeat });
    }

    fn key_up_event(&mut self, key: KeyCode, mods: KeyMods) {
        self.log.push(HandlerCall::KeyUp { key, mods });
    }

    fn char_event(&mut self, character: char, mods: KeyMods, repeat: bool) {
        self.log.push(HandlerCall::Char { character, mods, repeat });
    }

    fn resize_event(&mut self, width: i32, height: i32) {
        self.log.push(HandlerCall::Resize { width, height });
    }

    fn window_restored_event(&mut self) {
        self.log.push(HandlerCall::WindowRestored);
    }

    fn window_minimized_event(&mut self) {
        self.log.push(HandlerCall::WindowMinimized);
    }

    fn files_dropped_event(&mut self) {
        self.log.push(HandlerCall::FilesDropped);
    }
}

} // verus!
