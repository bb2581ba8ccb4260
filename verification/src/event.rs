//! The application-facing event interface: the modifier-key bitset, the
//! vocabulary of event-handler invocations, and the `EventHandler` capability
//! that a concrete application plugs into the frame pump.

use vstd::prelude::*;
use crate::message::{KeyCode, TouchPhase};

verus! {

/// The current held state of the four standard modifier keys, maintained
/// incrementally by the frame pump from key-down and key-up messages.
#[derive(Clone, Copy, Debug, PartialEq, Eq, Structural)]
pub struct KeyMods {
    pub shift: bool,
    pub ctrl: bool,
    pub alt: bool,
    pub logo: bool,
}

impl KeyMods {
    /// The bitset with no modifier held.
    pub open spec fn spec_none_held() -> KeyMods {
        KeyMods { shift: false, ctrl: false, alt: false, logo: false }
    }
}

impl Default for KeyMods {
    fn default() -> (r: KeyMods)
        ensures
            r == KeyMods::spec_none_held(),
    {
        KeyMods { shift: false, ctrl: false, alt: false, logo: false }
    }
}

/// One invocation of the application's event handler, as recorded in the
/// handler's ghost invocation log.
#[derive(Clone, Copy, Debug, PartialEq, Eq, Structural)]
pub enum AppEvent {
    Update,
    Draw,
    Resize { width: i32, height: i32 },
    Touch { phase: TouchPhase, touch_id: u64, x: i32, y: i32 },
    Char { character: char, mods: KeyMods, repeat: bool },
    KeyDown { keycode: KeyCode, mods: KeyMods, repeat: bool },
    KeyUp { keycode: KeyCode, mods: KeyMods },
    Minimized,
    Restored,
    QuitRequested,
}

/// The application capability consumed by the frame pump: one method per
/// event kind, plus the update and draw entry points.  The pump owns its
/// handler exclusively for the run's duration and never calls into it
/// concurrently.
///
/// Every method appends its own invocation to the ghost log `events()`, so
/// the pump's contracts can state exactly which invocations a message
/// sequence produces.  The log is specification-only: a concrete handler
/// carries no run-time record of it.
pub trait EventHandler {
    /// The ghost log of the invocations made on this handler so far.
    spec fn events(&self) -> Seq<AppEvent>;

    fn update(&mut self)
        ensures
            final(self).events() == old(self).events().push(AppEvent::Update),
    ;

    fn draw(&mut self)
        ensures
            final(self).events() == old(self).events().push(AppEvent::Draw),
    ;

    fn resize_event(&mut self, width: i32, height: i32)
        ensures
            final(self).events() == old(self).events().push(
                AppEvent::Resize { width, height },
            ),
    ;

    fn touch_event(&mut self, phase: TouchPhase, touch_id: u64, x: i32, y: i32)
        ensures
            final(self).events() == old(self).events().push(
                AppEvent::Touch { phase, touch_id, x, y },
            ),
    ;

    fn char_event(&mut self, character: char, mods: KeyMods, repeat: bool)
        ensures
            final(self).events() == old(self).events().push(
                AppEvent::Char { character, mods, repeat },
            ),
    ;

    fn key_down_event(&mut self, keycode: KeyCode, mods: KeyMods, repeat: bool)
        ensures
            final(self).events() == old(self).events().push(
                AppEvent::KeyDown { keycode, mods, repeat },
            ),
    ;

    fn key_up_event(&mut self, keycode: KeyCode, mods: KeyMods)
        ensures
            final(self).events() == old(self).events().push(
                AppEvent::KeyUp { keycode, mods },
            ),
    ;

    fn window_minimized_event(&mut self)
        ensures
            final(self).events() == old(self).events().push(AppEvent::Minimized),
    ;

    fn window_restored_event(&mut self)
        ensures
            final(self).events() == old(self).events().push(AppEvent::Restored),
    ;

    fn quit_requested_event(&mut self)
        ensures
            final(self).events() == old(self).events().push(AppEvent::QuitRequested),
    ;
}

/// An event handler that does nothing but keep the invocation record as a
/// plain vector, so a caller (a test harness, a replay driver) can inspect
/// exactly what the pump invoked and in which order.
pub struct RecordingHandler {
    pub log: Vec<AppEvent>,
}

impl RecordingHandler {
    pub fn new() -> (r: RecordingHandler)
        ensures
            r.log@ == Seq::<AppEvent>::empty(),
    {
        RecordingHandler { log: Vec::new() }
    }
}

impl EventHandler for RecordingHandler {
    open spec fn events(&self) -> Seq<AppEvent> {
        self.log@
    }

    fn update(&mut self) {
        self.log.push(AppEvent::Update);
    }

    fn draw(&mut self) {
        self.log.push(AppEvent::Draw);
    }

    fn resize_event(&mut self, width: i32, height: i32) {
        self.log.push(AppEvent::Resize { width, height });
    }

    fn touch_event(&mut self, phase: TouchPhase, touch_id: u64, x: i32, y: i32) {
        self.log.push(AppEvent::Touch { phase, touch_id, x, y });
    }

    fn char_event(&mut self, character: char, mods: KeyMods, repeat: bool) {
        self.log.push(AppEvent::Char { character, mods, repeat });
    }

    fn key_down_event(&mut self, keycode: KeyCode, mods: KeyMods, repeat: bool) {
        self.log.push(AppEvent::KeyDown { keycode, mods, repeat });
    }

    fn key_up_event(&mut self, keycode: KeyCode, mods: KeyMods) {
        self.log.push(AppEvent::KeyUp { keycode, mods });
    }

    fn window_minimized_event(&mut self) {
        self.log.push(AppEvent::Minimized);
    }

    fn window_restored_event(&mut self) {
        self.log.push(AppEvent::Restored);
    }

    fn quit_requested_event(&mut self) {
        self.log.push(AppEvent::QuitRequested);
    }
}

} // verus!
