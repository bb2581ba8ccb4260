//! Input dispatch: modifier-key bookkeeping, character filtering, touch
//! forwarding, and the key-action decision used by the platform key callback.

use event_bridge::display::{DefaultClipboard, NativeDisplayData};
use event_bridge::event::{AppEvent, KeyMods, RecordingHandler};
use event_bridge::gfx::CallLogGfx;
use event_bridge::message::{key_event_message, KeyCode, Message, TouchPhase};
use event_bridge::pump::{Conf, MainThreadState};

fn fresh() -> (CallLogGfx, RecordingHandler, NativeDisplayData<DefaultClipboard>, MainThreadState)
{
    let conf = Conf {
        high_dpi: false,
        blocking_event_loop: false,
        fullscreen: false,
        sample_count: 1,
        framebuffer_alpha: false,
    };
    (
        CallLogGfx::new(),
        RecordingHandler::new(),
        NativeDisplayData::new(0, 0, DefaultClipboard::new()),
        MainThreadState::new(&conf),
    )
}

#[test]
fn shift_down_then_up_releases_shift() {
    let (mut gfx, mut eh, mut display, mut s) = fresh();
    s.process_message(
        &mut gfx,
        &mut eh,
        &mut display,
        Message::KeyDown { keycode: KeyCode::LeftShift },
    );
    assert!(s.keymods.shift);
    s.process_message(
        &mut gfx,
        &mut eh,
        &mut display,
        Message::KeyUp { keycode: KeyCode::LeftShift },
    );
    assert!(!s.keymods.shift);
    let held = KeyMods { shift: true, ctrl: false, alt: false, logo: false };
    let released = KeyMods { shift: false, ctrl: false, alt: false, logo: false };
    assert_eq!(
        eh.log,
        vec![
            AppEvent::KeyDown { keycode: KeyCode::LeftShift, mods: held, repeat: false },
            AppEvent::KeyUp { keycode: KeyCode::LeftShift, mods: released },
        ]
    );
}

#[test]
fn shift_down_alone_leaves_shift_held() {
    let (mut gfx, mut eh, mut display, mut s) = fresh();
    s.process_message(
        &mut gfx,
        &mut eh,
        &mut display,
        Message::KeyDown { keycode: KeyCode::LeftShift },
    );
    assert!(s.keymods.shift);
    assert!(!s.keymods.ctrl);
    assert!(!s.keymods.alt);
    assert!(!s.keymods.logo);
}

#[test]
fn unrelated_keys_leave_keymods_unchanged() {
    let (mut gfx, mut eh, mut display, mut s) = fresh();
    s.process_message(
        &mut gfx,
        &mut eh,
        &mut display,
        Message::KeyDown { keycode: KeyCode::LeftControl },
    );
    let mods_before = s.keymods;
    s.process_message(
        &mut gfx,
        &mut eh,
        &mut display,
        Message::KeyDown { keycode: KeyCode::Space },
    );
    s.process_message(
        &mut gfx,
        &mut eh,
        &mut display,
        Message::KeyUp { keycode: KeyCode::Space },
    );
    assert_eq!(s.keymods, mods_before);
}

#[test]
fn every_modifier_pair_is_tracked() {
    let (mut gfx, mut eh, mut display, mut s) = fresh();
    let pairs = [
        (KeyCode::RightShift, 0),
        (KeyCode::RightControl, 1),
        (KeyCode::LeftAlt, 2),
        (KeyCode::RightSuper, 3),
    ];
    for (key, which) in pairs {
        s.process_message(&mut gfx, &mut eh, &mut display, Message::KeyDown { keycode: key });
        let held = [s.keymods.shift, s.keymods.ctrl, s.keymods.alt, s.keymods.logo];
        assert!(held[which]);
        s.process_message(&mut gfx, &mut eh, &mut display, Message::KeyUp { keycode: key });
        let held = [s.keymods.shift, s.keymods.ctrl, s.keymods.alt, s.keymods.logo];
        assert!(!held[which]);
    }
}

#[test]
fn valid_character_gives_exactly_one_invocation() {
    let (mut gfx, mut eh, mut display, mut s) = fresh();
    s.process_message(&mut gfx, &mut eh, &mut display, Message::Character { character: 0x41 });
    let none = KeyMods { shift: false, ctrl: false, alt: false, logo: false };
    assert_eq!(
        eh.log,
        vec![AppEvent::Char { character: 'A', mods: none, repeat: false }]
    );
}

#[test]
fn out_of_range_character_is_dropped() {
    let (mut gfx, mut eh, mut display, mut s) = fresh();
    s.process_message(
        &mut gfx,
        &mut eh,
        &mut display,
        Message::Character { character: 0x110000 },
    );
    assert_eq!(eh.log, vec![]);
}

#[test]
fn character_range_boundaries() {
    let (mut gfx, mut eh, mut display, mut s) = fresh();
    // The surrogate range is dropped; its neighbours and the last code point pass.
    for c in [0xD800u32, 0xDC00, 0xDFFF] {
        s.process_message(&mut gfx, &mut eh, &mut display, Message::Character { character: c });
    }
    assert_eq!(eh.log, vec![]);
    let none = KeyMods { shift: false, ctrl: false, alt: false, logo: false };
    for c in [0xD7FFu32, 0xE000, 0x10FFFF] {
        s.process_message(&mut gfx, &mut eh, &mut display, Message::Character { character: c });
    }
    assert_eq!(
        eh.log,
        vec![
            AppEvent::Char { character: '\u{D7FF}', mods: none, repeat: false },
            AppEvent::Char { character: '\u{E000}', mods: none, repeat: false },
            AppEvent::Char { character: '\u{10FFFF}', mods: none, repeat: false },
        ]
    );
}

#[test]
fn touch_is_forwarded_verbatim() {
    let (mut gfx, mut eh, mut display, mut s) = fresh();
    s.process_message(
        &mut gfx,
        &mut eh,
        &mut display,
        Message::Touch { phase: TouchPhase::Started, touch_id: 42, x: 10, y: -3 },
    );
    assert_eq!(
        eh.log,
        vec![AppEvent::Touch { phase: TouchPhase::Started, touch_id: 42, x: 10, y: -3 }]
    );
}

#[test]
fn pause_and_resume_map_to_window_notifications() {
    let (mut gfx, mut eh, mut display, mut s) = fresh();
    s.process_message(&mut gfx, &mut eh, &mut display, Message::Pause);
    s.process_message(&mut gfx, &mut eh, &mut display, Message::Resume);
    assert_eq!(eh.log, vec![AppEvent::Minimized, AppEvent::Restored]);
}

#[test]
fn key_action_codes_map_to_messages() {
    assert_eq!(
        key_event_message(0, KeyCode::Enter),
        Some(Message::KeyDown { keycode: KeyCode::Enter })
    );
    assert_eq!(
        key_event_message(1, KeyCode::Enter),
        Some(Message::KeyUp { keycode: KeyCode::Enter })
    );
    assert_eq!(key_event_message(2, KeyCode::Enter), None);
}
