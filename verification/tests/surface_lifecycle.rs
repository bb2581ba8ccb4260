//! Surface-lifecycle behavior of the frame pump, exercised against the
//! call-recording graphics binding.

use event_bridge::display::{DefaultClipboard, NativeDisplayData};
use event_bridge::event::RecordingHandler;
use event_bridge::gfx::{CallLogGfx, GfxCall};
use event_bridge::message::{Message, WindowHandle};
use event_bridge::pump::{Conf, MainThreadState, SurfaceState};

fn test_conf() -> Conf {
    Conf {
        high_dpi: false,
        blocking_event_loop: false,
        fullscreen: false,
        sample_count: 1,
        framebuffer_alpha: false,
    }
}

fn active_machine(gfx: &mut CallLogGfx) -> MainThreadState {
    let conf = test_conf();
    let mut s = MainThreadState::new(&conf);
    let o = s.update_surface(gfx, WindowHandle(1));
    assert_eq!(o, (true, true));
    assert_eq!(s.surface, SurfaceState::Active);
    s
}

fn count(log: &[GfxCall], wanted: &GfxCall) -> usize {
    log.iter().filter(|c| *c == wanted).count()
}

#[test]
fn surface_destroyed_is_idempotent() {
    let mut gfx = CallLogGfx::new();
    let mut eh = RecordingHandler::new();
    let mut display = NativeDisplayData::new(0, 0, DefaultClipboard::new());
    let mut s = active_machine(&mut gfx);

    s.process_message(&mut gfx, &mut eh, &mut display, Message::SurfaceDestroyed);
    assert_eq!(s.surface, SurfaceState::NoSurface);
    let after_first = gfx.log.clone();
    assert_eq!(
        &after_first[after_first.len() - 2..],
        &[GfxCall::MakeCurrentNone, GfxCall::DestroySurface]
    );

    let state_after_first = s;
    s.process_message(&mut gfx, &mut eh, &mut display, Message::SurfaceDestroyed);
    assert_eq!(s, state_after_first);
    // The second destroy issued no native call at all.
    assert_eq!(gfx.log, after_first);
}

#[test]
fn recreate_destroys_old_drawable_first() {
    let mut gfx = CallLogGfx::new();
    let mut eh = RecordingHandler::new();
    let mut display = NativeDisplayData::new(0, 0, DefaultClipboard::new());
    let mut s = active_machine(&mut gfx);
    let before = gfx.log.len();

    s.process_message(
        &mut gfx,
        &mut eh,
        &mut display,
        Message::SurfaceCreated { window: WindowHandle(2) },
    );
    let appended = &gfx.log[before..];
    assert_eq!(
        appended,
        &[
            GfxCall::MakeCurrentNone,
            GfxCall::DestroySurface,
            GfxCall::CreateSurface { window: WindowHandle(2), ok: true },
            GfxCall::MakeCurrent { ok: true },
        ]
    );
    // Exactly one release for the one drawable that existed: no leak.
    assert_eq!(count(appended, &GfxCall::DestroySurface), 1);
    assert_eq!(s.surface, SurfaceState::Active);
    assert_eq!(s.window, Some(WindowHandle(2)));
}

#[test]
fn create_failure_is_recoverable() {
    let mut gfx = CallLogGfx::new();
    gfx.create_ok = false;
    let conf = test_conf();
    let mut s = MainThreadState::new(&conf);
    let o = s.update_surface(&mut gfx, WindowHandle(7));
    assert_eq!(o, (false, false));
    assert_eq!(s.surface, SurfaceState::NoSurface);
    assert_eq!(
        gfx.log,
        vec![GfxCall::CreateSurface { window: WindowHandle(7), ok: false }]
    );
    // Rendering resumes on the next successful creation.
    gfx.create_ok = true;
    let o = s.update_surface(&mut gfx, WindowHandle(7));
    assert_eq!(o, (true, true));
    assert_eq!(s.surface, SurfaceState::Active);
}

#[test]
fn make_current_failure_releases_the_drawable() {
    let mut gfx = CallLogGfx::new();
    gfx.current_ok = false;
    let conf = test_conf();
    let mut s = MainThreadState::new(&conf);
    let o = s.update_surface(&mut gfx, WindowHandle(3));
    assert_eq!(o, (true, false));
    assert_eq!(s.surface, SurfaceState::NoSurface);
    assert_eq!(
        gfx.log,
        vec![
            GfxCall::CreateSurface { window: WindowHandle(3), ok: true },
            GfxCall::MakeCurrent { ok: false },
            GfxCall::DestroySurface,
        ]
    );
}

#[test]
fn shutdown_tears_down_in_strict_order() {
    let mut gfx = CallLogGfx::new();
    let mut s = active_machine(&mut gfx);
    let before = gfx.log.len();
    s.shutdown(&mut gfx);
    assert_eq!(
        &gfx.log[before..],
        &[
            GfxCall::MakeCurrentNone,
            GfxCall::DestroySurface,
            GfxCall::DestroyContext,
            GfxCall::Terminate,
        ]
    );
    assert_eq!(s.surface, SurfaceState::NoSurface);
}

#[test]
fn surface_changed_updates_display_and_notifies() {
    let mut gfx = CallLogGfx::new();
    let mut eh = RecordingHandler::new();
    let mut display = NativeDisplayData::new(100, 100, DefaultClipboard::new());
    let mut s = active_machine(&mut gfx);
    let calls_before = gfx.log.len();

    s.process_message(
        &mut gfx,
        &mut eh,
        &mut display,
        Message::SurfaceChanged { width: 1024, height: 768 },
    );
    assert_eq!(display.screen_width, 1024);
    assert_eq!(display.screen_height, 768);
    assert_eq!(
        eh.log,
        vec![event_bridge::event::AppEvent::Resize { width: 1024, height: 768 }]
    );
    // A size change alone neither touches the drawable nor its validity.
    assert_eq!(gfx.log.len(), calls_before);
    assert_eq!(s.surface, SurfaceState::Active);
}
