//! The frame-pump loop: blocking and polling policies, request handling, the
//! bootstrap handshake, quit paths, and the end-to-end run.

use event_bridge::bootstrap::{Bootstrap, BootstrapPhase};
use event_bridge::display::{Clipboard, DefaultClipboard, NativeDisplayData};
use event_bridge::event::{AppEvent, RecordingHandler};
use event_bridge::gfx::{CallLogGfx, GfxCall, NativeGfx};
use event_bridge::message::{KeyCode, Message, Request, TouchPhase, WindowHandle};
use event_bridge::pump::{Conf, MainThreadState, PumpInput, RequestOutcome, SurfaceState};

fn conf(blocking: bool) -> Conf {
    Conf {
        high_dpi: false,
        blocking_event_loop: blocking,
        fullscreen: false,
        sample_count: 4,
        framebuffer_alpha: false,
    }
}

fn presents(log: &[GfxCall]) -> usize {
    log.iter().filter(|c| matches!(c, GfxCall::Present)).count()
}

#[test]
fn blocking_iteration_without_update_request_draws_nothing() {
    let mut gfx = CallLogGfx::new();
    let mut eh = RecordingHandler::new();
    let mut display = NativeDisplayData::new(0, 0, DefaultClipboard::new());
    let mut s = MainThreadState::new(&conf(true));
    s.update_surface(&mut gfx, WindowHandle(1));
    // The first frame was already rendered; no render is owed now.
    s.update_requested = false;
    let before = gfx.log.len();

    // One blocking receive, one message processed, and no update, draw or
    // present.
    s.iteration(
        &mut gfx,
        &mut eh,
        &mut display,
        true,
        &PumpInput::Received(Message::Touch {
            phase: TouchPhase::Moved,
            touch_id: 1,
            x: 5,
            y: 5,
        }),
    );
    assert_eq!(
        eh.log,
        vec![AppEvent::Touch { phase: TouchPhase::Moved, touch_id: 1, x: 5, y: 5 }]
    );
    assert_eq!(presents(&gfx.log[before..]), 0);
    assert!(!s.update_requested);
}

#[test]
fn schedule_update_triggers_one_frame_then_clears() {
    let mut gfx = CallLogGfx::new();
    let mut eh = RecordingHandler::new();
    let mut display = NativeDisplayData::new(0, 0, DefaultClipboard::new());
    let mut s = MainThreadState::new(&conf(true));
    s.update_surface(&mut gfx, WindowHandle(1));
    s.update_requested = false;
    let before = gfx.log.len();

    s.iteration(
        &mut gfx,
        &mut eh,
        &mut display,
        true,
        &PumpInput::Received(Message::Request(Request::ScheduleUpdate)),
    );
    assert_eq!(eh.log, vec![AppEvent::Update, AppEvent::Draw]);
    assert_eq!(&gfx.log[before..], &[GfxCall::Present]);
    assert!(!s.update_requested);
}

#[test]
fn schedule_update_without_surface_updates_only() {
    let mut gfx = CallLogGfx::new();
    let mut eh = RecordingHandler::new();
    let mut display = NativeDisplayData::new(0, 0, DefaultClipboard::new());
    let mut s = MainThreadState::new(&conf(true));
    s.update_requested = false;
    assert_eq!(s.surface, SurfaceState::NoSurface);

    s.iteration(
        &mut gfx,
        &mut eh,
        &mut display,
        true,
        &PumpInput::Received(Message::Request(Request::ScheduleUpdate)),
    );
    assert_eq!(eh.log, vec![AppEvent::Update]);
    assert_eq!(presents(&gfx.log), 0);
    // The render stays owed until a frame can actually be drawn.
    assert!(s.update_requested);
}

#[test]
fn polling_iteration_updates_every_turn() {
    let mut gfx = CallLogGfx::new();
    let mut eh = RecordingHandler::new();
    let mut display = NativeDisplayData::new(0, 0, DefaultClipboard::new());
    let mut s = MainThreadState::new(&conf(false));
    s.update_surface(&mut gfx, WindowHandle(1));

    s.iteration(&mut gfx, &mut eh, &mut display, false, &PumpInput::Drained(vec![]));
    s.iteration(&mut gfx, &mut eh, &mut display, false, &PumpInput::Drained(vec![]));
    assert_eq!(
        eh.log,
        vec![AppEvent::Update, AppEvent::Draw, AppEvent::Update, AppEvent::Draw]
    );
    assert_eq!(presents(&gfx.log), 2);
}

#[test]
fn requests_other_than_schedule_update_are_unsupported() {
    let mut s = MainThreadState::new(&conf(false));
    let before = s;
    assert_eq!(s.process_request(Request::SetFullscreen(true)), RequestOutcome::Unsupported);
    assert_eq!(s.process_request(Request::ShowKeyboard(true)), RequestOutcome::Unsupported);
    assert_eq!(s.process_request(Request::SetCursorGrab(true)), RequestOutcome::Unsupported);
    assert_eq!(s, before);
    assert_eq!(s.process_request(Request::ScheduleUpdate), RequestOutcome::Handled);
    assert!(s.update_requested);
}

#[test]
fn destroy_message_sets_quit_and_notifies() {
    let mut gfx = CallLogGfx::new();
    let mut eh = RecordingHandler::new();
    let mut display = NativeDisplayData::new(0, 0, DefaultClipboard::new());
    let mut s = MainThreadState::new(&conf(false));
    assert!(!s.quit);
    s.process_message(&mut gfx, &mut eh, &mut display, Message::Destroy);
    assert!(s.quit);
    assert_eq!(eh.log, vec![AppEvent::QuitRequested]);
}

#[test]
fn closed_channel_is_an_implicit_quit() {
    let mut s = MainThreadState::new(&conf(true));
    s.note_channel_closed();
    assert!(s.quit);
}

#[test]
fn bootstrap_discards_everything_until_handle_then_size() {
    let mut b = Bootstrap::new();
    assert!(!b.is_ready());
    // A size arriving before any window handle is discarded too.
    b.step(Message::SurfaceChanged { width: 10, height: 10 });
    b.step(Message::Touch { phase: TouchPhase::Started, touch_id: 0, x: 0, y: 0 });
    assert_eq!(b.phase, BootstrapPhase::AwaitSurface);
    b.step(Message::SurfaceCreated { window: WindowHandle(9) });
    assert_eq!(b.phase, BootstrapPhase::AwaitSize { window: WindowHandle(9) });
    b.step(Message::KeyDown { keycode: KeyCode::Space });
    assert_eq!(b.phase, BootstrapPhase::AwaitSize { window: WindowHandle(9) });
    b.step(Message::SurfaceChanged { width: 640, height: 480 });
    assert!(b.is_ready());
    assert_eq!(
        b.phase,
        BootstrapPhase::Ready { window: WindowHandle(9), width: 640, height: 480 }
    );
}

#[test]
fn end_to_end_bootstrap_run_and_teardown() {
    // Bootstrap: the platform delivers a handle, then a size.
    let mut b = Bootstrap::new();
    b.step(Message::SurfaceCreated { window: WindowHandle(0x1) });
    b.step(Message::SurfaceChanged { width: 800, height: 600 });
    let (window, width, height) = match b.phase {
        BootstrapPhase::Ready { window, width, height } => (window, width, height),
        _ => unreachable!(),
    };

    // The context is created exactly once per run.
    let c = conf(false);
    let mut gfx = CallLogGfx::new();
    let ok = gfx.create_context(c.sample_count, c.framebuffer_alpha);
    assert!(ok);

    let mut display = NativeDisplayData::new(width, height, DefaultClipboard::new());
    assert_eq!(display.screen_width, 800);
    assert_eq!(display.screen_height, 600);

    let mut eh = RecordingHandler::new();
    let mut s = MainThreadState::new(&c);
    s.update_surface(&mut gfx, window);
    assert_eq!(s.surface, SurfaceState::Active);

    // A quit order arrives; the run ends with exactly one teardown sequence.
    s.run_pump(&mut gfx, &mut eh, &mut display, c.blocking_event_loop, &vec![Message::Destroy]);
    assert!(s.quit);
    let contexts = gfx
        .log
        .iter()
        .filter(|call| matches!(call, GfxCall::CreateContext { .. }))
        .count();
    assert_eq!(contexts, 1);
    let teardown_at = gfx.log.len() - 4;
    assert_eq!(
        &gfx.log[teardown_at..],
        &[
            GfxCall::MakeCurrentNone,
            GfxCall::DestroySurface,
            GfxCall::DestroyContext,
            GfxCall::Terminate,
        ]
    );
    let destroys = gfx
        .log
        .iter()
        .filter(|call| matches!(call, GfxCall::DestroyContext))
        .count();
    assert_eq!(destroys, 1);
    // Quit is observed at the top of the next iteration: the iteration that
    // processed the quit order still renders its frame first.
    assert_eq!(eh.log, vec![AppEvent::QuitRequested, AppEvent::Update, AppEvent::Draw]);
}

#[test]
fn run_never_presents_without_a_surface() {
    // Surface creation keeps failing; however hard the application asks for
    // frames, nothing is ever presented.
    let mut gfx = CallLogGfx::new();
    gfx.create_ok = false;
    let mut eh = RecordingHandler::new();
    let mut display = NativeDisplayData::new(0, 0, DefaultClipboard::new());
    let c = conf(false);
    let mut s = MainThreadState::new(&c);
    s.update_surface(&mut gfx, WindowHandle(1));
    let inbox = vec![
        Message::Request(Request::ScheduleUpdate),
        Message::SurfaceCreated { window: WindowHandle(2) },
        Message::Request(Request::ScheduleUpdate),
        Message::Destroy,
    ];
    s.run_pump(&mut gfx, &mut eh, &mut display, false, &inbox);
    assert_eq!(presents(&gfx.log), 0);
    // update() still ticks while no surface exists.
    assert!(eh.log.contains(&AppEvent::Update));
    assert!(!eh.log.contains(&AppEvent::Draw));
}

#[test]
fn display_defaults_and_request_queue_order() {
    let mut display = NativeDisplayData::new(320, 200, DefaultClipboard::new());
    assert_eq!(display.screen_position, (0, 0));
    assert_eq!(display.dpi_scale, 1);
    assert!(!display.high_dpi);
    assert!(!display.quit_requested);
    assert!(!display.quit_ordered);
    assert!(!display.blocking_event_loop);
    assert!(display.native_requests.is_empty());
    assert!(display.dropped_files.paths.is_empty());
    assert!(display.dropped_files.bytes.is_empty());

    display.send_request(Request::ShowMouse(false));
    display.send_request(Request::SetWindowSize { new_width: 640, new_height: 480 });
    assert_eq!(
        display.native_requests,
        vec![
            Request::ShowMouse(false),
            Request::SetWindowSize { new_width: 640, new_height: 480 },
        ]
    );
}

#[test]
fn wants_block_only_when_blocking_and_no_render_owed() {
    let mut s = MainThreadState::new(&conf(true));
    assert!(s.update_requested);
    assert!(!s.wants_block(true));
    s.update_requested = false;
    assert!(s.wants_block(true));
    assert!(!s.wants_block(false));
}

#[test]
fn default_clipboard_holds_nothing() {
    let mut c = DefaultClipboard::new();
    assert_eq!(c.get(), None);
    c.set("anything");
    assert_eq!(c.get(), None);
}

#[test]
fn blocking_run_consumes_one_message_per_iteration() {
    let mut gfx = CallLogGfx::new();
    let mut eh = RecordingHandler::new();
    let mut display = NativeDisplayData::new(0, 0, DefaultClipboard::new());
    let mut s = MainThreadState::new(&conf(true));
    s.update_surface(&mut gfx, WindowHandle(1));
    s.update_requested = false;
    let before = gfx.log.len();

    let inbox = vec![
        Message::Request(Request::ScheduleUpdate),
        Message::Touch { phase: TouchPhase::Ended, touch_id: 2, x: 1, y: 2 },
        Message::Destroy,
    ];
    s.run_pump(&mut gfx, &mut eh, &mut display, true, &inbox);
    assert!(s.quit);
    // The schedule-update iteration renders once and clears the debt; the
    // touch and quit iterations render nothing.
    assert_eq!(
        eh.log,
        vec![
            AppEvent::Update,
            AppEvent::Draw,
            AppEvent::Touch { phase: TouchPhase::Ended, touch_id: 2, x: 1, y: 2 },
            AppEvent::QuitRequested,
        ]
    );
    assert_eq!(presents(&gfx.log), 1);
    assert_eq!(
        &gfx.log[before..],
        &[
            GfxCall::Present,
            GfxCall::MakeCurrentNone,
            GfxCall::DestroySurface,
            GfxCall::DestroyContext,
            GfxCall::Terminate,
        ]
    );
}
