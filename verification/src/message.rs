//! The two closed message vocabularies of the bridge: `Message` values travel
//! from platform callback threads to the application thread, and `Request`
//! values travel the other way, from the application back to platform-side
//! handling.

use vstd::prelude::*;

verus! {

/// An opaque native window handle, as delivered by the platform's
/// surface-created callback.
///
/// The raw handle is only ever produced and consumed by platform code; the
/// bridge treats it as a transferable value.  Sending it across the channel to
/// the application thread is a deliberate, documented hand-off: the platform
/// side never touches the handle again after enqueueing it, and the
/// application thread mutates surface state only after receipt.
#[derive(Clone, Copy, Debug, PartialEq, Eq, Structural)]
pub struct WindowHandle(pub u64);

/// Mouse cursor icons an application may request via
/// [`Request::SetMouseCursor`].
#[derive(Clone, Copy, Debug, PartialEq, Eq, Structural)]
pub enum CursorIcon {
    Default,
    Help,
    Pointer,
    Wait,
    Crosshair,
    Text,
    Move,
    NotAllowed,
    EWResize,
    NSResize,
    NESWResize,
    NWSEResize,
}

/// A command from the application to the platform side.
#[derive(Clone, Copy, Debug, PartialEq, Eq, Structural)]
pub enum Request {
    ScheduleUpdate,
    SetCursorGrab(bool),
    ShowMouse(bool),
    SetMouseCursor(CursorIcon),
    SetWindowSize { new_width: u32, new_height: u32 },
    SetWindowPosition { new_x: u32, new_y: u32 },
    SetFullscreen(bool),
    ShowKeyboard(bool),
}

/// The phase of a touch event, forwarded verbatim to the application.
#[derive(Clone, Copy, Debug, PartialEq, Eq, Structural)]
pub enum TouchPhase {
    Started,
    Moved,
    Ended,
    Cancelled,
}

/// A key identity, independent of the platform's raw key codes.
///
/// Per-platform key-code tables live with the platform callback adapters; the
/// bridge only needs the identities themselves, and it gives the four
/// modifier keys (in their left and right forms) special treatment when
/// maintaining the modifier bitset.
#[derive(Clone, Copy, Debug, PartialEq, Eq, Structural)]
pub enum KeyCode {
    Space,
    Enter,
    Escape,
    Tab,
    Backspace,
    Insert,
    Delete,
    Left,
    Right,
    Up,
    Down,
    Home,
    End,
    PageUp,
    PageDown,
    LeftShift,
    LeftControl,
    LeftAlt,
    LeftSuper,
    RightShift,
    RightControl,
    RightAlt,
    RightSuper,
    Unknown,
}

/// A platform-to-application message.  Values are immutable once constructed
/// and are consumed exactly once by the frame pump.
#[derive(Clone, Copy, Debug, PartialEq, Eq, Structural)]
pub enum Message {
    SurfaceChanged { width: i32, height: i32 },
    SurfaceCreated { window: WindowHandle },
    SurfaceDestroyed,
    Touch { phase: TouchPhase, touch_id: u64, x: i32, y: i32 },
    Character { character: u32 },
    KeyDown { keycode: KeyCode },
    KeyUp { keycode: KeyCode },
    Pause,
    Resume,
    Destroy,
    Request(Request),
}

/// Maps a platform key-event action code to the message it should enqueue:
/// action `0` is a key press, action `1` is a release, and any other action is
/// not forwarded.
pub fn key_event_message(action: u32, keycode: KeyCode) -> (r: Option<Message>)
    ensures
        action == 0 ==> r == Some(Message::KeyDown { keycode }),
        action == 1 ==> r == Some(Message::KeyUp { keycode }),
        action != 0 && action != 1 ==> r is None,
{
    if action == 0 {
        Some(Message::KeyDown { keycode })
    } else if action == 1 {
        Some(Message::KeyUp { keycode })
    } else {
        None
    }
}

} // verus!
