//! The shared display state: the one record deliberately shared between the
//! platform callback threads and the application thread.  The record itself
//! is plain data; whoever shares it across threads guards it with a
//! mutual-exclusion lock and hands the functions here an exclusive reference,
//! so every contract below speaks of a single lock-holding caller.

use vstd::prelude::*;
use crate::message::Request;

verus! {

/// A clipboard capability, polymorphic over get and set.
pub trait Clipboard: Send + Sync {
    fn get(&mut self) -> Option<String>;

    fn set(&mut self, data: &str);
}

/// The clipboard used where the platform offers none: `get` finds nothing and
/// `set` discards its argument.
pub struct DefaultClipboard;

impl DefaultClipboard {
    pub fn new() -> DefaultClipboard {
        DefaultClipboard
    }
}

impl Clipboard for DefaultClipboard {
    fn get(&mut self) -> Option<String> {
        None
    }

    fn set(&mut self, _data: &str) {
        // Deliberately nothing: there is no platform clipboard to write to.
    }
}

/// Files dropped onto the window from outside, staged for the application:
/// their paths and their byte payloads.
pub struct DroppedFiles {
    pub paths: Vec<String>,
    pub bytes: Vec<Vec<u8>>,
}

impl Default for DroppedFiles {
    fn default() -> (r: DroppedFiles)
        ensures
            r.paths@ == Seq::<String>::empty(),
            r.bytes@ == Seq::<Vec<u8>>::empty(),
    {
        DroppedFiles { paths: Vec::new(), bytes: Vec::new() }
    }
}

/// The process-wide display record: screen geometry, DPI metadata, quit
/// flags, the staged file drops, the clipboard capability, and the queue of
/// requests awaiting platform-side delivery.
///
/// Exactly one live instance exists per running application.  It is created
/// once the bootstrap handshake completes and is never reconstructed while
/// the application thread runs.
pub struct NativeDisplayData<C: Clipboard> {
    pub screen_width: i32,
    pub screen_height: i32,
    pub screen_position: (u32, u32),
    /// The whole-number DPI scale factor reported to the application.
    pub dpi_scale: u32,
    pub high_dpi: bool,
    /// The application asked to quit.
    pub quit_requested: bool,
    /// The platform is forcibly terminating.
    pub quit_ordered: bool,
    /// Requests enqueued by the application, in order, awaiting delivery to
    /// platform-side handling.  Any thread may enqueue while holding the lock.
    pub native_requests: Vec<Request>,
    pub clipboard: C,
    pub dropped_files: DroppedFiles,
    pub blocking_event_loop: bool,
}

impl<C: Clipboard> NativeDisplayData<C> {
    pub fn new(screen_width: i32, screen_height: i32, clipboard: C) -> (r:
        NativeDisplayData<C>)
        ensures
            r.screen_width == screen_width,
            r.screen_height == screen_height,
            r.screen_position == (0u32, 0u32),
            r.dpi_scale == 1,
            !r.high_dpi,
            !r.quit_requested,
            !r.quit_ordered,
            r.native_requests@ == Seq::<Request>::empty(),
            r.clipboard == clipboard,
            r.dropped_files.paths@ == Seq::<String>::empty(),
            r.dropped_files.bytes@ == Seq::<Vec<u8>>::empty(),
            !r.blocking_event_loop,
    {
        NativeDisplayData {
            screen_width,
            screen_height,
            screen_position: (0, 0),
            dpi_scale: 1,
            high_dpi: false,
            quit_requested: false,
            quit_ordered: false,
            native_requests: Vec::new(),
            clipboard,
            dropped_files: Default::default(),
            blocking_event_loop: false,
        }
    }

    /// Enqueues a request toward platform-side handling.  This is the
    /// send-capable path of the reverse channel: the platform side drains the
    /// queue and performs the requests asynchronously.
    pub fn send_request(&mut self, request: Request)
        ensures
            final(self).native_requests@ == old(self).native_requests@.push(request),
            final(self).screen_width == old(self).screen_width,
            final(self).screen_height == old(self).screen_height,
            final(self).screen_position == old(self).screen_position,
            final(self).dpi_scale == old(self).dpi_scale,
            final(self).high_dpi == old(self).high_dpi,
            final(self).quit_requested == old(self).quit_requested,
            final(self).quit_ordered == old(self).quit_ordered,
            final(self).clipboard == old(self).clipboard,
            final(self).dropped_files == old(self).dropped_files,
            final(self).blocking_event_loop == old(self).blocking_event_loop,
    {
        self.native_requests.push(request);
    }
}

} // verus!
