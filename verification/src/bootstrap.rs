//! The bootstrap handshake: before any graphics context exists, the
//! application thread needs a native window handle and an initial size.  The
//! platform may defer real window availability past process start (permission
//! dialogs, asynchronous window realization), so the thread polls the channel
//! and feeds every received message to this little machine, which discards
//! everything except the first `SurfaceCreated` and then the first
//! `SurfaceChanged`.  If the platform never delivers them, the poll simply
//! never finishes: no window, no progress.

use vstd::prelude::*;
use crate::message::{Message, WindowHandle};

verus! {

/// Where the handshake stands.
#[derive(Clone, Copy, Debug, PartialEq, Eq, Structural)]
pub enum BootstrapPhase {
    /// No window handle seen yet.
    AwaitSurface,
    /// A handle arrived; waiting for the first size.
    AwaitSize { window: WindowHandle },
    /// Both captured: a graphics context may now be created.
    Ready { window: WindowHandle, width: i32, height: i32 },
}

/// What one received message does to the handshake.
pub open spec fn spec_bootstrap_step(phase: BootstrapPhase, m: Message) -> BootstrapPhase {
    match phase {
        BootstrapPhase::AwaitSurface => match m {
            Message::SurfaceCreated { window } => BootstrapPhase::AwaitSize { window },
            _ => phase,
        },
        BootstrapPhase::AwaitSize { window } => match m {
            Message::SurfaceChanged { width, height } => BootstrapPhase::Ready {
                window,
                width,
                height,
            },
            _ => phase,
        },
        BootstrapPhase::Ready { .. } => phase,
    }
}

/// The handshake machine.  The driver feeds it each message it polls off the
/// channel and stops polling once `is_ready` holds.
pub struct Bootstrap {
    pub phase: BootstrapPhase,
}

impl Bootstrap {
    pub fn new() -> (r: Bootstrap)
        ensures
            r.phase == BootstrapPhase::AwaitSurface,
    {
        Bootstrap { phase: BootstrapPhase::AwaitSurface }
    }

    /// Feeds one received message to the handshake; every message that is not
    /// the one awaited is discarded.
    pub fn step(&mut self, m: Message)
        ensures
            final(self).phase == spec_bootstrap_step(old(self).phase, m),
    {
        match self.phase {
            BootstrapPhase::AwaitSurface => {
                if let Message::SurfaceCreated { window } = m {
                    self.phase = BootstrapPhase::AwaitSize { window };
                }
            },
            BootstrapPhase::AwaitSize { window } => {
                if let Message::SurfaceChanged { width, height } = m {
                    self.phase = BootstrapPhase::Ready { window, width, height };
                }
            },
            BootstrapPhase::Ready { .. } => {},
        }
    }

    pub fn is_ready(&self) -> (r: bool)
        ensures
            r == (self.phase is Ready),
    {
        match self.phase {
            BootstrapPhase::Ready { .. } => true,
            _ => false,
        }
    }
}

} // verus!
