//! The native graphics binding consumed by the frame pump: an opaque
//! capability offering context creation, drawable-surface creation and
//! destruction, binding ("make current"), and presentation, each reported as
//! success or failure.  Platform code implements it over the real native
//! library; [`CallLogGfx`] implements it as a pure in-memory recorder.
//!
//! Every call made on the binding is appended to a ghost call log, so the
//! pump's contracts can state exactly which native calls a message sequence
//! causes, and the gating law — a frame is presented only while a drawable is
//! live — can be stated over the log itself.

use vstd::prelude::*;
use crate::message::WindowHandle;

verus! {

/// One call made on the native graphics binding, as recorded in its log.
/// Calls that can fail carry the success flag the binding reported.
#[derive(Clone, Copy, Debug, PartialEq, Eq, Structural)]
pub enum GfxCall {
    /// One-time creation of the long-lived graphics context.
    CreateContext { sample_count: i32, alpha: bool, ok: bool },
    /// Creation of a drawable surface bound to a native window handle.
    CreateSurface { window: WindowHandle, ok: bool },
    /// Binding the context to the current drawable.
    MakeCurrent { ok: bool },
    /// Unbinding the context from any drawable.
    MakeCurrentNone,
    /// Releasing the current drawable.
    DestroySurface,
    /// Presenting (swapping) the current drawable.
    Present,
    /// Destroying the long-lived context.
    DestroyContext,
    /// Releasing the remaining native graphics resources.
    Terminate,
}

/// Whether, after the calls in `log`, a drawable surface is live and bound:
/// the last surface-affecting call was a successful `MakeCurrent`, with no
/// unbind or release after it.
pub open spec fn trace_active(log: Seq<GfxCall>) -> bool
    decreases log.len(),
{
    if log.len() == 0 {
        false
    } else {
        match log.last() {
            GfxCall::MakeCurrent { ok } => ok,
            GfxCall::MakeCurrentNone => false,
            GfxCall::DestroySurface => false,
            GfxCall::CreateSurface { .. } => false,
            _ => trace_active(log.drop_last()),
        }
    }
}

/// Every `Present` in `log` was issued at a moment when a drawable was live
/// and bound.
pub open spec fn presents_gated(log: Seq<GfxCall>) -> bool {
    forall|i: int|
        0 <= i < log.len() && log[i] is Present ==> trace_active(log.take(i))
}

/// How one appended call changes surface liveness: binding decides it,
/// unbinding, releasing and creating revoke it, and everything else leaves it
/// alone.
pub proof fn lemma_trace_active_push(log: Seq<GfxCall>, c: GfxCall)
    ensures
        trace_active(log.push(c)) == (match c {
            GfxCall::MakeCurrent { ok } => ok,
            GfxCall::MakeCurrentNone => false,
            GfxCall::DestroySurface => false,
            GfxCall::CreateSurface { .. } => false,
            _ => trace_active(log),
        }),
{
    assert(log.push(c).drop_last() =~= log);
    assert(log.push(c).last() == c);
}

/// Appending calls neither of which is a `Present` preserves the gating of
/// the presents already in the log.
pub proof fn lemma_presents_gated_append(log: Seq<GfxCall>, suffix: Seq<GfxCall>)
    requires
        presents_gated(log),
        forall|j: int|
            0 <= j < suffix.len() && suffix[j] is Present ==> trace_active(
                (log + suffix).take(log.len() + j),
            ),
    ensures
        presents_gated(log + suffix),
{
    let both = log + suffix;
    assert forall|i: int| 0 <= i < both.len() && both[i] is Present implies trace_active(
        both.take(i),
    ) by {
        if i < log.len() {
            assert(both.take(i) =~= log.take(i));
        } else {
            assert(both[i] == suffix[i - log.len()]);
        }
    }
}

/// The native graphics binding.  Methods return the success flag the native
/// call reported; nothing is assumed about which calls succeed.  Each method
/// records itself in the ghost log `calls()`.
pub trait NativeGfx {
    /// The ghost log of the calls made on this binding so far.
    spec fn calls(&self) -> Seq<GfxCall>;

    /// Creates the long-lived graphics context.  Called once per run, before
    /// any surface exists; failure is fatal to the run.
    fn create_context(&mut self, sample_count: i32, alpha: bool) -> (ok: bool)
        ensures
            final(self).calls() == old(self).calls().push(
                GfxCall::CreateContext { sample_count, alpha, ok },
            ),
    ;

    /// Creates a drawable surface bound to `window`.  Failure is recoverable:
    /// the pump stays in its no-surface state and keeps processing messages.
    fn create_window_surface(&mut self, window: WindowHandle) -> (ok: bool)
        ensures
            final(self).calls() == old(self).calls().push(
                GfxCall::CreateSurface { window, ok },
            ),
    ;

    /// Makes the context current against the just-created drawable.
    fn make_current(&mut self) -> (ok: bool)
        ensures
            final(self).calls() == old(self).calls().push(GfxCall::MakeCurrent { ok }),
    ;

    /// Unbinds the context from any drawable.
    fn make_current_none(&mut self)
        ensures
            final(self).calls() == old(self).calls().push(GfxCall::MakeCurrentNone),
    ;

    /// Releases the current drawable.
    fn destroy_surface(&mut self)
        ensures
            final(self).calls() == old(self).calls().push(GfxCall::DestroySurface),
    ;

    /// Presents (swaps) the current drawable.
    fn present(&mut self)
        ensures
            final(self).calls() == old(self).calls().push(GfxCall::Present),
    ;

    /// Destroys the long-lived context.
    fn destroy_context(&mut self)
        ensures
            final(self).calls() == old(self).calls().push(GfxCall::DestroyContext),
    ;

    /// Releases the remaining native graphics resources.
    fn terminate(&mut self)
        ensures
            final(self).calls() == old(self).calls().push(GfxCall::Terminate),
    ;
}

/// A graphics binding that performs no native work: it only keeps the call
/// record as a plain vector and answers each fallible call with the
/// configured flag.  This is the "fake" binding a test harness uses for
/// call-count and call-order assertions.
pub struct CallLogGfx {
    pub log: Vec<GfxCall>,
    /// What `create_context` reports.
    pub context_ok: bool,
    /// What `create_window_surface` reports.
    pub create_ok: bool,
    /// What `make_current` reports.
    pub current_ok: bool,
}

impl CallLogGfx {
    /// A recorder whose fallible calls all succeed.
    pub fn new() -> (r: CallLogGfx)
        ensures
            r.log@ == Seq::<GfxCall>::empty(),
            r.context_ok,
            r.create_ok,
            r.current_ok,
    {
        CallLogGfx { log: Vec::new(), context_ok: true, create_ok: true, current_ok: true }
    }
}

impl NativeGfx for CallLogGfx {
    open spec fn calls(&self) -> Seq<GfxCall> {
        self.log@
    }

    fn create_context(&mut self, sample_count: i32, alpha: bool) -> (ok: bool) {
        let ok = self.context_ok;
        self.log.push(GfxCall::CreateContext { sample_count, alpha, ok });
        ok
    }

    fn create_window_surface(&mut self, window: WindowHandle) -> (ok: bool) {
        let ok = self.create_ok;
        self.log.push(GfxCall::CreateSurface { window, ok });
        ok
    }

    fn make_current(&mut self) -> (ok: bool) {
        let ok = self.current_ok;
        self.log.push(GfxCall::MakeCurrent { ok });
        ok
    }

    fn make_current_none(&mut self) {
        self.log.push(GfxCall::MakeCurrentNone);
    }

    fn destroy_surface(&mut self) {
        self.log.push(GfxCall::DestroySurface);
    }

    fn present(&mut self) {
        self.log.push(GfxCall::Present);
    }

    fn destroy_context(&mut self) {
        self.log.push(GfxCall::DestroyContext);
    }

    fn terminate(&mut self) {
        self.log.push(GfxCall::Terminate);
    }
}

} // verus!
