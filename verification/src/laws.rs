//! The laws of the frame pump, proved over the spec step functions of
//! [`crate::pump`]: presentation is gated on a live surface, surface
//! destruction is idempotent, recreation releases the old drawable first,
//! the modifier bitset tracks key pairs, invalid code points are dropped,
//! and the blocking policy renders only when a render is owed.

use vstd::prelude::*;
use crate::event::{AppEvent, KeyMods};
use crate::gfx::{
    lemma_presents_gated_append, lemma_trace_active_push, presents_gated, trace_active, GfxCall,
};
use crate::message::{KeyCode, Message, Request, WindowHandle};
use crate::pump::{
    combine, is_scalar_value, spec_destroy_surface, spec_frame, spec_iteration,
    spec_process_message, spec_process_messages, spec_run, spec_shutdown, spec_update_surface,
    MainThreadState,
};

verus! {

/// The pump's surface state agrees with what the graphics call trace shows:
/// it records `Active` exactly while the trace shows a live, bound drawable.
pub open spec fn surface_synced(s: MainThreadState, log: Seq<GfxCall>) -> bool {
    (s.surface is Active) == trace_active(log)
}

/// Releasing the surface keeps the state in step with the call trace, keeps
/// every present gated, and leaves the trace showing no live drawable.
pub proof fn lemma_destroy_preserves_sync(s: MainThreadState, log: Seq<GfxCall>)
    requires
        surface_synced(s, log),
        presents_gated(log),
    ensures
        ({
            let r = spec_destroy_surface(s);
            &&& surface_synced(r.state, log + r.gfx)
            &&& presents_gated(log + r.gfx)
            &&& !trace_active(log + r.gfx)
        }),
{
    let r = spec_destroy_surface(s);
    if s.surface is Active {
        assert(log + r.gfx =~= log.push(GfxCall::MakeCurrentNone).push(GfxCall::DestroySurface));
        lemma_trace_active_push(log, GfxCall::MakeCurrentNone);
        lemma_trace_active_push(log.push(GfxCall::MakeCurrentNone), GfxCall::DestroySurface);
        assert(r.gfx[0] == GfxCall::MakeCurrentNone);
        assert(r.gfx[1] == GfxCall::DestroySurface);
        lemma_presents_gated_append(log, r.gfx);
    } else {
        assert(log + r.gfx =~= log);
    }
}

/// Rebinding to a window keeps the state in step with the call trace and
/// keeps every present gated, whatever the native binding answered.
pub proof fn lemma_update_preserves_sync(
    s: MainThreadState,
    log: Seq<GfxCall>,
    window: WindowHandle,
    created: bool,
    made_current: bool,
)
    requires
        surface_synced(s, log),
        presents_gated(log),
    ensures
        ({
            let r = spec_update_surface(s, window, created, made_current);
            &&& surface_synced(r.state, log + r.gfx)
            &&& presents_gated(log + r.gfx)
        }),
{
    let d = spec_destroy_surface(s);
    let r = spec_update_surface(s, window, created, made_current);
    lemma_destroy_preserves_sync(s, log);
    let log1 = log + d.gfx;
    if !created {
        let tail = seq![GfxCall::CreateSurface { window, ok: false }];
        assert(log + r.gfx =~= log1.push(tail[0]));
        lemma_trace_active_push(log1, tail[0]);
        assert(!(tail[0] is Present));
        lemma_presents_gated_append(log1, tail);
        assert(log1 + tail =~= log + r.gfx);
    } else if !made_current {
        let tail = seq![
            GfxCall::CreateSurface { window, ok: true },
            GfxCall::MakeCurrent { ok: false },
            GfxCall::DestroySurface,
        ];
        assert(log + r.gfx =~= log1.push(tail[0]).push(tail[1]).push(tail[2]));
        lemma_trace_active_push(log1, tail[0]);
        lemma_trace_active_push(log1.push(tail[0]), tail[1]);
        lemma_trace_active_push(log1.push(tail[0]).push(tail[1]), tail[2]);
        lemma_presents_gated_append(log1, tail);
        assert(log1 + tail =~= log + r.gfx);
    } else {
        let tail = seq![
            GfxCall::CreateSurface { window, ok: true },
            GfxCall::MakeCurrent { ok: true },
        ];
        assert(log + r.gfx =~= log1.push(tail[0]).push(tail[1]));
        lemma_trace_active_push(log1, tail[0]);
        lemma_trace_active_push(log1.push(tail[0]), tail[1]);
        lemma_presents_gated_append(log1, tail);
        assert(log1 + tail =~= log + r.gfx);
    }
}

/// Processing any one message keeps the state in step with the call trace and
/// keeps every present gated; no message step presents a frame by itself.
pub proof fn lemma_message_preserves_sync(
    s: MainThreadState,
    log: Seq<GfxCall>,
    m: Message,
    created: bool,
    made_current: bool,
)
    requires
        surface_synced(s, log),
        presents_gated(log),
    ensures
        ({
            let r = spec_process_message(s, m, created, made_current);
            &&& surface_synced(r.state, log + r.gfx)
            &&& presents_gated(log + r.gfx)
        }),
{
    let r = spec_process_message(s, m, created, made_current);
    match m {
        Message::SurfaceCreated { window } => {
            lemma_update_preserves_sync(s, log, window, created, made_current);
        },
        Message::SurfaceDestroyed => {
            lemma_destroy_preserves_sync(s, log);
        },
        _ => {
            assert(log + r.gfx =~= log);
        },
    }
}

/// Processing a whole message sequence keeps the state in step with the call
/// trace and keeps every present gated.
pub proof fn lemma_messages_preserve_sync(
    s: MainThreadState,
    log: Seq<GfxCall>,
    ms: Seq<Message>,
    os: Seq<(bool, bool)>,
)
    requires
        surface_synced(s, log),
        presents_gated(log),
    ensures
        ({
            let r = spec_process_messages(s, ms, os);
            &&& surface_synced(r.state, log + r.gfx)
            &&& presents_gated(log + r.gfx)
        }),
    decreases ms.len(),
{
    if ms.len() == 0 {
        assert(log + spec_process_messages(s, ms, os).gfx =~= log);
    } else {
        let r1 = spec_process_messages(s, ms.drop_last(), os.drop_last());
        let r2 = spec_process_message(r1.state, ms.last(), os.last().0, os.last().1);
        lemma_messages_preserve_sync(s, log, ms.drop_last(), os.drop_last());
        lemma_message_preserves_sync(r1.state, log + r1.gfx, ms.last(), os.last().0, os.last().1);
        assert((log + r1.gfx) + r2.gfx =~= log + (r1.gfx + r2.gfx));
    }
}

/// The render step presents only while the trace shows a live drawable, and
/// keeps state and trace in step.
pub proof fn lemma_frame_preserves_sync(s: MainThreadState, log: Seq<GfxCall>)
    requires
        surface_synced(s, log),
        presents_gated(log),
    ensures
        ({
            let r = spec_frame(s);
            &&& surface_synced(r.state, log + r.gfx)
            &&& presents_gated(log + r.gfx)
        }),
{
    let r = spec_frame(s);
    if s.surface is Active {
        assert(log + r.gfx =~= log.push(GfxCall::Present));
        lemma_trace_active_push(log, GfxCall::Present);
        assert((log + r.gfx).take(log.len() as int) =~= log);
        lemma_presents_gated_append(log, r.gfx);
    } else {
        assert(log + r.gfx =~= log);
    }
}

/// One whole iteration keeps the state in step with the call trace and keeps
/// every present gated.
pub proof fn lemma_iteration_preserves_sync(
    s: MainThreadState,
    log: Seq<GfxCall>,
    blocking_event_loop: bool,
    ms: Seq<Message>,
    os: Seq<(bool, bool)>,
)
    requires
        surface_synced(s, log),
        presents_gated(log),
    ensures
        ({
            let r = spec_iteration(s, blocking_event_loop, ms, os);
            &&& surface_synced(r.state, log + r.gfx)
            &&& presents_gated(log + r.gfx)
        }),
{
    let r1 = spec_process_messages(s, ms, os);
    lemma_messages_preserve_sync(s, log, ms, os);
    if !blocking_event_loop || r1.state.update_requested {
        let rf = spec_frame(r1.state);
        lemma_frame_preserves_sync(r1.state, log + r1.gfx);
        assert((log + r1.gfx) + rf.gfx =~= log + (r1.gfx + rf.gfx));
    }
}

/// The teardown keeps every present gated and leaves the trace showing no
/// live drawable.
pub proof fn lemma_shutdown_preserves_sync(s: MainThreadState, log: Seq<GfxCall>)
    requires
        surface_synced(s, log),
        presents_gated(log),
    ensures
        ({
            let r = spec_shutdown(s);
            &&& surface_synced(r.state, log + r.gfx)
            &&& presents_gated(log + r.gfx)
        }),
{
    let r = spec_shutdown(s);
    if s.surface is Active {
        assert(log + r.gfx =~= log.push(GfxCall::MakeCurrentNone).push(
            GfxCall::DestroySurface,
        ).push(GfxCall::DestroyContext).push(GfxCall::Terminate));
        let l1 = log.push(GfxCall::MakeCurrentNone);
        let l2 = l1.push(GfxCall::DestroySurface);
        let l3 = l2.push(GfxCall::DestroyContext);
        lemma_trace_active_push(log, GfxCall::MakeCurrentNone);
        lemma_trace_active_push(l1, GfxCall::DestroySurface);
        lemma_trace_active_push(l2, GfxCall::DestroyContext);
        lemma_trace_active_push(l3, GfxCall::Terminate);
        assert(r.gfx[0] == GfxCall::MakeCurrentNone);
        assert(r.gfx[1] == GfxCall::DestroySurface);
        assert(r.gfx[2] == GfxCall::DestroyContext);
        assert(r.gfx[3] == GfxCall::Terminate);
        lemma_presents_gated_append(log, r.gfx);
    } else {
        assert(log + r.gfx =~= log.push(GfxCall::MakeCurrentNone).push(
            GfxCall::DestroyContext,
        ).push(GfxCall::Terminate));
        let l1 = log.push(GfxCall::MakeCurrentNone);
        let l2 = l1.push(GfxCall::DestroyContext);
        lemma_trace_active_push(log, GfxCall::MakeCurrentNone);
        lemma_trace_active_push(l1, GfxCall::DestroyContext);
        lemma_trace_active_push(l2, GfxCall::Terminate);
        assert(r.gfx[0] == GfxCall::MakeCurrentNone);
        assert(r.gfx[1] == GfxCall::DestroyContext);
        assert(r.gfx[2] == GfxCall::Terminate);
        lemma_presents_gated_append(log, r.gfx);
    }
}

/// No draw or present without a live surface, over every message stream: for
/// any whole run of the pump, every `Present` in the graphics call trace was
/// issued at a moment when the trace showed an unrevoked successful surface
/// binding, and the machine's surface state stays in step with the trace
/// throughout.
pub proof fn lemma_run_presents_gated(
    s: MainThreadState,
    log: Seq<GfxCall>,
    blocking_event_loop: bool,
    ms: Seq<Message>,
    os: Seq<(bool, bool)>,
)
    requires
        surface_synced(s, log),
        presents_gated(log),
    ensures
        ({
            let r = spec_run(s, blocking_event_loop, ms, os);
            &&& surface_synced(r.state, log + r.gfx)
            &&& presents_gated(log + r.gfx)
        }),
    decreases ms.len(),
{
    if s.quit || ms.len() == 0 {
        lemma_shutdown_preserves_sync(s, log);
    } else if blocking_event_loop && !s.update_requested {
        let r1 = spec_iteration(s, blocking_event_loop, ms.take(1), os.take(1));
        let r2 = spec_run(r1.state, blocking_event_loop, ms.skip(1), os.skip(1));
        lemma_iteration_preserves_sync(s, log, blocking_event_loop, ms.take(1), os.take(1));
        lemma_run_presents_gated(
            r1.state,
            log + r1.gfx,
            blocking_event_loop,
            ms.skip(1),
            os.skip(1),
        );
        assert((log + r1.gfx) + r2.gfx =~= log + (r1.gfx + r2.gfx));
    } else {
        let r1 = spec_iteration(s, blocking_event_loop, ms, os);
        let r2 = spec_run(
            r1.state,
            blocking_event_loop,
            Seq::<Message>::empty(),
            Seq::<(bool, bool)>::empty(),
        );
        lemma_iteration_preserves_sync(s, log, blocking_event_loop, ms, os);
        lemma_run_presents_gated(
            r1.state,
            log + r1.gfx,
            blocking_event_loop,
            Seq::<Message>::empty(),
            Seq::<(bool, bool)>::empty(),
        );
        assert((log + r1.gfx) + r2.gfx =~= log + (r1.gfx + r2.gfx));
    }
}

/// Whether, after the messages in `ms`, a surface may be active: the last
/// surface-lifecycle transition among them was a `SurfaceCreated` — counting
/// an implicit recreation — with no `SurfaceDestroyed` after it; if `ms` has
/// no lifecycle transition at all, whatever held before still holds.
pub open spec fn active_allowed(ms: Seq<Message>, initially: bool) -> bool
    decreases ms.len(),
{
    if ms.len() == 0 {
        initially
    } else {
        match ms.last() {
            Message::SurfaceCreated { .. } => true,
            Message::SurfaceDestroyed => false,
            _ => active_allowed(ms.drop_last(), initially),
        }
    }
}

/// At the message level: the pump's surface can only be active if the most
/// recent lifecycle transition it observed was a `SurfaceCreated` without a
/// later `SurfaceDestroyed` (or no transition arrived and a surface was
/// already active).
pub proof fn lemma_active_implies_recent_created(
    s: MainThreadState,
    ms: Seq<Message>,
    os: Seq<(bool, bool)>,
)
    ensures
        spec_process_messages(s, ms, os).state.surface is Active ==> active_allowed(
            ms,
            s.surface is Active,
        ),
    decreases ms.len(),
{
    if ms.len() == 0 {
    } else {
        lemma_active_implies_recent_created(s, ms.drop_last(), os.drop_last());
    }
}

/// The render step never changes which surface is live, so the message-level
/// law extends through whole iterations: after an iteration, a surface can
/// only be active if the messages it processed allow it.
pub proof fn lemma_iteration_active_implies_recent_created(
    s: MainThreadState,
    blocking_event_loop: bool,
    ms: Seq<Message>,
    os: Seq<(bool, bool)>,
)
    ensures
        spec_iteration(s, blocking_event_loop, ms, os).state.surface is Active ==> active_allowed(
            ms,
            s.surface is Active,
        ),
{
    lemma_active_implies_recent_created(s, ms, os);
}

/// `SurfaceDestroyed` is idempotent: a second one in a row leaves the same
/// state — no surface — and issues no native call at all.
pub proof fn lemma_surface_destroyed_idempotent(
    s: MainThreadState,
    o1: (bool, bool),
    o2: (bool, bool),
)
    ensures
        ({
            let r1 = spec_process_message(s, Message::SurfaceDestroyed, o1.0, o1.1);
            let r2 = spec_process_message(r1.state, Message::SurfaceDestroyed, o2.0, o2.1);
            &&& r1.state.surface is NoSurface
            &&& r2.state == r1.state
            &&& r2.gfx == Seq::<GfxCall>::empty()
            &&& r2.app == Seq::<AppEvent>::empty()
        }),
{
}

/// A `SurfaceCreated` arriving while a surface is already active releases the
/// old drawable — unbind, then destroy — before creating the new one.
pub proof fn lemma_recreate_destroys_old_first(
    s: MainThreadState,
    window: WindowHandle,
    created: bool,
    made_current: bool,
)
    requires
        s.surface is Active,
    ensures
        ({
            let r = spec_process_message(
                s,
                Message::SurfaceCreated { window },
                created,
                made_current,
            );
            &&& r.gfx.len() >= 3
            &&& r.gfx[0] == GfxCall::MakeCurrentNone
            &&& r.gfx[1] == GfxCall::DestroySurface
            &&& r.gfx[2] == (GfxCall::CreateSurface { window, ok: created })
        }),
{
    let r = spec_process_message(s, Message::SurfaceCreated { window }, created, made_current);
    let d = spec_destroy_surface(s);
    assert(d.gfx.len() == 2);
    if !created {
        assert(r.gfx == d.gfx.push(GfxCall::CreateSurface { window, ok: false }));
    }
}

/// Whether a key participates in the modifier bitset.
pub open spec fn is_modifier_key(k: KeyCode) -> bool {
    ||| k == KeyCode::LeftShift
    ||| k == KeyCode::RightShift
    ||| k == KeyCode::LeftControl
    ||| k == KeyCode::RightControl
    ||| k == KeyCode::LeftAlt
    ||| k == KeyCode::RightAlt
    ||| k == KeyCode::LeftSuper
    ||| k == KeyCode::RightSuper
}

/// A shift press leaves the shift flag held; the matching release leaves it
/// released again, with the rest of the bitset untouched either way.
pub proof fn lemma_keymods_shift_down_up(s: MainThreadState, o1: (bool, bool), o2: (bool, bool))
    ensures
        ({
            let r1 = spec_process_message(
                s,
                Message::KeyDown { keycode: KeyCode::LeftShift },
                o1.0,
                o1.1,
            );
            let r2 = spec_process_message(
                r1.state,
                Message::KeyUp { keycode: KeyCode::LeftShift },
                o2.0,
                o2.1,
            );
            &&& r1.state.keymods == (KeyMods { shift: true, ..s.keymods })
            &&& r2.state.keymods == (KeyMods { shift: false, ..s.keymods })
            &&& !r2.state.keymods.shift
        }),
{
}

/// Key events for anything but the modifier keys leave the bitset unchanged.
pub proof fn lemma_keymods_unrelated_key(
    s: MainThreadState,
    k: KeyCode,
    o1: (bool, bool),
    o2: (bool, bool),
)
    requires
        !is_modifier_key(k),
    ensures
        spec_process_message(s, Message::KeyDown { keycode: k }, o1.0, o1.1).state.keymods
            == s.keymods,
        spec_process_message(s, Message::KeyUp { keycode: k }, o2.0, o2.1).state.keymods
            == s.keymods,
{
}

/// An out-of-range code point produces no character invocation at all; a
/// valid one produces exactly one, carrying that character, with no modifiers
/// reported and no repeat.
pub proof fn lemma_character_filtering(s: MainThreadState, c: u32, o: (bool, bool))
    ensures
        ({
            let r = spec_process_message(s, Message::Character { character: c }, o.0, o.1);
            &&& r.state == s
            &&& r.gfx == Seq::<GfxCall>::empty()
            &&& !is_scalar_value(c) ==> r.app == Seq::<AppEvent>::empty()
            &&& is_scalar_value(c) ==> r.app == seq![
                AppEvent::Char {
                    character: c as char,
                    mods: KeyMods::spec_none_held(),
                    repeat: false,
                },
            ]
        }),
{
}

/// No message step renders: processing messages never invokes update or draw
/// and never presents.
pub proof fn lemma_message_never_renders(
    s: MainThreadState,
    m: Message,
    created: bool,
    made_current: bool,
)
    ensures
        ({
            let r = spec_process_message(s, m, created, made_current);
            &&& !r.app.contains(AppEvent::Update)
            &&& !r.app.contains(AppEvent::Draw)
            &&& forall|i: int| 0 <= i < r.gfx.len() ==> !(r.gfx[i] is Present)
        }),
{
    let r = spec_process_message(s, m, created, made_current);
    assert forall|i: int| 0 <= i < r.app.len() implies r.app[i] != AppEvent::Update && r.app[i]
        != AppEvent::Draw by {}
}

/// In blocking mode with no render owed, the iteration consumes exactly one
/// blocking receive; if that message does not make a render owed, nothing is
/// updated, drawn or presented.  Once a `ScheduleUpdate` request is
/// processed, the iteration invokes update and — with a surface active —
/// draw and exactly one present, and the render debt is cleared.
pub proof fn lemma_blocking_iteration(s: MainThreadState, m: Message, o: (bool, bool))
    requires
        !s.update_requested,
    ensures
        ({
            let r = spec_iteration(s, true, seq![m], seq![o]);
            let r1 = spec_process_message(s, m, o.0, o.1);
            &&& (!r1.state.update_requested ==> r.state == r1.state && r.app == r1.app && r.gfx
                == r1.gfx)
            &&& (!r1.state.update_requested ==> !r.app.contains(AppEvent::Update)
                && !r.app.contains(AppEvent::Draw) && (forall|i: int|
                0 <= i < r.gfx.len() ==> !(r.gfx[i] is Present)))
            &&& (m == Message::Request(Request::ScheduleUpdate) && s.surface is Active ==> r.app
                == seq![AppEvent::Update, AppEvent::Draw] && r.gfx == seq![GfxCall::Present]
                && !r.state.update_requested)
            &&& (m == Message::Request(Request::ScheduleUpdate) && s.surface is NoSurface
                ==> r.app == seq![AppEvent::Update] && r.gfx == Seq::<GfxCall>::empty()
                && r.state.update_requested)
        }),
{
    crate::pump::lemma_process_single(s, m, o);
    let r1 = spec_process_message(s, m, o.0, o.1);
    let rp = spec_process_messages(s, seq![m], seq![o]);
    lemma_message_never_renders(s, m, o.0, o.1);
    if !r1.state.update_requested {
        assert(spec_iteration(s, true, seq![m], seq![o]) == rp);
    } else {
        let rf = spec_frame(rp.state);
        if m == Message::Request(Request::ScheduleUpdate) {
            assert(rp.app + rf.app =~= rf.app);
            assert(rp.gfx + rf.gfx =~= rf.gfx);
        }
    }
}

/// In blocking mode with no render owed, a run consumes exactly one message
/// per iteration: the next iteration sees only the single received message.
pub proof fn lemma_blocking_consumes_one(
    s: MainThreadState,
    ms: Seq<Message>,
    os: Seq<(bool, bool)>,
)
    requires
        !s.quit,
        !s.update_requested,
        ms.len() > 0,
    ensures
        spec_run(s, true, ms, os) == combine(
            spec_iteration(s, true, ms.take(1), os.take(1)),
            spec_run(
                spec_iteration(s, true, ms.take(1), os.take(1)).state,
                true,
                ms.skip(1),
                os.skip(1),
            ),
        ),
{
}

/// A run that begins before any graphics call was made never presents a frame
/// while no surface is live; the unconditional form of the gating law for a
/// machine whose state says no surface exists.
pub proof fn lemma_fresh_run_presents_gated(
    s: MainThreadState,
    blocking_event_loop: bool,
    ms: Seq<Message>,
    os: Seq<(bool, bool)>,
)
    requires
        s.surface is NoSurface,
    ensures
        presents_gated(spec_run(s, blocking_event_loop, ms, os).gfx),
{
    let empty = Seq::<GfxCall>::empty();
    lemma_run_presents_gated(s, empty, blocking_event_loop, ms, os);
    assert(empty + spec_run(s, blocking_event_loop, ms, os).gfx =~= spec_run(
        s,
        blocking_event_loop,
        ms,
        os,
    ).gfx);
}

} // verus!
