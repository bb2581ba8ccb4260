//! The frame pump: the application-thread state machine that drains messages,
//! keeps the drawable surface in lockstep with the window lifecycle, and
//! invokes the application's update and draw capabilities under the
//! configured blocking or polling policy.
//!
//! Every step of the machine is specified twice over: a `spec` function gives
//! the mathematical step — the next state, the native graphics calls made,
//! the event-handler invocations made, and the display-geometry update — and
//! the executable function's contract says its effect equals that step.  The
//! laws about the machine (presentation gating, idempotent destruction, and
//! the rest) are proved over the spec functions in [`crate::laws`].

use vstd::prelude::*;
use crate::display::{Clipboard, NativeDisplayData};
use crate::event::{AppEvent, EventHandler, KeyMods};
use crate::gfx::{GfxCall, NativeGfx};
use crate::message::{KeyCode, Message, Request, WindowHandle};

verus! {

/// Whether a drawable surface is currently usable.  `Active` gates rendering:
/// the pump presents a frame only in this state.
#[derive(Clone, Copy, Debug, PartialEq, Eq, Structural)]
pub enum SurfaceState {
    NoSurface,
    Active,
}

/// The configuration options the pump recognizes.
#[derive(Clone, Copy, Debug, PartialEq, Eq, Structural)]
pub struct Conf {
    /// Affects initial DPI reporting.
    pub high_dpi: bool,
    /// Selects the pump's polling policy: sleep until a message arrives
    /// instead of polling every iteration.
    pub blocking_event_loop: bool,
    /// Initial fullscreen intent.
    pub fullscreen: bool,
    /// Passed opaquely to graphics-context creation.
    pub sample_count: i32,
    /// Passed opaquely to graphics-context creation.
    pub framebuffer_alpha: bool,
}

/// The outcome a request is answered with: `ScheduleUpdate` is handled by the
/// pump itself; every other kind is an explicit "unsupported on this
/// platform" rather than a silent success.
#[derive(Clone, Copy, Debug, PartialEq, Eq, Structural)]
pub enum RequestOutcome {
    Handled,
    Unsupported,
}

/// The frame pump's own state.  It is owned exclusively by the application
/// thread; no other execution context touches it.
#[derive(Clone, Copy, Debug, PartialEq, Eq, Structural)]
pub struct MainThreadState {
    /// Whether a drawable is live and bound.
    pub surface: SurfaceState,
    /// The last native window handle received; used to (re)create the
    /// drawable.
    pub window: Option<WindowHandle>,
    /// Terminal flag; set only by processing `Destroy` (or by a closed
    /// channel standing in for it).
    pub quit: bool,
    /// Initial fullscreen intent, kept for platform-side queries.
    pub fullscreen: bool,
    /// Sticky render request; cleared when a frame is drawn.
    pub update_requested: bool,
    /// The modifier-key bitset, maintained from key messages.
    pub keymods: KeyMods,
}

/// The effect of one machine step: the state after it, the native graphics
/// calls it appended, the event-handler invocations it appended, and the
/// display-geometry update it made, if any.
pub struct StepResult {
    pub state: MainThreadState,
    pub gfx: Seq<GfxCall>,
    pub app: Seq<AppEvent>,
    pub resize: Option<(i32, i32)>,
}

/// A step that does nothing from state `s`.
pub open spec fn unchanged_step(s: MainThreadState) -> StepResult {
    StepResult { state: s, gfx: Seq::empty(), app: Seq::empty(), resize: None }
}

/// Two steps in sequence: states thread through, call logs concatenate, and
/// the later geometry update wins.
pub open spec fn combine(r1: StepResult, r2: StepResult) -> StepResult {
    StepResult {
        state: r2.state,
        gfx: r1.gfx + r2.gfx,
        app: r1.app + r2.app,
        resize: if r2.resize is Some {
            r2.resize
        } else {
            r1.resize
        },
    }
}

/// Whether `c` is a Unicode scalar value, i.e. a code point a `char` can
/// hold: outside the surrogate range and at most 0x10FFFF.
pub open spec fn is_scalar_value(c: u32) -> bool {
    c < 0xD800 || (0xE000 <= c && c <= 0x10FFFF)
}

/// Relies on std's `char::from_u32`: it returns `Some` exactly for Unicode
/// scalar values (code points outside the surrogate range `0xD800..=0xDFFF`
/// and at most `0x10FFFF`), and the character it returns is that code point.
#[verifier::external_body]
fn char_from_u32(c: u32) -> (r: Option<char>)
    ensures
        r is Some <==> is_scalar_value(c),
        is_scalar_value(c) ==> r == Some(c as char),
{
    char::from_u32(c)
}

/// The modifier bitset after a key goes down: the four modifier keys set
/// their flag, in either their left or right form; other keys change nothing.
pub open spec fn mods_after_key_down(m: KeyMods, k: KeyCode) -> KeyMods {
    if k == KeyCode::LeftShift || k == KeyCode::RightShift {
        KeyMods { shift: true, ..m }
    } else if k == KeyCode::LeftControl || k == KeyCode::RightControl {
        KeyMods { ctrl: true, ..m }
    } else if k == KeyCode::LeftAlt || k == KeyCode::RightAlt {
        KeyMods { alt: true, ..m }
    } else if k == KeyCode::LeftSuper || k == KeyCode::RightSuper {
        KeyMods { logo: true, ..m }
    } else {
        m
    }
}

/// The modifier bitset after a key goes up; the mirror of
/// [`mods_after_key_down`].
pub open spec fn mods_after_key_up(m: KeyMods, k: KeyCode) -> KeyMods {
    if k == KeyCode::LeftShift || k == KeyCode::RightShift {
        KeyMods { shift: false, ..m }
    } else if k == KeyCode::LeftControl || k == KeyCode::RightControl {
        KeyMods { ctrl: false, ..m }
    } else if k == KeyCode::LeftAlt || k == KeyCode::RightAlt {
        KeyMods { alt: false, ..m }
    } else if k == KeyCode::LeftSuper || k == KeyCode::RightSuper {
        KeyMods { logo: false, ..m }
    } else {
        m
    }
}

/// The step that releases the current drawable, if there is one: unbind the
/// context, release the drawable, and record that no surface exists.
/// Releasing while already in `NoSurface` is a no-op and issues no native
/// call at all.
pub open spec fn spec_destroy_surface(s: MainThreadState) -> StepResult {
    if s.surface is Active {
        StepResult {
            state: MainThreadState { surface: SurfaceState::NoSurface, ..s },
            gfx: seq![GfxCall::MakeCurrentNone, GfxCall::DestroySurface],
            app: Seq::empty(),
            resize: None,
        }
    } else {
        unchanged_step(s)
    }
}

/// The step that binds the machine to a (new) window handle: destroy the old
/// drawable if one is active, then create a drawable against `window` and
/// make the context current.  `created` and `made_current` are what the
/// native binding answered.  Either failure leaves the machine in
/// `NoSurface`; a drawable that was created but could not be bound is
/// released again.
pub open spec fn spec_update_surface(
    s: MainThreadState,
    window: WindowHandle,
    created: bool,
    made_current: bool,
) -> StepResult {
    let destroyed = spec_destroy_surface(s);
    let s1 = MainThreadState { window: Some(window), ..destroyed.state };
    if !created {
        StepResult {
            state: MainThreadState { surface: SurfaceState::NoSurface, ..s1 },
            gfx: destroyed.gfx.push(GfxCall::CreateSurface { window, ok: false }),
            app: Seq::empty(),
            resize: None,
        }
    } else if !made_current {
        StepResult {
            state: MainThreadState { surface: SurfaceState::NoSurface, ..s1 },
            gfx: destroyed.gfx + seq![
                GfxCall::CreateSurface { window, ok: true },
                GfxCall::MakeCurrent { ok: false },
                GfxCall::DestroySurface,
            ],
            app: Seq::empty(),
            resize: None,
        }
    } else {
        StepResult {
            state: MainThreadState { surface: SurfaceState::Active, ..s1 },
            gfx: destroyed.gfx + seq![
                GfxCall::CreateSurface { window, ok: true },
                GfxCall::MakeCurrent { ok: true },
            ],
            app: Seq::empty(),
            resize: None,
        }
    }
}

/// The state after a request is processed: `ScheduleUpdate` marks a render as
/// requested; every other kind has no effect on the pump.
pub open spec fn spec_after_request(s: MainThreadState, request: Request) -> MainThreadState {
    if request == Request::ScheduleUpdate {
        MainThreadState { update_requested: true, ..s }
    } else {
        s
    }
}

/// The step one message causes.  `created` and `made_current` are what the
/// native binding answers if the message asks for a drawable to be created;
/// they are ignored for every other message.
pub open spec fn spec_process_message(
    s: MainThreadState,
    m: Message,
    created: bool,
    made_current: bool,
) -> StepResult {
    match m {
        Message::SurfaceCreated { window } => spec_update_surface(s, window, created, made_current),
        Message::SurfaceDestroyed => spec_destroy_surface(s),
        Message::SurfaceChanged { width, height } => StepResult {
            state: s,
            gfx: Seq::empty(),
            app: seq![AppEvent::Resize { width, height }],
            resize: Some((width, height)),
        },
        Message::Touch { phase, touch_id, x, y } => StepResult {
            state: s,
            gfx: Seq::empty(),
            app: seq![AppEvent::Touch { phase, touch_id, x, y }],
            resize: None,
        },
        Message::Character { character } => StepResult {
            state: s,
            gfx: Seq::empty(),
            app: if is_scalar_value(character) {
                seq![
                    AppEvent::Char {
                        character: character as char,
                        mods: KeyMods::spec_none_held(),
                        repeat: false,
                    },
                ]
            } else {
                Seq::empty()
            },
            resize: None,
        },
        Message::KeyDown { keycode } => StepResult {
            state: MainThreadState { keymods: mods_after_key_down(s.keymods, keycode), ..s },
            gfx: Seq::empty(),
            app: seq![
                AppEvent::KeyDown {
                    keycode,
                    mods: mods_after_key_down(s.keymods, keycode),
                    repeat: false,
                },
            ],
            resize: None,
        },
        Message::KeyUp { keycode } => StepResult {
            state: MainThreadState { keymods: mods_after_key_up(s.keymods, keycode), ..s },
            gfx: Seq::empty(),
            app: seq![AppEvent::KeyUp { keycode, mods: mods_after_key_up(s.keymods, keycode) }],
            resize: None,
        },
        Message::Pause => StepResult {
            state: s,
            gfx: Seq::empty(),
            app: seq![AppEvent::Minimized],
            resize: None,
        },
        Message::Resume => StepResult {
            state: s,
            gfx: Seq::empty(),
            app: seq![AppEvent::Restored],
            resize: None,
        },
        Message::Destroy => StepResult {
            state: MainThreadState { quit: true, ..s },
            gfx: Seq::empty(),
            app: seq![AppEvent::QuitRequested],
            resize: None,
        },
        Message::Request(request) => StepResult {
            state: spec_after_request(s, request),
            gfx: Seq::empty(),
            app: Seq::empty(),
            resize: None,
        },
    }
}

/// How a message step leaves the display record: the geometry it carries, if
/// any, and nothing else.
pub open spec fn display_updated<C: Clipboard>(
    d0: NativeDisplayData<C>,
    d1: NativeDisplayData<C>,
    resize: Option<(i32, i32)>,
) -> bool {
    match resize {
        Some((width, height)) => d1 == (NativeDisplayData {
            screen_width: width,
            screen_height: height,
            ..d0
        }),
        None => d1 == d0,
    }
}

impl MainThreadState {
    /// The machine as it stands when the application thread starts: no
    /// drawable yet, not quitting, and one render owed so the first frame
    /// appears without waiting for a request.
    pub open spec fn spec_initial(conf: Conf) -> MainThreadState {
        MainThreadState {
            surface: SurfaceState::NoSurface,
            window: None,
            quit: false,
            fullscreen: conf.fullscreen,
            update_requested: true,
            keymods: KeyMods::spec_none_held(),
        }
    }

    pub fn new(conf: &Conf) -> (r: MainThreadState)
        ensures
            r == MainThreadState::spec_initial(*conf),
    {
        MainThreadState {
            surface: SurfaceState::NoSurface,
            window: None,
            quit: false,
            fullscreen: conf.fullscreen,
            update_requested: true,
            keymods: KeyMods { shift: false, ctrl: false, alt: false, logo: false },
        }
    }

    /// Whether the next iteration should perform a single blocking receive
    /// instead of a non-blocking drain: only in blocking mode, and only while
    /// no render is owed.
    pub fn wants_block(&self, blocking_event_loop: bool) -> (r: bool)
        ensures
            r == (blocking_event_loop && !self.update_requested),
    {
        blocking_event_loop && !self.update_requested
    }

    /// A blocking receive found the channel's producer side gone; there will
    /// never be another message, so this is an implicit quit signal.
    pub fn note_channel_closed(&mut self)
        ensures
            *final(self) == (MainThreadState { quit: true, ..*old(self) }),
    {
        self.quit = true;
    }

    /// Unbinds and releases the current drawable, if any; see
    /// [`spec_destroy_surface`].
    pub fn destroy_surface<G: NativeGfx>(&mut self, gfx: &mut G)
        ensures
            ({
                let r = spec_destroy_surface(*old(self));
                *final(self) == r.state && final(gfx).calls() == old(gfx).calls() + r.gfx
            }),
    {
        match self.surface {
            SurfaceState::Active => {
                gfx.make_current_none();
                gfx.destroy_surface();
                self.surface = SurfaceState::NoSurface;
                proof {
                    assert(gfx.calls() =~= old(gfx).calls() + spec_destroy_surface(
                        *old(self),
                    ).gfx);
                }
            },
            SurfaceState::NoSurface => {
                proof {
                    assert(gfx.calls() =~= old(gfx).calls() + spec_destroy_surface(
                        *old(self),
                    ).gfx);
                }
            },
        }
    }

    /// Destroys the old drawable if one is active, then creates a drawable
    /// against `window` and makes the context current; see
    /// [`spec_update_surface`].  Returns what the native binding answered for
    /// the creation and for making the context current.
    pub fn update_surface<G: NativeGfx>(&mut self, gfx: &mut G, window: WindowHandle) -> (o: (
        bool,
        bool,
    ))
        ensures
            ({
                let r = spec_update_surface(*old(self), window, o.0, o.1);
                *final(self) == r.state && final(gfx).calls() == old(gfx).calls() + r.gfx
            }),
    {
        self.window = Some(window);
        match self.surface {
            SurfaceState::Active => {
                gfx.make_current_none();
                gfx.destroy_surface();
                self.surface = SurfaceState::NoSurface;
            },
            SurfaceState::NoSurface => {},
        }
        let created = gfx.create_window_surface(window);
        if !created {
            proof {
                assert(gfx.calls() =~= old(gfx).calls() + spec_update_surface(
                    *old(self),
                    window,
                    false,
                    false,
                ).gfx);
            }
            return (false, false);
        }
        let made_current = gfx.make_current();
        if !made_current {
            gfx.destroy_surface();
            proof {
                assert(gfx.calls() =~= old(gfx).calls() + spec_update_surface(
                    *old(self),
                    window,
                    true,
                    false,
                ).gfx);
            }
            return (true, false);
        }
        self.surface = SurfaceState::Active;
        proof {
            assert(gfx.calls() =~= old(gfx).calls() + spec_update_surface(
                *old(self),
                window,
                true,
                true,
            ).gfx);
        }
        (true, true)
    }

    /// Answers one application request: `ScheduleUpdate` marks a render as
    /// owed; every other kind is reported as unsupported on this platform and
    /// intentionally ignored.
    pub fn process_request(&mut self, request: Request) -> (r: RequestOutcome)
        ensures
            *final(self) == spec_after_request(*old(self), request),
            r == RequestOutcome::Handled <==> request == Request::ScheduleUpdate,
    {
        match request {
            Request::ScheduleUpdate => {
                self.update_requested = true;
                RequestOutcome::Handled
            },
            _ => RequestOutcome::Unsupported,
        }
    }

    /// Dispatches one message; see [`spec_process_message`].  Returns what
    /// the native binding answered if the message asked for a drawable to be
    /// created, and `(false, false)` otherwise.
    pub fn process_message<G: NativeGfx, EH: EventHandler, C: Clipboard>(
        &mut self,
        gfx: &mut G,
        eh: &mut EH,
        display: &mut NativeDisplayData<C>,
        m: Message,
    ) -> (o: (bool, bool))
        ensures
            ({
                let r = spec_process_message(*old(self), m, o.0, o.1);
                &&& *final(self) == r.state
                &&& final(gfx).calls() == old(gfx).calls() + r.gfx
                &&& final(eh).events() == old(eh).events() + r.app
                &&& display_updated(*old(display), *final(display), r.resize)
            }),
    {
        match m {
            Message::SurfaceCreated { window } => {
                let o = self.update_surface(gfx, window);
                proof {
                    assert(eh.events() =~= old(eh).events() + Seq::<AppEvent>::empty());
                }
                o
            },
            Message::SurfaceDestroyed => {
                self.destroy_surface(gfx);
                proof {
                    assert(eh.events() =~= old(eh).events() + Seq::<AppEvent>::empty());
                }
                (false, false)
            },
            Message::SurfaceChanged { width, height } => {
                display.screen_width = width;
                display.screen_height = height;
                eh.resize_event(width, height);
                proof {
                    assert(eh.events() =~= old(eh).events() + seq![
                        AppEvent::Resize { width, height },
                    ]);
                    assert(gfx.calls() =~= old(gfx).calls() + Seq::<GfxCall>::empty());
                }
                (false, false)
            },
            Message::Touch { phase, touch_id, x, y } => {
                eh.touch_event(phase, touch_id, x, y);
                proof {
                    assert(eh.events() =~= old(eh).events() + seq![
                        AppEvent::Touch { phase, touch_id, x, y },
                    ]);
                    assert(gfx.calls() =~= old(gfx).calls() + Seq::<GfxCall>::empty());
                }
                (false, false)
            },
            Message::Character { character } => {
                let converted = char_from_u32(character);
                match converted {
                    Some(ch) => {
                        eh.char_event(ch, KeyMods::default(), false);
                        proof {
                            assert(eh.events() =~= old(eh).events()
                                + spec_process_message(*old(self), m, false, false).app);
                            assert(gfx.calls() =~= old(gfx).calls()
                                + Seq::<GfxCall>::empty());
                        }
                    },
                    None => {
                        proof {
                            assert(eh.events() =~= old(eh).events()
                                + Seq::<AppEvent>::empty());
                            assert(gfx.calls() =~= old(gfx).calls()
                                + Seq::<GfxCall>::empty());
                        }
                    },
                }
                (false, false)
            },
            Message::KeyDown { keycode } => {
                match keycode {
                    KeyCode::LeftShift | KeyCode::RightShift => self.keymods.shift = true,
                    KeyCode::LeftControl | KeyCode::RightControl => self.keymods.ctrl = true,
                    KeyCode::LeftAlt | KeyCode::RightAlt => self.keymods.alt = true,
                    KeyCode::LeftSuper | KeyCode::RightSuper => self.keymods.logo = true,
                    _ => {},
                }
                eh.key_down_event(keycode, self.keymods, false);
                proof {
                    assert(eh.events() =~= old(eh).events() + spec_process_message(
                        *old(self),
                        m,
                        false,
                        false,
                    ).app);
                    assert(gfx.calls() =~= old(gfx).calls() + Seq::<GfxCall>::empty());
                }
                (false, false)
            },
            Message::KeyUp { keycode } => {
                match keycode {
                    KeyCode::LeftShift | KeyCode::RightShift => self.keymods.shift = false,
                    KeyCode::LeftControl | KeyCode::RightControl => self.keymods.ctrl = false,
                    KeyCode::LeftAlt | KeyCode::RightAlt => self.keymods.alt = false,
                    KeyCode::LeftSuper | KeyCode::RightSuper => self.keymods.logo = false,
                    _ => {},
                }
                eh.key_up_event(keycode, self.keymods);
                proof {
                    assert(eh.events() =~= old(eh).events() + spec_process_message(
                        *old(self),
                        m,
                        false,
                        false,
                    ).app);
                    assert(gfx.calls() =~= old(gfx).calls() + Seq::<GfxCall>::empty());
                }
                (false, false)
            },
            Message::Pause => {
                eh.window_minimized_event();
                proof {
                    assert(eh.events() =~= old(eh).events() + seq![AppEvent::Minimized]);
                    assert(gfx.calls() =~= old(gfx).calls() + Seq::<GfxCall>::empty());
                }
                (false, false)
            },
            Message::Resume => {
                eh.window_restored_event();
                proof {
                    assert(eh.events() =~= old(eh).events() + seq![AppEvent::Restored]);
                    assert(gfx.calls() =~= old(gfx).calls() + Seq::<GfxCall>::empty());
                }
                (false, false)
            },
            Message::Destroy => {
                self.quit = true;
                eh.quit_requested_event();
                proof {
                    assert(eh.events() =~= old(eh).events() + seq![
                        AppEvent::QuitRequested,
                    ]);
                    assert(gfx.calls() =~= old(gfx).calls() + Seq::<GfxCall>::empty());
                }
                (false, false)
            },
            Message::Request(request) => {
                self.process_request(request);
                proof {
                    assert(eh.events() =~= old(eh).events() + Seq::<AppEvent>::empty());
                    assert(gfx.calls() =~= old(gfx).calls() + Seq::<GfxCall>::empty());
                }
                (false, false)
            },
        }
    }
}

/// The render step of one pump iteration: invoke the application's update
/// capability; then, only if a drawable is live and bound, draw, present it,
/// and clear the sticky render request.
pub open spec fn spec_frame(s: MainThreadState) -> StepResult {
    if s.surface is Active {
        StepResult {
            state: MainThreadState { update_requested: false, ..s },
            gfx: seq![GfxCall::Present],
            app: seq![AppEvent::Update, AppEvent::Draw],
            resize: None,
        }
    } else {
        StepResult { state: s, gfx: Seq::empty(), app: seq![AppEvent::Update], resize: None }
    }
}

/// The steps a whole message sequence causes, in arrival order.  `os` holds
/// the native binding's answers, one pair per message, consumed in lockstep.
pub open spec fn spec_process_messages(
    s: MainThreadState,
    ms: Seq<Message>,
    os: Seq<(bool, bool)>,
) -> StepResult
    decreases ms.len(),
{
    if ms.len() == 0 {
        unchanged_step(s)
    } else {
        let r1 = spec_process_messages(s, ms.drop_last(), os.drop_last());
        combine(r1, spec_process_message(r1.state, ms.last(), os.last().0, os.last().1))
    }
}

/// Processing a single message is that message's step.
pub proof fn lemma_process_single(s: MainThreadState, m: Message, o: (bool, bool))
    ensures
        spec_process_messages(s, seq![m], seq![o]) == combine(
            unchanged_step(s),
            spec_process_message(s, m, o.0, o.1),
        ),
        spec_process_messages(s, seq![m], seq![o]).state == spec_process_message(
            s,
            m,
            o.0,
            o.1,
        ).state,
        spec_process_messages(s, seq![m], seq![o]).gfx == spec_process_message(s, m, o.0, o.1).gfx,
        spec_process_messages(s, seq![m], seq![o]).app == spec_process_message(s, m, o.0, o.1).app,
        spec_process_messages(s, seq![m], seq![o]).resize == spec_process_message(
            s,
            m,
            o.0,
            o.1,
        ).resize,
{
    let ms = seq![m];
    let os = seq![o];
    assert(ms.drop_last() =~= Seq::<Message>::empty());
    assert(os.drop_last() =~= Seq::<(bool, bool)>::empty());
    assert(spec_process_messages(s, Seq::<Message>::empty(), Seq::<(bool, bool)>::empty())
        == unchanged_step(s));
    let r2 = spec_process_message(s, m, o.0, o.1);
    assert(Seq::<GfxCall>::empty() + r2.gfx =~= r2.gfx);
    assert(Seq::<AppEvent>::empty() + r2.app =~= r2.app);
}

/// Geometry updates compose: the later one wins.
pub proof fn lemma_display_updated_combine<C: Clipboard>(
    d0: NativeDisplayData<C>,
    d1: NativeDisplayData<C>,
    d2: NativeDisplayData<C>,
    a: Option<(i32, i32)>,
    b: Option<(i32, i32)>,
)
    requires
        display_updated(d0, d1, a),
        display_updated(d1, d2, b),
    ensures
        display_updated(
            d0,
            d2,
            if b is Some {
                b
            } else {
                a
            },
        ),
{
}

/// What one pump iteration consumes from the channel: the single message a
/// blocking receive produced, or everything a non-blocking drain produced.
pub enum PumpInput {
    Received(Message),
    Drained(Vec<Message>),
}

/// The messages an iteration's input carries, in arrival order.
pub open spec fn input_messages(input: PumpInput) -> Seq<Message> {
    match input {
        PumpInput::Received(m) => seq![m],
        PumpInput::Drained(v) => v@,
    }
}

/// One full pump iteration: process the consumed messages, then — unless the
/// loop is blocking and no render is owed — take the render step.
pub open spec fn spec_iteration(
    s: MainThreadState,
    blocking_event_loop: bool,
    ms: Seq<Message>,
    os: Seq<(bool, bool)>,
) -> StepResult {
    let r1 = spec_process_messages(s, ms, os);
    if !blocking_event_loop || r1.state.update_requested {
        combine(r1, spec_frame(r1.state))
    } else {
        r1
    }
}

/// The teardown on loop exit, in this strict order: unbind the context,
/// release the drawable if one is live, destroy the context, release the
/// remaining native resources.
pub open spec fn spec_shutdown(s: MainThreadState) -> StepResult {
    let destroy = if s.surface is Active {
        seq![GfxCall::DestroySurface]
    } else {
        Seq::empty()
    };
    StepResult {
        state: MainThreadState { surface: SurfaceState::NoSurface, ..s },
        gfx: seq![GfxCall::MakeCurrentNone] + destroy + seq![
            GfxCall::DestroyContext,
            GfxCall::Terminate,
        ],
        app: Seq::empty(),
        resize: None,
    }
}

/// A whole run over a message stream: iterations as [`spec_iteration`]
/// describes them — consuming one message per iteration while blocking with
/// no render owed, everything queued otherwise — until the machine quits or
/// the stream ends, then the teardown.
pub open spec fn spec_run(
    s: MainThreadState,
    blocking_event_loop: bool,
    ms: Seq<Message>,
    os: Seq<(bool, bool)>,
) -> StepResult
    decreases ms.len(),
{
    if s.quit || ms.len() == 0 {
        spec_shutdown(s)
    } else if blocking_event_loop && !s.update_requested {
        let r1 = spec_iteration(s, blocking_event_loop, ms.take(1), os.take(1));
        combine(r1, spec_run(r1.state, blocking_event_loop, ms.skip(1), os.skip(1)))
    } else {
        let r1 = spec_iteration(s, blocking_event_loop, ms, os);
        combine(r1, spec_run(r1.state, blocking_event_loop, Seq::empty(), Seq::empty()))
    }
}

impl MainThreadState {
    /// The render step; see [`spec_frame`].  The caller applies the gating
    /// policy; the surface gate is applied here.
    pub fn frame<G: NativeGfx, EH: EventHandler>(&mut self, gfx: &mut G, eh: &mut EH)
        ensures
            ({
                let r = spec_frame(*old(self));
                &&& *final(self) == r.state
                &&& final(gfx).calls() == old(gfx).calls() + r.gfx
                &&& final(eh).events() == old(eh).events() + r.app
            }),
    {
        eh.update();
        match self.surface {
            SurfaceState::Active => {
                self.update_requested = false;
                eh.draw();
                gfx.present();
                proof {
                    assert(eh.events() =~= old(eh).events() + seq![
                        AppEvent::Update,
                        AppEvent::Draw,
                    ]);
                    assert(gfx.calls() =~= old(gfx).calls() + seq![GfxCall::Present]);
                }
            },
            SurfaceState::NoSurface => {
                proof {
                    assert(eh.events() =~= old(eh).events() + seq![AppEvent::Update]);
                    assert(gfx.calls() =~= old(gfx).calls() + Seq::<GfxCall>::empty());
                }
            },
        }
    }

    /// Processes `msgs[from..]` in arrival order; see
    /// [`spec_process_messages`].  Returns the native binding's answers, one
    /// pair per message processed.
    fn process_range<G: NativeGfx, EH: EventHandler, C: Clipboard>(
        &mut self,
        gfx: &mut G,
        eh: &mut EH,
        display: &mut NativeDisplayData<C>,
        msgs: &Vec<Message>,
        from: usize,
    ) -> (outs: Vec<(bool, bool)>)
        requires
            from <= msgs@.len(),
        ensures
            outs@.len() == msgs@.len() - from,
            ({
                let r = spec_process_messages(*old(self), msgs@.skip(from as int), outs@);
                &&& *final(self) == r.state
                &&& final(gfx).calls() == old(gfx).calls() + r.gfx
                &&& final(eh).events() == old(eh).events() + r.app
                &&& display_updated(*old(display), *final(display), r.resize)
            }),
    {
        let ghost s0 = *self;
        let ghost g0 = gfx.calls();
        let ghost e0 = eh.events();
        let ghost d0 = *display;
        let mut outs: Vec<(bool, bool)> = Vec::new();
        let mut i: usize = from;
        while i < msgs.len()
            invariant
                from <= i <= msgs@.len(),
                outs@.len() == i - from,
                ({
                    let r = spec_process_messages(s0, msgs@.subrange(from as int, i as int), outs@);
                    &&& *self == r.state
                    &&& gfx.calls() == g0 + r.gfx
                    &&& eh.events() == e0 + r.app
                    &&& display_updated(d0, *display, r.resize)
                }),
            decreases msgs@.len() - i,
        {
            let ghost pre = msgs@.subrange(from as int, i as int);
            let ghost outs_pre = outs@;
            let ghost r1 = spec_process_messages(s0, pre, outs_pre);
            let ghost d_mid = *display;
            let m = msgs[i];
            let o = self.process_message(gfx, eh, display, m);
            outs.push(o);
            i = i + 1;
            proof {
                let post = msgs@.subrange(from as int, i as int);
                assert(post.drop_last() =~= pre);
                assert(outs@.drop_last() =~= outs_pre);
                assert(post.last() == msgs@[i - 1]);
                let r2 = spec_process_message(r1.state, msgs@[i - 1], o.0, o.1);
                assert(g0 + (r1.gfx + r2.gfx) =~= (g0 + r1.gfx) + r2.gfx);
                assert(e0 + (r1.app + r2.app) =~= (e0 + r1.app) + r2.app);
                lemma_display_updated_combine(d0, d_mid, *display, r1.resize, r2.resize);
            }
        }
        proof {
            assert(msgs@.subrange(from as int, msgs@.len() as int) =~= msgs@.skip(from as int));
        }
        outs
    }

    /// Processes every queued message in arrival order; see
    /// [`spec_process_messages`].
    pub fn process_messages<G: NativeGfx, EH: EventHandler, C: Clipboard>(
        &mut self,
        gfx: &mut G,
        eh: &mut EH,
        display: &mut NativeDisplayData<C>,
        msgs: &Vec<Message>,
    ) -> (outs: Vec<(bool, bool)>)
        ensures
            outs@.len() == msgs@.len(),
            ({
                let r = spec_process_messages(*old(self), msgs@, outs@);
                &&& *final(self) == r.state
                &&& final(gfx).calls() == old(gfx).calls() + r.gfx
                &&& final(eh).events() == old(eh).events() + r.app
                &&& display_updated(*old(display), *final(display), r.resize)
            }),
    {
        let outs = self.process_range(gfx, eh, display, msgs, 0);
        proof {
            assert(msgs@.skip(0) =~= msgs@);
        }
        outs
    }

    /// One iteration of the pump loop over what the driver consumed from the
    /// channel this time around; see [`spec_iteration`].
    pub fn iteration<G: NativeGfx, EH: EventHandler, C: Clipboard>(
        &mut self,
        gfx: &mut G,
        eh: &mut EH,
        display: &mut NativeDisplayData<C>,
        blocking_event_loop: bool,
        input: &PumpInput,
    ) -> (outs: Vec<(bool, bool)>)
        ensures
            outs@.len() == input_messages(*input).len(),
            ({
                let r = spec_iteration(
                    *old(self),
                    blocking_event_loop,
                    input_messages(*input),
                    outs@,
                );
                &&& *final(self) == r.state
                &&& final(gfx).calls() == old(gfx).calls() + r.gfx
                &&& final(eh).events() == old(eh).events() + r.app
                &&& display_updated(*old(display), *final(display), r.resize)
            }),
    {
        let ghost s0 = *self;
        let ghost g0 = gfx.calls();
        let ghost e0 = eh.events();
        let ghost d0 = *display;
        let outs: Vec<(bool, bool)> = match input {
            PumpInput::Received(m) => {
                let o = self.process_message(gfx, eh, display, *m);
                let mut v: Vec<(bool, bool)> = Vec::new();
                v.push(o);
                proof {
                    assert(input_messages(*input) =~= seq![*m]);
                    assert(v@ =~= seq![o]);
                    lemma_process_single(s0, *m, o);
                }
                v
            },
            PumpInput::Drained(v) => {
                let outs = self.process_range(gfx, eh, display, v, 0);
                proof {
                    assert(v@.skip(0) =~= v@);
                }
                outs
            },
        };
        let ghost r1 = spec_process_messages(s0, input_messages(*input), outs@);
        if !blocking_event_loop || self.update_requested {
            self.frame(gfx, eh);
            proof {
                let rf = spec_frame(r1.state);
                assert(g0 + (r1.gfx + rf.gfx) =~= (g0 + r1.gfx) + rf.gfx);
                assert(e0 + (r1.app + rf.app) =~= (e0 + r1.app) + rf.app);
            }
        }
        outs
    }

    /// The teardown on loop exit; see [`spec_shutdown`].
    pub fn shutdown<G: NativeGfx>(&mut self, gfx: &mut G)
        ensures
            ({
                let r = spec_shutdown(*old(self));
                &&& *final(self) == r.state
                &&& final(gfx).calls() == old(gfx).calls() + r.gfx
            }),
    {
        gfx.make_current_none();
        match self.surface {
            SurfaceState::Active => {
                gfx.destroy_surface();
                self.surface = SurfaceState::NoSurface;
            },
            SurfaceState::NoSurface => {},
        }
        gfx.destroy_context();
        gfx.terminate();
        proof {
            assert(gfx.calls() =~= old(gfx).calls() + spec_shutdown(*old(self)).gfx);
        }
    }

    /// Replays the pump loop over a whole message stream, from `inbox[from]`
    /// on, then tears down; see [`spec_run`].
    #[verifier::rlimit(60)]
    fn run_from<G: NativeGfx, EH: EventHandler, C: Clipboard>(
        &mut self,
        gfx: &mut G,
        eh: &mut EH,
        display: &mut NativeDisplayData<C>,
        blocking_event_loop: bool,
        inbox: &Vec<Message>,
        from: usize,
    ) -> (outs: Vec<(bool, bool)>)
        requires
            from <= inbox@.len(),
        ensures
            ({
                let r = spec_run(
                    *old(self),
                    blocking_event_loop,
                    inbox@.skip(from as int),
                    outs@,
                );
                &&& *final(self) == r.state
                &&& final(gfx).calls() == old(gfx).calls() + r.gfx
                &&& final(eh).events() == old(eh).events() + r.app
                &&& display_updated(*old(display), *final(display), r.resize)
            }),
        decreases inbox@.len() - from,
    {
        let ghost s0 = *self;
        let ghost g0 = gfx.calls();
        let ghost e0 = eh.events();
        let ghost d0 = *display;
        let ghost remaining = inbox@.skip(from as int);
        if self.quit || from == inbox.len() {
            self.shutdown(gfx);
            let outs: Vec<(bool, bool)> = Vec::new();
            proof {
                assert(eh.events() =~= e0 + spec_run(s0, blocking_event_loop, remaining, outs@).app);
            }
            outs
        } else if blocking_event_loop && !self.update_requested {
            let input = PumpInput::Received(inbox[from]);
            let mut outs = self.iteration(gfx, eh, display, blocking_event_loop, &input);
            let ghost r1 = spec_iteration(s0, blocking_event_loop, remaining.take(1), outs@);
            let ghost d_mid = *display;
            proof {
                assert(input_messages(input) =~= remaining.take(1));
            }
            let rest = self.run_from(gfx, eh, display, blocking_event_loop, inbox, from + 1);
            let ghost r2 = spec_run(r1.state, blocking_event_loop, remaining.skip(1), rest@);
            let ghost all0 = outs@;
            let mut all = outs;
            append_all(&mut all, &rest);
            proof {
                assert(inbox@.skip(from as int).skip(1) =~= inbox@.skip(from + 1));
                assert(all@.take(1) =~= all0);
                assert(all@.skip(1) =~= rest@);
                assert(g0 + (r1.gfx + r2.gfx) =~= (g0 + r1.gfx) + r2.gfx);
                assert(e0 + (r1.app + r2.app) =~= (e0 + r1.app) + r2.app);
                lemma_display_updated_combine(d0, d_mid, *display, r1.resize, r2.resize);
            }
            all
        } else {
            let drained: Vec<Message> = slice_from(inbox, from);
            let input = PumpInput::Drained(drained);
            let outs = self.iteration(gfx, eh, display, blocking_event_loop, &input);
            let ghost r1 = spec_iteration(s0, blocking_event_loop, remaining, outs@);
            let ghost d_mid = *display;
            let rest = self.run_from(gfx, eh, display, blocking_event_loop, inbox, inbox.len());
            let ghost r2 = spec_run(
                r1.state,
                blocking_event_loop,
                Seq::<Message>::empty(),
                rest@,
            );
            proof {
                assert(inbox@.skip(inbox@.len() as int) =~= Seq::<Message>::empty());
                assert(spec_run(r1.state, blocking_event_loop, Seq::<Message>::empty(), rest@)
                    == spec_shutdown(r1.state));
                assert(spec_run(
                    r1.state,
                    blocking_event_loop,
                    Seq::<Message>::empty(),
                    Seq::<(bool, bool)>::empty(),
                ) == spec_shutdown(r1.state));
                assert(g0 + (r1.gfx + r2.gfx) =~= (g0 + r1.gfx) + r2.gfx);
                assert(e0 + (r1.app + r2.app) =~= (e0 + r1.app) + r2.app);
                lemma_display_updated_combine(d0, d_mid, *display, r1.resize, r2.resize);
            }
            outs
        }
    }

    /// Replays the pump loop over a whole message stream and tears down at
    /// its end; see [`spec_run`].  This is the deterministic core of the run
    /// loop: a live driver performs the channel receives and the cooperative
    /// yield itself and calls [`Self::iteration`] per turn instead.
    pub fn run_pump<G: NativeGfx, EH: EventHandler, C: Clipboard>(
        &mut self,
        gfx: &mut G,
        eh: &mut EH,
        display: &mut NativeDisplayData<C>,
        blocking_event_loop: bool,
        inbox: &Vec<Message>,
    ) -> (outs: Vec<(bool, bool)>)
        ensures
            ({
                let r = spec_run(*old(self), blocking_event_loop, inbox@, outs@);
                &&& *final(self) == r.state
                &&& final(gfx).calls() == old(gfx).calls() + r.gfx
                &&& final(eh).events() == old(eh).events() + r.app
                &&& display_updated(*old(display), *final(display), r.resize)
            }),
    {
        let outs = self.run_from(gfx, eh, display, blocking_event_loop, inbox, 0);
        proof {
            assert(inbox@.skip(0) =~= inbox@);
        }
        outs
    }
}

/// Appends every element of `src` to `dst`, in order.
fn append_all(dst: &mut Vec<(bool, bool)>, src: &Vec<(bool, bool)>)
    ensures
        final(dst)@ == old(dst)@ + src@,
{
    let ghost dst0 = dst@;
    let mut j: usize = 0;
    while j < src.len()
        invariant
            0 <= j <= src@.len(),
            dst@ =~= dst0 + src@.take(j as int),
        decreases src@.len() - j,
    {
        let x = src[j];
        dst.push(x);
        j = j + 1;
        proof {
            assert(src@.take(j as int).drop_last() =~= src@.take(j - 1));
            assert(dst@.drop_last() =~= dst0 + src@.take(j - 1));
        }
    }
    proof {
        assert(src@.take(src@.len() as int) =~= src@);
    }
}

/// Copies `v[from..]` into a fresh vector.
fn slice_from(v: &Vec<Message>, from: usize) -> (r: Vec<Message>)
    requires
        from <= v@.len(),
    ensures
        r@ == v@.skip(from as int),
{
    let mut r: Vec<Message> = Vec::new();
    let mut i: usize = from;
    while i < v.len()
        invariant
            from <= i <= v@.len(),
            r@ =~= v@.subrange(from as int, i as int),
        decreases v@.len() - i,
    {
        let m = v[i];
        r.push(m);
        i = i + 1;
        proof {
            assert(v@.subrange(from as int, i as int).drop_last() =~= v@.subrange(
                from as int,
                i - 1,
            ));
        }
    }
    proof {
        assert(v@.subrange(from as int, v@.len() as int) =~= v@.skip(from as int));
    }
    r
}


} // verus!
