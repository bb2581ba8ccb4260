//! Cross-thread event bridge and graphics-surface lifecycle state machine for
//! a windowing runtime.
//!
//! Platform callback threads translate native window and input events into
//! [`message::Message`] values and enqueue them toward the single application
//! thread.  That thread runs the frame pump ([`pump::MainThreadState`]): it
//! drains messages, keeps the drawable surface in lockstep with the window's
//! lifecycle, and invokes the application's [`event::EventHandler`] and the
//! native graphics binding ([`gfx::NativeGfx`]) only when the gating
//! conditions permit.  Everything the pump does to those two capabilities is
//! recorded in ghost call logs, so its contracts pin down the exact sequence
//! of calls for every message sequence.

pub mod bootstrap;
pub mod display;
pub mod event;
pub mod gfx;
pub mod laws;
pub mod message;
pub mod pump;
