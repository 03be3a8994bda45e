//! The backend capability contract and the delivery callback.
//!
//! A platform driver implements [`Backend`]; the session layer reaches the
//! platform only through it and never into its internals.  Nothing is
//! assumed of an implementation: open and close are requests whose
//! completion may be asynchronous and is not observed here, and a write may
//! be rejected for platform reasons of its own.
//!
//! A caller of `MidiInput::connect` supplies a [`MidiCallback`]; the
//! session owns it, together with the caller's context, for exactly the
//! lifetime of the connection.

use vstd::prelude::*;

verus! {

/// What a platform driver must provide.  All identities are the backend's
/// own stable device strings, as found during discovery.
pub trait Backend {
    /// Requests that the input port with this identity be opened and its
    /// delivery sink registered.  May complete asynchronously; a platform
    /// that never grants access may simply deliver nothing.
    fn open_input(&mut self, id: &String);

    /// Unregisters the delivery sink of this input port and requests that
    /// the port be closed.
    fn close_input(&mut self, id: &String);

    /// Requests that the output port with this identity be opened.
    fn open_output(&mut self, id: &String);

    /// Requests that the output port with this identity be closed;
    /// fire-and-forget, completion is not observable here.
    fn close_output(&mut self, id: &String);

    /// Hands `message` to the platform's write primitive, verbatim.  An
    /// `Err` carries the platform's diagnostic.
    fn write(&mut self, id: &String, message: &Vec<u8>) -> Result<(), String>;
}

/// The caller-supplied handler for delivered input messages.  Invoked once
/// per message that passes the ignore filter, with the timestamp in
/// microseconds, the raw bytes, and exclusive access to the caller's
/// context.
pub trait MidiCallback<T>: Sized {
    fn invoke(&mut self, timestamp_us: u64, message: &Vec<u8>, context: &mut T);
}

} // verus!
