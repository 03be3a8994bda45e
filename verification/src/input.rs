//! The input session state machine.
//!
//! An unconnected [`MidiInput`] holds only the ignore filter.  `connect`
//! checks the port number against the registry, asks the backend to open
//! the chosen identity, and moves the caller's callback and context into
//! the returned [`MidiInputConnection`]; an out-of-range number hands both
//! the session and the context back unchanged.  While connected, the driver
//! routes each inbound platform event through [`MidiInputConnection::deliver`],
//! which applies the filter to the leading status byte and either drops the
//! message or invokes the callback exactly once.  `close` unregisters the
//! delivery sink from the backend before releasing the callback and
//! context, and returns the context together with a fresh unconnected
//! session carrying the original filter.
//!
//! Because `deliver` needs exclusive access to the connection and `close`
//! consumes it, no delivery can be routed to a connection after its `close`
//! has returned: ownership enforces what the contract promises.

use vstd::prelude::*;

use crate::access::Static;
use crate::backend::{Backend, MidiCallback};
use crate::errors::{ConnectError, ConnectErrorKind, InitError, PortInfoError};
use crate::ignore::Ignore;
use crate::ports::{MidiInputPort, MidiInputPorts, PortInfo};

verus! {

/// An unconnected MIDI input session; create one with [`MidiInput::new`].
pub struct MidiInput {
    ignore_flags: Ignore,
}

/// An open connection to a MIDI input port, owning the delivery callback
/// and the caller's context for exactly its own lifetime.
pub struct MidiInputConnection<T, F: MidiCallback<T>> {
    ignore_flags: Ignore,
    port_id: String,
    callback: F,
    user_data: T,
    log: Ghost<Seq<(u64, Seq<u8>)>>,
}

impl MidiInput {
    /// The filter this session applies to inbound messages.
    pub closed spec fn ignore_spec(self) -> Ignore {
        self.ignore_flags
    }

    /// Creates a new unconnected input session.  Nothing platform-side is
    /// touched yet, so construction always succeeds; by default no messages
    /// are ignored.
    pub fn new(_client_name: &str) -> (r: Result<MidiInput, InitError>)
        ensures
            r matches Ok(s) && s.ignore_spec() == (Ignore {
                sysex: false,
                time: false,
                active_sense: false,
            }),
    {
        Ok(MidiInput { ignore_flags: Ignore::none() })
    }

    /// Sets which categories of messages are filtered out of delivery.
    pub fn ignore(&mut self, flags: Ignore)
        ensures
            final(self).ignore_spec() == flags,
    {
        self.ignore_flags = flags;
    }

    /// A snapshot of the discovered input ports, in index order.
    pub fn ports(&self, st: &Static) -> (r: MidiInputPorts)
        ensures
            r@ == st.input_set@,
    {
        let known = st.input_set.list();
        let n = known.len();
        let mut out: MidiInputPorts = Vec::new();
        let mut i: usize = 0;
        while i < n
            invariant
                n == known@.len(),
                known@ == st.input_set@,
                0 <= i <= n,
                out@ == st.input_set@.take(i as int),
            decreases n - i,
        {
            out.push(known[i].dup());
            proof {
                assert(st.input_set@.take(i as int).push(st.input_set@[i as int])
                    =~= st.input_set@.take(i as int + 1));
            }
            i = i + 1;
        }
        proof {
            assert(st.input_set@.take(n as int) =~= st.input_set@);
        }
        out
    }

    /// The number of input ports the registry currently knows.
    pub fn port_count(&self, st: &Static) -> (r: usize)
        ensures
            r == st.input_set@.len(),
    {
        st.input_set.len()
    }

    /// The display name of the input port at `port_number`; fails exactly
    /// when the index is not below the current count.
    pub fn port_name(&self, st: &Static, port_number: usize) -> (r: Result<
        String,
        PortInfoError,
    >)
        ensures
            port_number < st.input_set@.len() ==> (r matches Ok(n) && n@ == st.input_set@[
                port_number as int
            ].display_spec()),
            port_number >= st.input_set@.len() ==> r == Err::<String, PortInfoError>(
                PortInfoError::PortNumberOutOfRange,
            ),
    {
        st.input_set.port_name(port_number)
    }

    /// Connects to the input port at `port_number`.  In range: the backend
    /// is asked to open that port's identity, and the returned connection
    /// carries this session's filter, that identity, the callback and the
    /// context, with no deliveries yet.  Out of range: the error hands the
    /// session and the context back unchanged, so the caller can retry.
    ///
    /// Opening may be asynchronous platform-side; success here means the
    /// sink is registered, not that the device is already delivering.
    pub fn connect<T, F: MidiCallback<T>, B: Backend>(
        self,
        st: &Static,
        bk: &mut B,
        port_number: usize,
        _port_name: &str,
        callback: F,
        data: T,
    ) -> (r: Result<MidiInputConnection<T, F>, ConnectError<(MidiInput, T)>>)
        ensures
            port_number < st.input_set@.len() ==> (r matches Ok(c)
                && c.ignore_spec() == self.ignore_spec()
                && c.port_id_spec() == st.input_set@[port_number as int].id_spec()
                && c.callback_spec() == callback
                && c.context_spec() == data
                && c.log_spec() == Seq::<(u64, Seq<u8>)>::empty()),
            port_number >= st.input_set@.len() ==> (r matches Err(e)
                && e.kind_spec() == ConnectErrorKind::PortNumberOutOfRange
                && e.inner_spec() == (self, data)),
    {
        if port_number >= st.input_set.len() {
            return Err(ConnectError::new(ConnectErrorKind::PortNumberOutOfRange, (self, data)));
        }
        let port = &st.input_set.list()[port_number];
        let port_id = port.id().clone();
        bk.open_input(&port_id);
        Ok(
            MidiInputConnection {
                ignore_flags: self.ignore_flags,
                port_id,
                callback,
                user_data: data,
                log: Ghost(Seq::empty()),
            },
        )
    }
}

impl<T, F: MidiCallback<T>> MidiInputConnection<T, F> {
    /// The filter inherited from the session that opened this connection.
    pub closed spec fn ignore_spec(self) -> Ignore {
        self.ignore_flags
    }

    /// The backend identity of the connected port.
    pub closed spec fn port_id_spec(self) -> Seq<char> {
        self.port_id@
    }

    /// The callback moved in at `connect`.
    pub closed spec fn callback_spec(self) -> F {
        self.callback
    }

    /// The caller's context as the callbacks have left it so far.
    pub closed spec fn context_spec(self) -> T {
        self.user_data
    }

    /// The messages delivered to the callback so far, oldest first, each
    /// with its timestamp.
    pub closed spec fn log_spec(self) -> Seq<(u64, Seq<u8>)> {
        self.log@
    }

    /// Routes one inbound platform event.  The message's leading status
    /// byte is held against the filter: a suppressed message is dropped
    /// with nothing invoked and nothing changed; any other message is
    /// handed to the callback exactly once, with the timestamp and
    /// exclusive access to the context, and is appended to the delivery
    /// log.  Returns whether the callback was invoked.
    pub fn deliver(&mut self, timestamp_us: u64, message: &Vec<u8>) -> (delivered: bool)
        requires
            message@.len() >= 1,
        ensures
            delivered == !old(self).ignore_spec().suppresses(message@[0]),
            final(self).ignore_spec() == old(self).ignore_spec(),
            final(self).port_id_spec() == old(self).port_id_spec(),
            !delivered ==> final(self).callback_spec() == old(self).callback_spec(),
            !delivered ==> final(self).context_spec() == old(self).context_spec(),
            delivered ==> final(self).log_spec() == old(self).log_spec().push(
                (timestamp_us, message@),
            ),
            !delivered ==> final(self).log_spec() == old(self).log_spec(),
    {
        let status = message[0];
        if self.ignore_flags.should_suppress(status) {
            return false;
        }
        self.log = Ghost(self.log@.push((timestamp_us, message@)));
        self.callback.invoke(timestamp_us, message, &mut self.user_data);
        true
    }

    /// Closes the connection: the delivery sink is unregistered from the
    /// backend before the callback and context are released, and the
    /// context - exactly as the delivered callbacks have left it - is
    /// returned together with a fresh unconnected session carrying the
    /// original filter.
    pub fn close<B: Backend>(self, bk: &mut B) -> (r: (MidiInput, T))
        ensures
            r.0.ignore_spec() == self.ignore_spec(),
            r.1 == self.context_spec(),
    {
        let MidiInputConnection { ignore_flags, port_id, callback, user_data, log } = self;
        bk.close_input(&port_id);
        (MidiInput { ignore_flags }, user_data)
    }
}

/// Law: connecting with a context and closing again with no intervening
/// deliveries is a no-op round trip.  The hypotheses are exactly what
/// `connect` ensures of a fresh connection and what `close` ensures of its
/// result; the conclusion is that the context comes back equal to what was
/// supplied, under a session with the original filter.
pub proof fn lemma_connect_close_round_trip<T, F: MidiCallback<T>>(
    sess: MidiInput,
    data: T,
    conn: MidiInputConnection<T, F>,
    reopened: MidiInput,
    returned: T,
)
    requires
        conn.ignore_spec() == sess.ignore_spec(),
        conn.context_spec() == data,
        conn.log_spec() == Seq::<(u64, Seq<u8>)>::empty(),
        reopened.ignore_spec() == conn.ignore_spec(),
        returned == conn.context_spec(),
    ensures
        returned == data,
        reopened.ignore_spec() == sess.ignore_spec(),
{
}

} // verus!
