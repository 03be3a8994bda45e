//! The output session state machine.
//!
//! It mirrors the input side without a filter or a context: an unconnected
//! [`MidiOutput`] enumerates ports, `connect` range-checks the port number
//! and asks the backend to open the chosen identity, and the returned
//! [`MidiOutputConnection`] forwards each `send` verbatim to the backend's
//! write primitive.  `close` requests the backend close - fire-and-forget,
//! completion is not observable - and returns a fresh unconnected session.

use vstd::prelude::*;

use crate::access::Static;
use crate::backend::Backend;
use crate::errors::{ConnectError, ConnectErrorKind, InitError, PortInfoError, SendError};
use crate::ports::{MidiOutputPort, MidiOutputPorts, PortInfo};

verus! {

/// An unconnected MIDI output session; create one with [`MidiOutput::new`].
pub struct MidiOutput {}

/// An open connection to a MIDI output port.
pub struct MidiOutputConnection {
    port_id: String,
    sent: Ghost<Seq<Seq<u8>>>,
}

impl MidiOutput {
    /// Creates a new unconnected output session.  Nothing platform-side is
    /// touched yet, so construction always succeeds.
    pub fn new(_client_name: &str) -> (r: Result<MidiOutput, InitError>)
        ensures
            r matches Ok(_),
    {
        Ok(MidiOutput {  })
    }

    /// A snapshot of the discovered output ports, in index order.
    pub fn ports(&self, st: &Static) -> (r: MidiOutputPorts)
        ensures
            r@ == st.output_set@,
    {
        let known = st.output_set.list();
        let n = known.len();
        let mut out: MidiOutputPorts = Vec::new();
        let mut i: usize = 0;
        while i < n
            invariant
                n == known@.len(),
                known@ == st.output_set@,
                0 <= i <= n,
                out@ == st.output_set@.take(i as int),
            decreases n - i,
        {
            out.push(known[i].dup());
            proof {
                assert(st.output_set@.take(i as int).push(st.output_set@[i as int])
                    =~= st.output_set@.take(i as int + 1));
            }
            i = i + 1;
        }
        proof {
            assert(st.output_set@.take(n as int) =~= st.output_set@);
        }
        out
    }

    /// The number of output ports the registry currently knows.
    pub fn port_count(&self, st: &Static) -> (r: usize)
        ensures
            r == st.output_set@.len(),
    {
        st.output_set.len()
    }

    /// The display name of the output port at `port_number`; fails exactly
    /// when the index is not below the current count.
    pub fn port_name(&self, st: &Static, port_number: usize) -> (r: Result<
        String,
        PortInfoError,
    >)
        ensures
            port_number < st.output_set@.len() ==> (r matches Ok(n) && n@ == st.output_set@[
                port_number as int
            ].display_spec()),
            port_number >= st.output_set@.len() ==> r == Err::<String, PortInfoError>(
                PortInfoError::PortNumberOutOfRange,
            ),
    {
        st.output_set.port_name(port_number)
    }

    /// Connects to the output port at `port_number`.  In range: the backend
    /// is asked to open that port's identity and the returned connection
    /// carries it, with nothing sent yet.  Out of range: the error hands
    /// the session back unchanged, so the caller can retry.
    pub fn connect<B: Backend>(
        self,
        st: &Static,
        bk: &mut B,
        port_number: usize,
        _port_name: &str,
    ) -> (r: Result<MidiOutputConnection, ConnectError<MidiOutput>>)
        ensures
            port_number < st.output_set@.len() ==> (r matches Ok(c)
                && c.port_id_spec() == st.output_set@[port_number as int].id_spec()
                && c.sent_spec() == Seq::<Seq<u8>>::empty()),
            port_number >= st.output_set@.len() ==> (r matches Err(e)
                && e.kind_spec() == ConnectErrorKind::PortNumberOutOfRange
                && e.inner_spec() == self),
    {
        if port_number >= st.output_set.len() {
            return Err(ConnectError::new(ConnectErrorKind::PortNumberOutOfRange, self));
        }
        let port = &st.output_set.list()[port_number];
        let port_id = port.id().clone();
        bk.open_output(&port_id);
        Ok(MidiOutputConnection { port_id, sent: Ghost(Seq::empty()) })
    }
}

impl MidiOutputConnection {
    /// The backend identity of the connected port.
    pub closed spec fn port_id_spec(self) -> Seq<char> {
        self.port_id@
    }

    /// The messages the backend has accepted so far, oldest first.
    pub closed spec fn sent_spec(self) -> Seq<Seq<u8>> {
        self.sent@
    }

    /// Forwards `message` verbatim to the backend's write primitive.  The
    /// backend alone decides acceptance: on `Ok` exactly this message is
    /// appended to the send log; on rejection nothing is recorded and the
    /// platform's diagnostic is carried in `SendError::Other`.
    pub fn send<B: Backend>(&mut self, bk: &mut B, message: &Vec<u8>) -> (r: Result<
        (),
        SendError,
    >)
        ensures
            final(self).port_id_spec() == old(self).port_id_spec(),
            r matches Ok(_) ==> final(self).sent_spec() == old(self).sent_spec().push(message@),
            r matches Err(e) ==> (e matches SendError::Other(_) && final(self).sent_spec() == old(
                self,
            ).sent_spec()),
    {
        match bk.write(&self.port_id, message) {
            Ok(()) => {
                self.sent = Ghost(self.sent@.push(message@));
                Ok(())
            },
            Err(reason) => Err(SendError::Other(reason)),
        }
    }

    /// Closes the connection: the backend is asked to close the port -
    /// completion is not guaranteed observable - and a fresh unconnected
    /// session is returned.
    pub fn close<B: Backend>(self, bk: &mut B) -> (r: MidiOutput)
        ensures
            r == (MidiOutput {  }),
    {
        bk.close_output(&self.port_id);
        MidiOutput {  }
    }
}

} // verus!
