//! Ports and the identity-to-index table.
//!
//! A port is a backend-supplied identity (a stable device string) plus a
//! cached display name.  Native MIDI APIs expose ports by enumeration order
//! on each scan, not by stable handle, so repeated scans are reconciled
//! idempotently into a [`DeviceSet`]: already-seen identities keep their
//! slot, newly seen ones append.  Caller-facing indices therefore never move
//! once assigned.

use vstd::prelude::*;

use crate::errors::PortInfoError;

verus! {

/// What the index table needs of a port record: its backend identity, its
/// display name, and a copy with the same contents.
pub trait PortInfo: Sized {
    /// The backend identity, the real key of the table.
    spec fn id_spec(self) -> Seq<char>;

    /// The caller-facing display name: the cached name where the backend
    /// supplied one, the identity otherwise.
    spec fn display_spec(self) -> Seq<char>;

    fn id(&self) -> (r: &String)
        ensures
            r@ == self.id_spec(),
    ;

    fn display_name(&self) -> (r: String)
        ensures
            r@ == self.display_spec(),
    ;

    fn dup(&self) -> (r: Self)
        ensures
            r == *self,
    ;
}

/// A discoverable MIDI input port: backend identity plus optional cached
/// display name.
pub struct MidiInputPort {
    pub id: String,
    pub name: Option<String>,
}

/// A snapshot of discovered input ports, in index order.
pub type MidiInputPorts = Vec<MidiInputPort>;

/// A snapshot of discovered output ports, in index order.
pub type MidiOutputPorts = Vec<MidiOutputPort>;

/// A discoverable MIDI output port: backend identity plus optional cached
/// display name.
pub struct MidiOutputPort {
    pub id: String,
    pub name: Option<String>,
}

impl MidiInputPort {
    pub fn new(id: String, name: Option<String>) -> (r: MidiInputPort)
        ensures
            r == (MidiInputPort { id, name }),
    {
        MidiInputPort { id, name }
    }
}

impl MidiOutputPort {
    pub fn new(id: String, name: Option<String>) -> (r: MidiOutputPort)
        ensures
            r == (MidiOutputPort { id, name }),
    {
        MidiOutputPort { id, name }
    }
}

impl PortInfo for MidiInputPort {
    open spec fn id_spec(self) -> Seq<char> {
        self.id@
    }

    open spec fn display_spec(self) -> Seq<char> {
        match self.name {
            Some(n) => n@,
            None => self.id@,
        }
    }

    fn id(&self) -> (r: &String) {
        &self.id
    }

    fn display_name(&self) -> (r: String) {
        match &self.name {
            Some(n) => n.clone(),
            None => self.id.clone(),
        }
    }

    fn dup(&self) -> (r: Self) {
        MidiInputPort {
            id: self.id.clone(),
            name: match &self.name {
                Some(n) => Some(n.clone()),
                None => None,
            },
        }
    }
}

impl PortInfo for MidiOutputPort {
    open spec fn id_spec(self) -> Seq<char> {
        self.id@
    }

    open spec fn display_spec(self) -> Seq<char> {
        match self.name {
            Some(n) => n@,
            None => self.id@,
        }
    }

    fn id(&self) -> (r: &String) {
        &self.id
    }

    fn display_name(&self) -> (r: String) {
        match &self.name {
            Some(n) => n.clone(),
            None => self.id.clone(),
        }
    }

    fn dup(&self) -> (r: Self) {
        MidiOutputPort {
            id: self.id.clone(),
            name: match &self.name {
                Some(n) => Some(n.clone()),
                None => None,
            },
        }
    }
}

/// True iff some record in `s` carries the identity `id`.
pub open spec fn seq_contains_id<T: PortInfo>(s: Seq<T>, id: Seq<char>) -> bool {
    exists|i: int| 0 <= i < s.len() && s[i].id_spec() == id
}

/// One reconciliation step: a candidate with an already-seen identity is
/// dropped, an unseen one is appended.
pub open spec fn merge_one<T: PortInfo>(s: Seq<T>, d: T) -> Seq<T> {
    if seq_contains_id(s, d.id_spec()) {
        s
    } else {
        s.push(d)
    }
}

/// One whole scan reconciled left to right, candidate by candidate.
pub open spec fn merge_many<T: PortInfo>(s: Seq<T>, ds: Seq<T>) -> Seq<T>
    decreases ds.len(),
{
    if ds.len() == 0 {
        s
    } else {
        merge_many(merge_one(s, ds[0]), ds.skip(1))
    }
}

/// Bidirectional lookup of device records from indices, and vice versa.
/// Discovery order is preserved; identities are unique; indices, once
/// assigned, never change across further scans.
pub struct DeviceSet<T: PortInfo> {
    devices: Vec<T>,
}

impl<T: PortInfo> View for DeviceSet<T> {
    type V = Seq<T>;

    closed spec fn view(&self) -> Seq<T> {
        self.devices@
    }
}

impl<T: PortInfo> DeviceSet<T> {
    /// Well-formedness: no two slots carry the same identity.
    pub open spec fn wf(self) -> bool {
        forall|i: int, j: int|
            0 <= i < j < self@.len() ==> self@[i].id_spec() != self@[j].id_spec()
    }

    pub fn new() -> (r: DeviceSet<T>)
        ensures
            r@ == Seq::<T>::empty(),
            r.wf(),
    {
        DeviceSet { devices: Vec::new() }
    }

    /// Reconciles one observed device into the table: a new identity is
    /// appended at the next index, an already-seen one leaves the table
    /// unchanged.
    pub fn found_one(&mut self, device: T)
        requires
            old(self).wf(),
        ensures
            final(self).wf(),
            final(self)@ == merge_one(old(self)@, device),
    {
        let n = self.devices.len();
        let mut i: usize = 0;
        while i < n
            invariant
                self@ == old(self)@,
                self.wf(),
                n == self.devices.len(),
                0 <= i <= n,
                forall|k: int| 0 <= k < i ==> self.devices@[k].id_spec() != device.id_spec(),
            decreases n - i,
        {
            if *self.devices[i].id() == *device.id() {
                assert(seq_contains_id(self@, device.id_spec()));
                return ;
            }
            i = i + 1;
        }
        assert(!seq_contains_id(self@, device.id_spec()));
        self.devices.push(device);
    }

    /// Reconciles one whole scan, in scan order.  Previously assigned
    /// indices are untouched; unseen identities append.
    pub fn found_map(&mut self, candidates: &Vec<T>)
        requires
            old(self).wf(),
        ensures
            final(self).wf(),
            final(self)@ == merge_many(old(self)@, candidates@),
    {
        let n = candidates.len();
        let mut i: usize = 0;
        proof {
            assert(candidates@.skip(0) =~= candidates@);
        }
        while i < n
            invariant
                n == candidates.len(),
                0 <= i <= n,
                self.wf(),
                merge_many(old(self)@, candidates@) == merge_many(
                    self@,
                    candidates@.skip(i as int),
                ),
            decreases n - i,
        {
            let ghost prev = self@;
            self.found_one(candidates[i].dup());
            proof {
                assert(candidates@.skip(i as int)[0] == candidates@[i as int]);
                assert(candidates@.skip(i as int).skip(1) =~= candidates@.skip(i as int + 1));
            }
            i = i + 1;
        }
        proof {
            assert(candidates@.skip(n as int) =~= Seq::<T>::empty());
        }
    }

    /// The records in discovery order; the position of each is its port
    /// number.
    pub fn list(&self) -> (r: &Vec<T>)
        ensures
            r@ == self@,
    {
        &self.devices
    }

    /// The number of known ports.
    pub fn len(&self) -> (r: usize)
        ensures
            r == self@.len(),
    {
        self.devices.len()
    }

    /// The backend identity of the port at `port_number`, or `None` exactly
    /// when the index is not below the current count.
    pub fn identity_of(&self, port_number: usize) -> (r: Option<String>)
        ensures
            port_number < self@.len() ==> (r matches Some(id) && id@ == self@[
                port_number as int
            ].id_spec()),
            port_number >= self@.len() ==> r is None,
    {
        if port_number >= self.devices.len() {
            return None;
        }
        Some(self.devices[port_number].id().clone())
    }

    /// The display name of the port at `port_number`; fails exactly when
    /// the index is not below the current count.
    pub fn port_name(&self, port_number: usize) -> (r: Result<String, PortInfoError>)
        ensures
            port_number < self@.len() ==> (r matches Ok(n) && n@ == self@[
                port_number as int
            ].display_spec()),
            port_number >= self@.len() ==> r == Err::<String, PortInfoError>(
                PortInfoError::PortNumberOutOfRange,
            ),
    {
        if port_number >= self.devices.len() {
            return Err(PortInfoError::PortNumberOutOfRange);
        }
        Ok(self.devices[port_number].display_name())
    }
}

/// Law: reconciling any scan into any table leaves every previously
/// assigned index pointing at the same record, and never shrinks the count.
/// Applied scan after scan, indices assigned by earlier scans survive all
/// later ones, and the count is monotonically non-decreasing.
pub proof fn lemma_discover_preserves_indices<T: PortInfo>(s: Seq<T>, ds: Seq<T>)
    ensures
        merge_many(s, ds).len() >= s.len(),
        forall|i: int| 0 <= i < s.len() ==> merge_many(s, ds)[i] == s[i],
    decreases ds.len(),
{
    if ds.len() == 0 {
    } else {
        let s1 = merge_one(s, ds[0]);
        assert forall|i: int| 0 <= i < s.len() implies s1[i] == s[i] by {
            if !seq_contains_id(s, ds[0].id_spec()) {
                assert(s.push(ds[0])[i] == s[i]);
            }
        }
        lemma_discover_preserves_indices(s1, ds.skip(1));
    }
}

/// Law: the same, across any two consecutive scans; longer sequences of
/// scans follow by applying this step by step.
pub proof fn lemma_discover_sequence_preserves_indices<T: PortInfo>(
    s: Seq<T>,
    ds1: Seq<T>,
    ds2: Seq<T>,
)
    ensures
        merge_many(merge_many(s, ds1), ds2).len() >= merge_many(s, ds1).len() >= s.len(),
        forall|i: int| 0 <= i < s.len() ==> merge_many(merge_many(s, ds1), ds2)[i] == s[i],
{
    lemma_discover_preserves_indices(s, ds1);
    lemma_discover_preserves_indices(merge_many(s, ds1), ds2);
}

/// An identity present in the table survives any reconciliation step.
proof fn lemma_merge_one_keeps_id<T: PortInfo>(s: Seq<T>, d: T, id: Seq<char>)
    requires
        seq_contains_id(s, id),
    ensures
        seq_contains_id(merge_one(s, d), id),
{
    let i = choose|i: int| 0 <= i < s.len() && s[i].id_spec() == id;
    assert(merge_one(s, d)[i].id_spec() == id);
}

/// An identity present in the table survives any whole scan.
proof fn lemma_merge_many_keeps_id<T: PortInfo>(s: Seq<T>, ds: Seq<T>, id: Seq<char>)
    requires
        seq_contains_id(s, id),
    ensures
        seq_contains_id(merge_many(s, ds), id),
    decreases ds.len(),
{
    if ds.len() > 0 {
        lemma_merge_one_keeps_id(s, ds[0], id);
        lemma_merge_many_keeps_id(merge_one(s, ds[0]), ds.skip(1), id);
    }
}

/// After a scan is reconciled, every candidate's identity is in the table.
proof fn lemma_merge_many_adds_ids<T: PortInfo>(s: Seq<T>, ds: Seq<T>)
    ensures
        forall|k: int|
            0 <= k < ds.len() ==> seq_contains_id(merge_many(s, ds), ds[k].id_spec()),
    decreases ds.len(),
{
    if ds.len() > 0 {
        let s1 = merge_one(s, ds[0]);
        assert(seq_contains_id(s1, ds[0].id_spec())) by {
            if !seq_contains_id(s, ds[0].id_spec()) {
                assert(s.push(ds[0])[s.len() as int].id_spec() == ds[0].id_spec());
            }
        }
        lemma_merge_many_keeps_id(s1, ds.skip(1), ds[0].id_spec());
        lemma_merge_many_adds_ids(s1, ds.skip(1));
        assert forall|k: int|
            0 <= k < ds.len() implies seq_contains_id(merge_many(s, ds), ds[k].id_spec()) by {
            if k > 0 {
                assert(ds.skip(1)[k - 1] == ds[k]);
            }
        }
    }
}

/// A scan whose every identity is already in the table changes nothing.
proof fn lemma_merge_many_no_op<T: PortInfo>(s: Seq<T>, ds: Seq<T>)
    requires
        forall|k: int| 0 <= k < ds.len() ==> seq_contains_id(s, ds[k].id_spec()),
    ensures
        merge_many(s, ds) == s,
    decreases ds.len(),
{
    if ds.len() > 0 {
        assert(seq_contains_id(s, ds[0].id_spec()));
        assert(merge_one(s, ds[0]) == s);
        assert forall|k: int|
            0 <= k < ds.skip(1).len() implies seq_contains_id(s, ds.skip(1)[k].id_spec()) by {
            assert(ds.skip(1)[k] == ds[k + 1]);
        }
        lemma_merge_many_no_op(s, ds.skip(1));
    }
}

/// Law: reconciling a scan is idempotent - seeing the same candidates a
/// second time leaves the table exactly as the first reconciliation did,
/// so repeated enumeration scans never disturb it.
pub proof fn lemma_discover_idempotent<T: PortInfo>(s: Seq<T>, ds: Seq<T>)
    ensures
        merge_many(merge_many(s, ds), ds) == merge_many(s, ds),
{
    lemma_merge_many_adds_ids(s, ds);
    lemma_merge_many_no_op(merge_many(s, ds), ds);
}

} // verus!
