//! The process-wide platform registry: one lazily requested, possibly
//! pending capability resource, plus the per-direction port tables.
//!
//! On permission-gated platforms the capability is granted asynchronously;
//! its state is kept explicit here, and the pending-to-ready transition is
//! an observable event the driver reports through [`Static::access_granted`]
//! or [`Static::access_denied`].  Scans reconcile into the tables only once
//! the capability is ready; before that they are ignored, so a session may
//! see zero ports without an error - the documented behavior when access is
//! never granted.

use vstd::prelude::*;

use crate::ports::{DeviceSet, MidiInputPort, MidiOutputPort, merge_many};

verus! {

/// The lifecycle of the platform capability resource.
#[derive(Clone, Copy, PartialEq, Eq, Structural, Debug)]
pub enum AccessState {
    /// No request has been issued yet (or the last one failed before being
    /// issued).
    Unrequested,
    /// A request has been issued and not yet answered.
    Pending,
    /// Access was granted; scans are live.
    Ready,
    /// The last request was answered with a refusal; a new request may be
    /// issued.
    Failed,
}

/// The singleton registry: capability state and the two port tables, one
/// per direction, never shared across directions.
pub struct Static {
    pub access: AccessState,
    pub input_set: DeviceSet<MidiInputPort>,
    pub output_set: DeviceSet<MidiOutputPort>,
}

impl Static {
    /// Both tables are well-formed.
    pub open spec fn wf(self) -> bool {
        self.input_set.wf() && self.output_set.wf()
    }

    /// A fresh registry: nothing requested, no ports known.
    pub fn new() -> (r: Static)
        ensures
            r.wf(),
            r.access == AccessState::Unrequested,
            r.input_set@ == Seq::<MidiInputPort>::empty(),
            r.output_set@ == Seq::<MidiOutputPort>::empty(),
    {
        Static { access: AccessState::Unrequested, input_set: DeviceSet::new(), output_set: DeviceSet::new() }
    }

    /// Decides whether a platform access request is to be issued now: yes
    /// exactly when none is live - not while one is pending, and not once
    /// access is held.  On `true` the state moves to `Pending` and the
    /// caller must issue the request; otherwise nothing changes.
    pub fn request_midi_access(&mut self) -> (issue: bool)
        ensures
            final(self).input_set == old(self).input_set,
            final(self).output_set == old(self).output_set,
            issue == (old(self).access == AccessState::Unrequested || old(self).access
                == AccessState::Failed),
            issue ==> final(self).access == AccessState::Pending,
            !issue ==> final(self).access == old(self).access,
    {
        match self.access {
            AccessState::Unrequested | AccessState::Failed => {
                self.access = AccessState::Pending;
                true
            },
            _ => false,
        }
    }

    /// The platform answered a request with a grant: access is now held.
    pub fn access_granted(&mut self)
        ensures
            final(self).input_set == old(self).input_set,
            final(self).output_set == old(self).output_set,
            final(self).access == AccessState::Ready,
    {
        self.access = AccessState::Ready;
    }

    /// The platform answered a pending request with a refusal.  Any other
    /// report is stale and changes nothing.
    pub fn access_denied(&mut self)
        ensures
            final(self).input_set == old(self).input_set,
            final(self).output_set == old(self).output_set,
            old(self).access == AccessState::Pending ==> final(self).access
                == AccessState::Failed,
            old(self).access != AccessState::Pending ==> final(self).access == old(self).access,
    {
        if self.access == AccessState::Pending {
            self.access = AccessState::Failed;
        }
    }

    /// Reconciles one scan of input candidates into the input table - but
    /// only while access is held; without it the scan is ignored.
    pub fn refresh_inputs(&mut self, candidates: &Vec<MidiInputPort>)
        requires
            old(self).wf(),
        ensures
            final(self).wf(),
            final(self).access == old(self).access,
            final(self).output_set == old(self).output_set,
            old(self).access == AccessState::Ready ==> final(self).input_set@ == merge_many(
                old(self).input_set@,
                candidates@,
            ),
            old(self).access != AccessState::Ready ==> final(self).input_set == old(
                self,
            ).input_set,
    {
        if self.access == AccessState::Ready {
            self.input_set.found_map(candidates);
        }
    }

    /// Reconciles one scan of output candidates into the output table - but
    /// only while access is held; without it the scan is ignored.
    pub fn refresh_outputs(&mut self, candidates: &Vec<MidiOutputPort>)
        requires
            old(self).wf(),
        ensures
            final(self).wf(),
            final(self).access == old(self).access,
            final(self).input_set == old(self).input_set,
            old(self).access == AccessState::Ready ==> final(self).output_set@ == merge_many(
                old(self).output_set@,
                candidates@,
            ),
            old(self).access != AccessState::Ready ==> final(self).output_set == old(
                self,
            ).output_set,
    {
        if self.access == AccessState::Ready {
            self.output_set.found_map(candidates);
        }
    }
}

} // verus!
