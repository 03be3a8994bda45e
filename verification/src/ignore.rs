//! The inbound message filter: a small set of status-byte categories that
//! may be suppressed before delivery.
//!
//! Filtering is evaluated once per inbound message against its leading
//! status byte only; it never inspects the payload.  Exactly three bytes are
//! recognized, each mapped to one category; every other byte always passes.

use vstd::prelude::*;

verus! {

/// The system-exclusive start byte, mapped to the `sysex` category.
pub const STATUS_SYSEX_START: u8 = 0xF0;

/// The time-code quarter-frame byte, mapped to the `time` category.
pub const STATUS_TIME: u8 = 0xF1;

/// The active-sensing byte, mapped to the `active_sense` category.
pub const STATUS_ACTIVE_SENSE: u8 = 0xF8;

/// A set of status-byte categories to filter out of input delivery.
/// By default (see [`Ignore::none`]) no messages are ignored.
#[derive(Clone, Copy, PartialEq, Eq, Structural, Debug)]
pub struct Ignore {
    pub sysex: bool,
    pub time: bool,
    pub active_sense: bool,
}

impl Ignore {
    /// True iff a message whose leading status byte is `status` is dropped
    /// before delivery: the byte must be one of the three recognized bytes
    /// and its category's flag must be set.
    pub open spec fn suppresses(self, status: u8) -> bool {
        ||| status == STATUS_SYSEX_START && self.sysex
        ||| status == STATUS_TIME && self.time
        ||| status == STATUS_ACTIVE_SENSE && self.active_sense
    }

    /// True iff every category set in `other` is also set in `self`.
    pub open spec fn contains_spec(self, other: Ignore) -> bool {
        &&& other.sysex ==> self.sysex
        &&& other.time ==> self.time
        &&& other.active_sense ==> self.active_sense
    }

    /// The empty category set: nothing is filtered.
    pub fn none() -> (r: Ignore)
        ensures
            r == (Ignore { sysex: false, time: false, active_sense: false }),
    {
        Ignore { sysex: false, time: false, active_sense: false }
    }

    /// Every category set: all three recognized bytes are filtered.
    pub fn all() -> (r: Ignore)
        ensures
            r == (Ignore { sysex: true, time: true, active_sense: true }),
    {
        Ignore { sysex: true, time: true, active_sense: true }
    }

    pub fn new(sysex: bool, time: bool, active_sense: bool) -> (r: Ignore)
        ensures
            r == (Ignore { sysex, time, active_sense }),
    {
        Ignore { sysex, time, active_sense }
    }

    pub fn contains(self, other: Ignore) -> (r: bool)
        ensures
            r == self.contains_spec(other),
    {
        (!other.sysex || self.sysex) && (!other.time || self.time) && (!other.active_sense
            || self.active_sense)
    }

    /// Decides the fate of an inbound message from its leading status byte.
    pub fn should_suppress(self, status: u8) -> (r: bool)
        ensures
            r == self.suppresses(status),
    {
        (status == STATUS_SYSEX_START && self.sysex) || (status == STATUS_TIME && self.time) || (
        status == STATUS_ACTIVE_SENSE && self.active_sense)
    }
}

/// Law: a message that starts with the system-exclusive start byte is
/// suppressed exactly when the `sysex` flag is set, whatever the other
/// flags hold.
pub proof fn lemma_sysex_gate(flags: Ignore, msg: Seq<u8>)
    requires
        msg.len() >= 1,
        msg[0] == STATUS_SYSEX_START,
    ensures
        flags.suppresses(msg[0]) == flags.sysex,
{
}

} // verus!
