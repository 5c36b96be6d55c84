//! The audit facet: an append-only trail of what was done, in the order of time.

use std::time::Duration;
use std::time::UNIX_EPOCH;
use vstd::prelude::*;
use vstd::slice::slice_subrange;
use vstd::string::*;

verus! {

/// One entry of the trail, as plain values.
pub struct AuditRecord {
    /// Nanoseconds since the Unix epoch.
    pub timestamp: u128,
    pub operation: Seq<char>,
    pub details: Seq<char>,
}

/// One entry of the trail.
#[derive(Debug, Clone)]
pub struct AuditEntry {
    timestamp: u128,
    operation: String,
    details: String,
}

/// The trail of one object.
#[derive(Debug)]
pub struct AuditFacet {
    entries: Vec<AuditEntry>,
}

impl View for AuditEntry {
    type V = AuditRecord;

    closed spec fn view(&self) -> AuditRecord {
        AuditRecord {
            timestamp: self.timestamp,
            operation: self.operation@,
            details: self.details@,
        }
    }
}

impl AuditEntry {
    /// When the entry was recorded, in nanoseconds since the Unix epoch.
    pub fn timestamp(&self) -> (timestamp: u128)
        ensures
            timestamp == self@.timestamp,
    {
        self.timestamp
    }

    /// The name of the recorded operation.
    pub fn operation(&self) -> (operation: &str)
        ensures
            operation@ == self@.operation,
    {
        self.operation.as_str()
    }

    /// What was recorded about the operation.
    pub fn details(&self) -> (details: &str)
        ensures
            details@ == self@.details,
    {
        self.details.as_str()
    }
}

/// The entries as plain values, in the same order.
pub open spec fn records_of(entries: Seq<AuditEntry>) -> Seq<AuditRecord> {
    entries.map_values(|entry: AuditEntry| entry@)
}

/// No entry is older than the one before it.
pub open spec fn chronological(trail: Seq<AuditRecord>) -> bool {
    forall|i: int, j: int| 0 <= i <= j < trail.len() ==> trail[i].timestamp <= trail[j].timestamp
}

/// The timestamp that an entry recorded at clock time `now` receives: `now`,
/// or the timestamp of the last entry where the clock has fallen behind it.
pub open spec fn next_timestamp(trail: Seq<AuditRecord>, now: u128) -> u128 {
    if trail.len() > 0 && trail.last().timestamp > now {
        trail.last().timestamp
    } else {
        now
    }
}

/// The last `count` entries of the trail in the order of recording, or the
/// whole trail where it holds no more than that.
pub open spec fn recent(trail: Seq<AuditRecord>, count: nat) -> Seq<AuditRecord> {
    if trail.len() > count {
        trail.subrange(trail.len() - count, trail.len() as int)
    } else {
        trail
    }
}

/// Reads the system clock with `std::time::SystemTime::elapsed`, called on
/// `UNIX_EPOCH`: the time that has passed since the epoch, or `None` where
/// the clock stands before it. The value depends on when the call is made,
/// so nothing is claimed of it.
#[verifier::external_body]
fn elapsed_since_epoch() -> (elapsed: Option<Duration>) {
    match UNIX_EPOCH.elapsed() {
        Ok(elapsed) => Some(elapsed),
        Err(_) => None,
    }
}

/// Calls `std::time::Duration::as_nanos`: the whole nanoseconds of the
/// duration. A duration is opaque here, so nothing is claimed of the number.
#[verifier::external_body]
fn whole_nanoseconds(elapsed: &Duration) -> (nanoseconds: u128) {
    elapsed.as_nanos()
}

impl View for AuditFacet {
    type V = Seq<AuditRecord>;

    closed spec fn view(&self) -> Seq<AuditRecord> {
        records_of(self.entries@)
    }
}

impl AuditFacet {
    /// The trail is in the order of time.
    #[verifier::type_invariant]
    pub open spec fn well_formed(&self) -> bool {
        chronological(self@)
    }

    /// An empty trail.
    pub fn new() -> (facet: Self)
        ensures
            facet@ == Seq::<AuditRecord>::empty(),
            facet.well_formed(),
    {
        let facet = Self { entries: Vec::new() };
        facet
    }

    /// Appends an entry for `operation` with `details`, stamped with the
    /// time of the system clock, or with the timestamp of the last entry
    /// where the clock has fallen behind it.
    pub fn log_operation(&mut self, operation: &str, details: &str)
        ensures
            final(self)@ == old(self)@.push(final(self)@.last()),
            final(self)@.last().operation == operation@,
            final(self)@.last().details == details@,
            old(self)@.len() > 0 ==> final(self)@.last().timestamp >= old(self)@.last().timestamp,
            final(self).well_formed(),
    {
        let now: u128 = match elapsed_since_epoch() {
            Some(elapsed) => whole_nanoseconds(&elapsed),
            None => 0,
        };
        self.log_operation_at(now, operation, details);
    }

    /// Appends an entry for `operation` with `details`, recorded at clock
    /// time `now`. The entry's timestamp is `now`, or that of the last entry
    /// where `now` is earlier: the trail stays in the order of time.
    pub fn log_operation_at(&mut self, now: u128, operation: &str, details: &str)
        ensures
            final(self)@ == old(self)@.push(
                AuditRecord {
                    timestamp: next_timestamp(old(self)@, now),
                    operation: operation@,
                    details: details@,
                },
            ),
            final(self).well_formed(),
    {
        proof {
            use_type_invariant(&*self);
        }
        let mut entries: Vec<AuditEntry> = Vec::new();
        std::mem::swap(&mut entries, &mut self.entries);
        let ghost before = entries@;
        let count: usize = entries.len();
        let timestamp: u128 = if count > 0 && entries[count - 1].timestamp > now {
            entries[count - 1].timestamp
        } else {
            now
        };
        let entry = AuditEntry {
            timestamp,
            operation: operation.to_owned(),
            details: details.to_owned(),
        };
        entries.push(entry);
        assert(records_of(entries@) =~= records_of(before).push(entry@));
        self.entries = entries;
    }

    /// The whole trail, oldest entry first.
    pub fn get_audit_trail(&self) -> (trail: &[AuditEntry])
        ensures
            records_of(trail@) == self@,
            chronological(self@),
    {
        proof {
            use_type_invariant(self);
        }
        self.entries.as_slice()
    }

    /// The last `count` entries, oldest first, or all of them where the
    /// trail holds no more than `count`.
    pub fn get_recent_entries(&self, count: usize) -> (entries: &[AuditEntry])
        ensures
            records_of(entries@) == recent(self@, count as nat),
    {
        let total: usize = self.entries.len();
        let start: usize = if total > count {
            total - count
        } else {
            0
        };
        let entries = slice_subrange(self.entries.as_slice(), start, total);
        entries
    }
}

} // verus!
