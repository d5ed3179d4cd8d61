//! Externally supplied, read-only records from the payment platform.

use vstd::prelude::*;
use crate::timestamp::Timestamp;

verus! {

/// Billing state of one subscriber at one point in time, as handed over by
/// the payment platform: the scheduled next charge, the most recent charge,
/// and the billing cadence in months. Every field may be absent.
#[derive(Clone, Copy, Debug, PartialEq, Eq)]
pub struct MemberAttributes {
    pub next_charge_date: Option<Timestamp>,
    pub last_charge_date: Option<Timestamp>,
    pub pledge_cadence: Option<u32>,
}

impl MemberAttributes {
    /// Every date the record carries is a well-formed timestamp.
    pub open spec fn wf(self) -> bool {
        &&& (self.next_charge_date matches Some(d) ==> d.wf())
        &&& (self.last_charge_date matches Some(d) ==> d.wf())
    }
}

} // verus!
