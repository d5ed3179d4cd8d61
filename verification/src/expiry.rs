//! The expiry policy: when a subscription-derived entitlement runs out.
//!
//! A scheduled next charge date is authoritative and returned verbatim.
//! Failing that, the most recent charge anchors the grant period and is
//! advanced by the billing cadence (one month when the cadence is absent),
//! with the day of month normalized to the target month's end. With no
//! billing history at all the grant has zero length: it expires at
//! evaluation time. Month arithmetic that leaves the supported calendar
//! range is a recoverable, typed failure, never an abort.

use vstd::prelude::*;
use crate::models::MemberAttributes;
use crate::timestamp::Timestamp;

verus! {

/// Typed failure of the expiry computation.
#[derive(Clone, Copy, Debug, PartialEq, Eq, Structural, Hash)]
pub enum ExpiryError {
    /// Advancing the last charge date by the cadence produced a date
    /// outside the supported calendar range.
    DateArithmeticOverflow,
}

/// Billing cadence assumed when the record does not carry one, in months.
pub const DEFAULT_PLEDGE_CADENCE: u32 = 1;

/// The expiry the policy owes for `attrs`, evaluated at `now`.
pub open spec fn expiry_spec(attrs: MemberAttributes, now: Timestamp) -> Result<
    Timestamp,
    ExpiryError,
> {
    match attrs.next_charge_date {
        Some(next) => Ok(next),
        None => match attrs.last_charge_date {
            Some(last) => {
                let cadence = match attrs.pledge_cadence {
                    Some(c) => c,
                    None => DEFAULT_PLEDGE_CADENCE,
                };
                match last.add_months_spec(cadence as int) {
                    Some(t) => Ok(t),
                    None => Err(ExpiryError::DateArithmeticOverflow),
                }
            },
            None => Ok(now),
        },
    }
}

/// Computes the expiry for `member_attributes` with `now` as the
/// evaluation time, following the precedence of [`expiry_spec`].
pub fn calculate_expiry(member_attributes: &MemberAttributes, now: Timestamp) -> (r: Result<
    Timestamp,
    ExpiryError,
>)
    requires
        member_attributes.wf(),
        now.wf(),
    ensures
        r == expiry_spec(*member_attributes, now),
        r matches Ok(t) ==> t.wf(),
{
    if let Some(next_charge_date) = member_attributes.next_charge_date {
        return Ok(next_charge_date);
    }
    let last_charge_date = match member_attributes.last_charge_date {
        Some(date) => date,
        None => {
            return Ok(now);
        },
    };
    let cadence = match member_attributes.pledge_cadence {
        Some(c) => c,
        None => DEFAULT_PLEDGE_CADENCE,
    };
    match last_charge_date.checked_add_months(cadence) {
        Some(t) => Ok(t),
        None => Err(ExpiryError::DateArithmeticOverflow),
    }
}

/// Expiry precedence law: a scheduled next charge date decides alone,
/// whatever the other fields hold; otherwise the last charge date advanced
/// by one month (the default cadence) decides; and with no billing history
/// at all the expiry is the evaluation time itself.
pub proof fn lemma_expiry_precedence(attrs: MemberAttributes, now: Timestamp)
    ensures
        attrs.next_charge_date matches Some(d) ==> expiry_spec(attrs, now) == Ok::<
            Timestamp,
            ExpiryError,
        >(d),
        attrs.next_charge_date is None && attrs.pledge_cadence is None ==> expiry_spec(attrs, now)
            == (match attrs.last_charge_date {
            Some(l) => match l.add_months_spec(1) {
                Some(t) => Ok::<Timestamp, ExpiryError>(t),
                None => Err::<Timestamp, ExpiryError>(ExpiryError::DateArithmeticOverflow),
            },
            None => Ok::<Timestamp, ExpiryError>(now),
        }),
        attrs.next_charge_date is None && attrs.last_charge_date is None ==> expiry_spec(attrs, now)
            == Ok::<Timestamp, ExpiryError>(now),
{
}

} // verus!
