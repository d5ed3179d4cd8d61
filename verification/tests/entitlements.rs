use patreon_proxy::entitlement::{Entitlement, ManualGrant};
use patreon_proxy::expiry::{calculate_expiry, ExpiryError};
use patreon_proxy::models::MemberAttributes;
use patreon_proxy::tier::{
    Tier, TIER_ID_PREMIUM, TIER_ID_PREMIUM_LEGACY_A, TIER_ID_WHITELABEL, TIER_ID_WHITELABEL_LEGACY,
};
use patreon_proxy::timestamp::Timestamp;

fn ts(year: i32, month: u8, day: u8) -> Timestamp {
    Timestamp { year, month, day, hour: 0, minute: 0, second: 0 }
}

fn attrs(
    next: Option<Timestamp>,
    last: Option<Timestamp>,
    cadence: Option<u32>,
) -> MemberAttributes {
    MemberAttributes { next_charge_date: next, last_charge_date: last, pledge_cadence: cadence }
}

const UNKNOWN_ID: usize = 424242;

#[test]
fn unknown_tier_and_no_manual_grant_is_empty() {
    let a = attrs(Some(ts(2024, 6, 1)), None, None);
    let r = Entitlement::entitled_skus_at(UNKNOWN_ID, &a, None, ts(2024, 5, 1)).unwrap();
    assert!(r.is_empty());
}

#[test]
fn unknown_tier_with_manual_grant_yields_only_manual() {
    let a = attrs(Some(ts(2024, 6, 1)), None, None);
    let now = ts(2024, 5, 1);
    let manual = Some(ManualGrant { tier: Tier::Whitelabel });
    let r = Entitlement::entitled_skus_at(UNKNOWN_ID, &a, manual, now).unwrap();
    assert_eq!(r.len(), 1);
    assert_eq!(r[0].tier, Tier::Whitelabel);
    assert_eq!(r[0].patreon_tier_id, None);
    assert!(!r[0].is_legacy);
    assert_eq!(r[0].expires_at, ts(2024, 6, 1));
    assert_eq!(r[0].label, "whitelabel");
}

#[test]
fn legacy_premium_with_next_charge_date() {
    let a = attrs(Some(ts(2024, 6, 1)), None, None);
    let r = Entitlement::entitled_skus_at(TIER_ID_PREMIUM_LEGACY_A, &a, None, ts(2024, 5, 20))
        .unwrap();
    assert_eq!(r.len(), 1);
    assert_eq!(r[0].tier, Tier::Premium);
    assert!(r[0].is_legacy);
    assert_eq!(r[0].expires_at, ts(2024, 6, 1));
    assert_eq!(r[0].patreon_tier_id, Some(TIER_ID_PREMIUM_LEGACY_A));
    assert_eq!(r[0].label, "premium");
}

#[test]
fn last_charge_plus_cadence_sets_expiry() {
    let a = attrs(None, Some(ts(2024, 1, 15)), Some(3));
    let exp = calculate_expiry(&a, ts(2024, 2, 1)).unwrap();
    assert_eq!(exp, ts(2024, 4, 15));
    let r = Entitlement::entitled_skus_at(TIER_ID_PREMIUM, &a, None, ts(2024, 2, 1)).unwrap();
    assert_eq!(r.len(), 1);
    assert_eq!(r[0].expires_at, ts(2024, 4, 15));
    assert!(!r[0].is_legacy);
}

#[test]
fn next_charge_date_wins_over_last_charge_and_cadence() {
    let a = attrs(Some(ts(2025, 1, 2)), Some(ts(2024, 1, 15)), Some(6));
    let exp = calculate_expiry(&a, ts(2024, 2, 1)).unwrap();
    assert_eq!(exp, ts(2025, 1, 2));
}

#[test]
fn missing_cadence_defaults_to_one_month() {
    let a = attrs(None, Some(ts(2024, 1, 15)), None);
    let exp = calculate_expiry(&a, ts(2024, 2, 1)).unwrap();
    assert_eq!(exp, ts(2024, 2, 15));
}

#[test]
fn no_billing_history_expires_at_evaluation_time() {
    let a = attrs(None, None, Some(5));
    let now = ts(2024, 8, 9);
    let exp = calculate_expiry(&a, now).unwrap();
    assert_eq!(exp, now);
}

#[test]
fn expiry_overflow_is_a_typed_error() {
    let a = attrs(None, Some(ts(9999, 12, 31)), Some(1));
    assert_eq!(calculate_expiry(&a, ts(2024, 1, 1)), Err(ExpiryError::DateArithmeticOverflow));
    let r = Entitlement::entitled_skus_at(TIER_ID_PREMIUM, &a, None, ts(2024, 1, 1));
    assert_eq!(r, Err(ExpiryError::DateArithmeticOverflow));
}

#[test]
fn whitelabel_inherits_premium_sharing_expiry_and_legacy() {
    let a = attrs(Some(ts(2024, 9, 1)), None, None);
    let now = ts(2024, 8, 1);
    let r = Entitlement::entitled_skus_at(TIER_ID_WHITELABEL_LEGACY, &a, None, now).unwrap();
    assert_eq!(r.len(), 2);
    assert_eq!(r[0].tier, Tier::Premium);
    assert_eq!(r[1].tier, Tier::Whitelabel);
    for e in &r {
        assert_eq!(e.expires_at, ts(2024, 9, 1));
        assert!(e.is_legacy);
        assert_eq!(e.patreon_tier_id, Some(TIER_ID_WHITELABEL_LEGACY));
    }
    assert_eq!(r[0].label, "premium");
    assert_eq!(r[1].label, "whitelabel");
}

#[test]
fn subscription_and_manual_concatenate_in_order() {
    let a = attrs(Some(ts(2024, 9, 1)), None, None);
    let now = ts(2024, 8, 1);
    let manual = Some(ManualGrant { tier: Tier::Whitelabel });
    let r = Entitlement::entitled_skus_at(TIER_ID_WHITELABEL, &a, manual, now).unwrap();
    assert_eq!(r.len(), 3);
    assert_eq!(r[0].tier, Tier::Premium);
    assert_eq!(r[1].tier, Tier::Whitelabel);
    assert_eq!(r[2].tier, Tier::Whitelabel);
    assert_eq!(r[2].patreon_tier_id, None);
    assert!(!r[2].is_legacy);
    assert_eq!(r[2].expires_at, ts(2024, 9, 1));
    assert!(!r[0].is_legacy);
    assert!(!r[1].is_legacy);
}

#[test]
fn manual_grant_expires_one_month_after_evaluation() {
    let now = Timestamp { year: 2024, month: 1, day: 31, hour: 12, minute: 30, second: 5 };
    let e = Entitlement::from_manual_whitelabel("user-1", now).unwrap();
    assert_eq!(e.tier, Tier::Whitelabel);
    assert_eq!(e.patreon_tier_id, None);
    assert!(!e.is_legacy);
    // one month later, clamped to February's length in a leap year
    assert_eq!(
        e.expires_at,
        Timestamp { year: 2024, month: 2, day: 29, hour: 12, minute: 30, second: 5 },
    );
}

#[test]
fn manual_grant_skipped_when_its_expiry_overflows() {
    let now = ts(9999, 12, 1);
    assert!(Entitlement::from_manual_whitelabel("user-1", now).is_none());
    let a = attrs(Some(ts(2024, 9, 1)), None, None);
    let manual = Some(ManualGrant { tier: Tier::Whitelabel });
    let r = Entitlement::entitled_skus_at(UNKNOWN_ID, &a, manual, now).unwrap();
    assert!(r.is_empty());
}

#[test]
fn from_patreon_tier_id_resolves_known_and_unknown() {
    let a = attrs(Some(ts(2024, 6, 1)), None, None);
    let now = ts(2024, 5, 1);
    let e = Entitlement::from_patreon_tier_id(TIER_ID_PREMIUM_LEGACY_A, &a, now).unwrap().unwrap();
    assert_eq!(e.tier, Tier::Premium);
    assert!(e.is_legacy);
    assert_eq!(e.expires_at, ts(2024, 6, 1));
    assert!(Entitlement::from_patreon_tier_id(UNKNOWN_ID, &a, now).unwrap().is_none());
}

#[test]
fn entitlement_new_derives_label_from_tier() {
    let e = Entitlement::new(Tier::Premium, Some(TIER_ID_PREMIUM), false, ts(2024, 6, 1));
    assert_eq!(e.label, "premium");
    assert_eq!(e.tier, Tier::Premium);
    let e = Entitlement::new(Tier::Whitelabel, None, false, ts(2024, 6, 1));
    assert_eq!(e.label, "whitelabel");
}
