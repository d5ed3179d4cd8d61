use patreon_proxy::entitlement::{Entitlement, ManualGrant};
use patreon_proxy::models::MemberAttributes;
use chrono::{Datelike, Timelike};
use patreon_proxy::tier::{
    Tier, TIER_ID_PREMIUM, TIER_ID_PREMIUM_LEGACY_A, TIER_ID_PREMIUM_LEGACY_B, TIER_ID_WHITELABEL,
    TIER_ID_WHITELABEL_LEGACY,
};

#[test]
fn lookup_maps_every_catalog_id() {
    assert_eq!(Tier::get_by_patreon_id(TIER_ID_PREMIUM_LEGACY_A), Some(Tier::Premium));
    assert_eq!(Tier::get_by_patreon_id(TIER_ID_PREMIUM_LEGACY_B), Some(Tier::Premium));
    assert_eq!(Tier::get_by_patreon_id(TIER_ID_PREMIUM), Some(Tier::Premium));
    assert_eq!(Tier::get_by_patreon_id(TIER_ID_WHITELABEL_LEGACY), Some(Tier::Whitelabel));
    assert_eq!(Tier::get_by_patreon_id(TIER_ID_WHITELABEL), Some(Tier::Whitelabel));
    assert_eq!(Tier::get_by_patreon_id(0), None);
    assert_eq!(Tier::get_by_patreon_id(123456), None);
}

#[test]
fn legacy_flag_is_membership_in_the_legacy_cohort() {
    assert!(Tier::Premium.is_legacy(TIER_ID_PREMIUM_LEGACY_A));
    assert!(Tier::Premium.is_legacy(TIER_ID_PREMIUM_LEGACY_B));
    assert!(!Tier::Premium.is_legacy(TIER_ID_PREMIUM));
    assert!(Tier::Whitelabel.is_legacy(TIER_ID_WHITELABEL_LEGACY));
    assert!(!Tier::Whitelabel.is_legacy(TIER_ID_WHITELABEL));
    // an id from the other tier's cohort is not legacy for this tier
    assert!(!Tier::Premium.is_legacy(TIER_ID_WHITELABEL_LEGACY));
    assert!(!Tier::Whitelabel.is_legacy(TIER_ID_PREMIUM_LEGACY_A));
}

#[test]
fn sku_labels_are_stable() {
    assert_eq!(Tier::Premium.sku_label(), "premium");
    assert_eq!(Tier::Whitelabel.sku_label(), "whitelabel");
}

#[test]
fn whitelabel_inherits_premium_and_premium_inherits_nothing() {
    assert!(Tier::Premium.inherited_tiers().is_empty());
    assert_eq!(Tier::Whitelabel.inherited_tiers(), vec![Tier::Premium]);
}

#[test]
fn manual_store_stub_grants_whitelabel() {
    let g = patreon_proxy::entitlement::get_manual_entitlement_from_db("any-user");
    assert_eq!(g, Some(ManualGrant { tier: Tier::Whitelabel }));
}

#[test]
fn entitled_skus_reads_the_clock_and_the_store() {
    let a = MemberAttributes {
        next_charge_date: None,
        last_charge_date: None,
        pledge_cadence: None,
    };
    let before = chrono::Utc::now();
    let r = Entitlement::entitled_skus("user-1", 0, &a).unwrap();
    let after = chrono::Utc::now();
    // no subscription tier resolves, so only the stub's manual grant remains
    assert_eq!(r.len(), 1);
    assert_eq!(r[0].tier, Tier::Whitelabel);
    assert_eq!(r[0].patreon_tier_id, None);
    assert!(!r[0].is_legacy);
    // the manual expiry is one month after the clock reading; undo the month
    // and compare with the clock, allowing the test to straddle a second
    let e = r[0].expires_at;
    let base = chrono::NaiveDate::from_ymd_opt(e.year, e.month as u32, e.day as u32)
        .unwrap()
        .and_hms_opt(e.hour as u32, e.minute as u32, e.second as u32)
        .unwrap()
        .and_utc();
    let lower = before.with_nanosecond(0).unwrap();
    assert!(base >= lower.checked_add_months(chrono::Months::new(1)).unwrap());
    assert!(base <= after.checked_add_months(chrono::Months::new(1)).unwrap());
    assert!(e.year >= before.year() && e.year <= after.year() + 1);
}
