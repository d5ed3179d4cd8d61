//! The entitlement resolver: from a subscriber's external tier identifier
//! and billing record to the product tiers the subscriber holds.
//!
//! Resolution first looks the identifier up in the tier catalog. A match
//! yields one entitlement for every inherited tier and one for the matched
//! tier itself; all of them share the root grant's expiry and legacy flag,
//! and carry the root's external identifier — an inherited benefit is not
//! independently purchased and has no identifier of its own. Independently,
//! a manually assigned grant, when present, adds one more entitlement with
//! no platform identifier, never legacy, expiring one month after
//! evaluation time. Nothing is deduplicated or ranked: callers wanting
//! "highest tier wins" reduce the list themselves.

use vstd::prelude::*;
use crate::expiry::{calculate_expiry, expiry_spec, ExpiryError};
use crate::models::MemberAttributes;
use crate::tier::{inherited_spec, is_legacy_spec, label_spec, tier_for_spec, Tier};
use crate::timestamp::{now_timestamp, Timestamp};

verus! {

/// One resolved holding: a tier, its product label, the external identifier
/// it came from (absent for manual grants), whether the grant is in a
/// legacy cohort, and when it expires.
#[derive(Clone, Debug, PartialEq, Eq)]
pub struct Entitlement {
    pub tier: Tier,
    pub label: String,
    pub patreon_tier_id: Option<usize>,
    pub is_legacy: bool,
    pub expires_at: Timestamp,
}

/// A manually assigned grant, as the override source hands it over.
#[derive(Clone, Copy, Debug, PartialEq, Eq, Structural)]
pub struct ManualGrant {
    pub tier: Tier,
}

/// The mathematical content of an [`Entitlement`]: every field but the
/// label, which the tier determines.
pub ghost struct EntModel {
    pub tier: Tier,
    pub patreon_tier_id: Option<usize>,
    pub is_legacy: bool,
    pub expires_at: Timestamp,
}

impl Entitlement {
    /// The entitlement's mathematical content.
    pub open spec fn model(self) -> EntModel {
        EntModel {
            tier: self.tier,
            patreon_tier_id: self.patreon_tier_id,
            is_legacy: self.is_legacy,
            expires_at: self.expires_at,
        }
    }

    /// The label matches the tier and the expiry is a real timestamp.
    pub open spec fn wf(self) -> bool {
        &&& self.label@ == label_spec(self.tier)
        &&& self.expires_at.wf()
    }
}

/// A subscription-derived entitlement model for tier `t`, rooted at
/// external identifier `id`.
pub open spec fn derived_model(t: Tier, id: usize, is_legacy: bool, expires_at: Timestamp) -> EntModel {
    EntModel { tier: t, patreon_tier_id: Some(id), is_legacy, expires_at }
}

/// The subscription-derived part of a resolution: nothing for an unknown
/// identifier; for a matched tier, its inherited tiers in catalog order and
/// then the tier itself, all sharing one expiry and one legacy flag.
pub open spec fn subscription_models(id: usize, attrs: MemberAttributes, now: Timestamp) -> Result<
    Seq<EntModel>,
    ExpiryError,
> {
    match tier_for_spec(id) {
        Some(t) => match expiry_spec(attrs, now) {
            Ok(exp) => Ok(
                inherited_spec(t).map_values(
                    |it: Tier| derived_model(it, id, is_legacy_spec(t, id), exp),
                ).push(derived_model(t, id, is_legacy_spec(t, id), exp)),
            ),
            Err(e) => Err(e),
        },
        None => Ok(Seq::empty()),
    }
}

/// What the manual-override source answers for `user_id`. The backing
/// store is a stub for now: every subscriber is granted Whitelabel.
pub open spec fn manual_lookup_spec(user_id: Seq<char>) -> Option<ManualGrant> {
    Some(ManualGrant { tier: Tier::Whitelabel })
}

/// The entitlement a manual grant resolves to: the granted tier, no
/// platform identifier, never legacy, expiring one month after `now`.
/// A grant whose expiry would leave the calendar range yields nothing.
pub open spec fn manual_model(manual: Option<ManualGrant>, now: Timestamp) -> Option<EntModel> {
    match manual {
        Some(g) => match now.add_months_spec(1) {
            Some(exp) => Some(
                EntModel { tier: g.tier, patreon_tier_id: None, is_legacy: false, expires_at: exp },
            ),
            None => None,
        },
        None => None,
    }
}

/// The manual part of a resolution, as a sequence of zero or one models.
pub open spec fn manual_models(manual: Option<ManualGrant>, now: Timestamp) -> Seq<EntModel> {
    match manual_model(manual, now) {
        Some(m) => seq![m],
        None => Seq::empty(),
    }
}

/// A whole resolution: the subscription-derived part followed by the
/// manual part. Only the expiry computation can fail.
pub open spec fn entitled_models(
    id: usize,
    attrs: MemberAttributes,
    manual: Option<ManualGrant>,
    now: Timestamp,
) -> Result<Seq<EntModel>, ExpiryError> {
    match subscription_models(id, attrs, now) {
        Ok(s) => Ok(s + manual_models(manual, now)),
        Err(e) => Err(e),
    }
}

/// How a returned entitlement list relates to the model of a resolution
/// evaluated at `now`: success agrees, every returned entitlement is
/// well-formed, and the returned list carries exactly the model sequence.
pub open spec fn resolution_matches(
    r: Result<Vec<Entitlement>, ExpiryError>,
    id: usize,
    attrs: MemberAttributes,
    manual: Option<ManualGrant>,
    now: Timestamp,
) -> bool {
    &&& (r is Ok <==> entitled_models(id, attrs, manual, now) is Ok)
    &&& (r matches Ok(v) ==> (entitled_models(id, attrs, manual, now) matches Ok(s) && v@.map_values(
        |e: Entitlement| e.model(),
    ) == s && v@.len() == s.len() && (forall|j: int|
        0 <= j < v@.len() ==> (#[trigger] v@[j]).model() == s[j] && v@[j].wf())))
    &&& (r matches Err(e) ==> entitled_models(id, attrs, manual, now) == Err::<
        Seq<EntModel>,
        ExpiryError,
    >(e))
}

/// Looks `user_id` up in the manual-override store. The store is a stub:
/// it answers the same grant for every subscriber and cannot fail yet.
#[allow(unused_variables)]
pub fn get_manual_entitlement_from_db(user_id: &str) -> (r: Option<ManualGrant>)
    ensures
        r == manual_lookup_spec(user_id@),
{
    Some(ManualGrant { tier: Tier::Whitelabel })
}

impl Entitlement {
    /// Builds an entitlement, deriving the label from the tier.
    pub fn new(
        tier: Tier,
        patreon_tier_id: Option<usize>,
        is_legacy: bool,
        expires_at: Timestamp,
    ) -> (r: Entitlement)
        requires
            expires_at.wf(),
        ensures
            r.model() == (EntModel { tier, patreon_tier_id, is_legacy, expires_at }),
            r.wf(),
    {
        Entitlement { label: tier.sku_label(), tier, patreon_tier_id, is_legacy, expires_at }
    }

    /// Resolves the subscription-derived root entitlement for
    /// `patreon_id`, evaluated at `now`: `Ok(None)` for an identifier
    /// outside the catalog, the matched tier's entitlement otherwise, and
    /// the expiry policy's typed failure when its arithmetic overflows.
    pub fn from_patreon_tier_id(
        patreon_id: usize,
        member_attributes: &MemberAttributes,
        now: Timestamp,
    ) -> (r: Result<Option<Entitlement>, ExpiryError>)
        requires
            member_attributes.wf(),
            now.wf(),
        ensures
            tier_for_spec(patreon_id) is None ==> r == Ok::<Option<Entitlement>, ExpiryError>(
                None,
            ),
            tier_for_spec(patreon_id) matches Some(t) ==> (match expiry_spec(
                *member_attributes,
                now,
            ) {
                Ok(exp) => (r matches Ok(o) && o matches Some(e) && e.model() == derived_model(
                    t,
                    patreon_id,
                    is_legacy_spec(t, patreon_id),
                    exp,
                ) && e.wf()),
                Err(er) => r == Err::<Option<Entitlement>, ExpiryError>(er),
            }),
    {
        let tier = match Tier::get_by_patreon_id(patreon_id) {
            Some(t) => t,
            None => {
                return Ok(None);
            },
        };
        let is_legacy = tier.is_legacy(patreon_id);
        let expires_at = match calculate_expiry(member_attributes, now) {
            Ok(t) => t,
            Err(e) => {
                return Err(e);
            },
        };
        Ok(Some(Entitlement::new(tier, Some(patreon_id), is_legacy, expires_at)))
    }

    /// Resolves the manually assigned entitlement for `user_id`, evaluated
    /// at `now`: the stored grant's tier, no platform identifier, never
    /// legacy, expiring one month after `now`. Yields nothing when no
    /// grant is stored or its expiry would leave the calendar range.
    pub fn from_manual_whitelabel(user_id: &str, now: Timestamp) -> (r: Option<Entitlement>)
        requires
            now.wf(),
        ensures
            r is Some <==> manual_model(manual_lookup_spec(user_id@), now) is Some,
            r matches Some(e) ==> (manual_model(manual_lookup_spec(user_id@), now) matches Some(m)
                && e.model() == m && e.wf()),
    {
        let grant = get_manual_entitlement_from_db(user_id);
        manual_entitlement(grant, now)
    }

    /// Resolves every entitlement `patreon_id` and `member_attributes`
    /// grant, with the manual-override answer `manual` and evaluation time
    /// `now` supplied by the caller: inherited tiers first, then the
    /// matched tier, then the manual entitlement, in discovery order.
    pub fn entitled_skus_at(
        patreon_id: usize,
        member_attributes: &MemberAttributes,
        manual: Option<ManualGrant>,
        now: Timestamp,
    ) -> (r: Result<Vec<Entitlement>, ExpiryError>)
        requires
            member_attributes.wf(),
            now.wf(),
        ensures
            resolution_matches(r, patreon_id, *member_attributes, manual, now),
    {
        let ghost attrs = *member_attributes;
        let mut entitlements: Vec<Entitlement> = Vec::new();
        match Tier::get_by_patreon_id(patreon_id) {
            Some(tier) => {
                let is_legacy = tier.is_legacy(patreon_id);
                let expires_at = match calculate_expiry(member_attributes, now) {
                    Ok(t) => t,
                    Err(e) => {
                        return Err(e);
                    },
                };
                let inherited = tier.inherited_tiers();
                let ghost f = |it: Tier| derived_model(it, patreon_id, is_legacy, expires_at);
                let mut i: usize = 0;
                while i < inherited.len()
                    invariant
                        0 <= i <= inherited.len(),
                        inherited@ == inherited_spec(tier),
                        expires_at.wf(),
                        f == (|it: Tier| derived_model(it, patreon_id, is_legacy, expires_at)),
                        entitlements@.len() == i,
                        forall|j: int|
                            0 <= j < i ==> (#[trigger] entitlements@[j]).model() == f(
                                inherited@[j],
                            ) && entitlements@[j].wf(),
                    decreases inherited.len() - i,
                {
                    entitlements.push(
                        Entitlement::new(inherited[i], Some(patreon_id), is_legacy, expires_at),
                    );
                    i = i + 1;
                }
                entitlements.push(Entitlement::new(tier, Some(patreon_id), is_legacy, expires_at));
                proof {
                    assert(subscription_models(patreon_id, attrs, now) is Ok);
                    assert(subscription_models(patreon_id, attrs, now)->Ok_0 =~= entitlements@
                        .map_values(|e: Entitlement| e.model()));
                }
            },
            None => {
                proof {
                    assert(subscription_models(patreon_id, attrs, now) is Ok);
                    assert(subscription_models(patreon_id, attrs, now)->Ok_0 =~= entitlements@
                        .map_values(|e: Entitlement| e.model()));
                }
            },
        }
        let ghost subscription = entitlements@.map_values(|e: Entitlement| e.model());
        proof {
            assert(subscription_models(patreon_id, attrs, now)->Ok_0 == subscription);
        }
        match manual_entitlement(manual, now) {
            Some(e) => {
                entitlements.push(e);
                proof {
                    assert(entitlements@.map_values(|e: Entitlement| e.model()) =~= subscription
                        + manual_models(manual, now));
                }
            },
            None => {
                proof {
                    assert(entitlements@.map_values(|e: Entitlement| e.model()) =~= subscription
                        + manual_models(manual, now));
                }
            },
        }
        proof {
            let total = entitlements@.map_values(|e: Entitlement| e.model());
            assert forall|j: int| 0 <= j < entitlements@.len() implies (
            #[trigger] entitlements@[j]).model() == total[j] by {
                assert(total[j] == entitlements@[j].model());
            }
        }
        Ok(entitlements)
    }

    /// Resolves every entitlement the subscriber holds, reading the clock
    /// for the evaluation time and the manual-override store for
    /// `user_id`. The result is a resolution at some well-formed instant.
    pub fn entitled_skus(
        user_id: &str,
        patreon_id: usize,
        member_attributes: &MemberAttributes,
    ) -> (r: Result<Vec<Entitlement>, ExpiryError>)
        requires
            member_attributes.wf(),
        ensures
            exists|now: Timestamp|
                now.wf() && #[trigger] resolution_matches(
                    r,
                    patreon_id,
                    *member_attributes,
                    manual_lookup_spec(user_id@),
                    now,
                ),
    {
        let now = now_timestamp();
        let manual = get_manual_entitlement_from_db(user_id);
        let r = Self::entitled_skus_at(patreon_id, member_attributes, manual, now);
        proof {
            assert(resolution_matches(
                r,
                patreon_id,
                *member_attributes,
                manual_lookup_spec(user_id@),
                now,
            ));
        }
        r
    }
}

/// Number of entitlements in `s` granting tier `t`.
pub open spec fn tier_count(s: Seq<EntModel>, t: Tier) -> int
    decreases s.len(),
{
    if s.len() == 0 {
        0
    } else {
        tier_count(s.drop_last(), t) + (if s.last().tier == t {
            1int
        } else {
            0int
        })
    }
}

/// Law: an identifier outside the catalog yields no subscription-derived
/// entitlement — the resolution is exactly the manual part, if any.
pub proof fn lemma_unknown_tier_yields_only_manual(
    id: usize,
    attrs: MemberAttributes,
    manual: Option<ManualGrant>,
    now: Timestamp,
)
    requires
        tier_for_spec(id) is None,
    ensures
        entitled_models(id, attrs, manual, now) == Ok::<Seq<EntModel>, ExpiryError>(
            manual_models(manual, now),
        ),
{
    assert(Seq::<EntModel>::empty() + manual_models(manual, now) =~= manual_models(manual, now));
}

/// Law: a matched identifier yields exactly one subscription entitlement
/// per tier among the matched tier and its inherited tiers, and every one
/// of them carries the root grant's expiry, legacy flag and external
/// identifier.
pub proof fn lemma_one_entitlement_per_tier(
    id: usize,
    attrs: MemberAttributes,
    now: Timestamp,
    t: Tier,
    exp: Timestamp,
)
    requires
        tier_for_spec(id) == Some(t),
        expiry_spec(attrs, now) == Ok::<Timestamp, ExpiryError>(exp),
    ensures
        subscription_models(id, attrs, now) matches Ok(s) && (forall|t2: Tier|
            tier_count(s, t2) == (if t2 == t || inherited_spec(t).contains(t2) {
                1int
            } else {
                0int
            })) && (forall|j: int|
            0 <= j < s.len() ==> (#[trigger] s[j]).expires_at == exp && s[j].is_legacy
                == is_legacy_spec(t, id) && s[j].patreon_tier_id == Some(id)),
{
    let s = subscription_models(id, attrs, now)->Ok_0;
    let inh = inherited_spec(t);
    assert(s.len() == inh.len() + 1);
    assert forall|j: int| 0 <= j < s.len() implies (#[trigger] s[j]).expires_at == exp
        && s[j].is_legacy == is_legacy_spec(t, id) && s[j].patreon_tier_id == Some(id) by {
        if j < inh.len() {
            assert(s[j] == derived_model(inh[j], id, is_legacy_spec(t, id), exp));
        } else {
            assert(s[j] == derived_model(t, id, is_legacy_spec(t, id), exp));
        }
    }
    assert forall|t2: Tier|
        tier_count(s, t2) == (if t2 == t || inh.contains(t2) {
            1int
        } else {
            0int
        }) by {
        match t {
            Tier::Premium => {
                assert(s.drop_last().len() == 0);
                assert(tier_count(s.drop_last(), t2) == 0);
                assert(s.last() == derived_model(t, id, is_legacy_spec(t, id), exp));
                assert(!inh.contains(t2));
            },
            Tier::Whitelabel => {
                let d = s.drop_last();
                assert(d.len() == 1);
                assert(d[0] == derived_model(Tier::Premium, id, is_legacy_spec(t, id), exp));
                assert(d.drop_last().len() == 0);
                assert(tier_count(d.drop_last(), t2) == 0);
                assert(d.last() == d[0]);
                assert(tier_count(d, t2) == (if t2 == Tier::Premium {
                    1int
                } else {
                    0int
                }));
                assert(s.last() == derived_model(t, id, is_legacy_spec(t, id), exp));
                assert(inh[0] == Tier::Premium);
                assert(inh.contains(Tier::Premium));
                if t2 !is Premium && t2 !is Whitelabel {
                    assert(false);
                }
                if t2 is Premium {
                    assert(inh.contains(t2));
                }
                if t2 is Whitelabel {
                    assert(!inh.contains(t2));
                }
            },
        }
    }
}

/// Law: every subscription-derived entitlement is flagged legacy exactly
/// when the external identifier lies in the matched tier's legacy cohort.
pub proof fn lemma_legacy_flag(id: usize, attrs: MemberAttributes, now: Timestamp, t: Tier)
    requires
        tier_for_spec(id) == Some(t),
    ensures
        subscription_models(id, attrs, now) matches Ok(s) ==> forall|j: int|
            0 <= j < s.len() ==> ((#[trigger] s[j]).is_legacy <==> is_legacy_spec(t, id)),
{
    if expiry_spec(attrs, now) is Ok {
        let exp = expiry_spec(attrs, now)->Ok_0;
        let s = subscription_models(id, attrs, now)->Ok_0;
        let inh = inherited_spec(t);
        assert forall|j: int| 0 <= j < s.len() implies ((#[trigger] s[j]).is_legacy
            <==> is_legacy_spec(t, id)) by {
            if j < inh.len() {
                assert(s[j] == derived_model(inh[j], id, is_legacy_spec(t, id), exp));
            } else {
                assert(s[j] == derived_model(t, id, is_legacy_spec(t, id), exp));
            }
        }
    }
}

/// Law: a manual entitlement, whenever present, grants the Whitelabel
/// tier, carries no platform identifier, is never legacy, and expires
/// exactly one month after evaluation time.
pub proof fn lemma_manual_grant_shape(user_id: Seq<char>, now: Timestamp)
    ensures
        manual_model(manual_lookup_spec(user_id), now) matches Some(m) ==> m.tier
            == Tier::Whitelabel && m.patreon_tier_id is None && !m.is_legacy
            && now.add_months_spec(1) == Some(m.expires_at),
{
}

/// Law: the manual part of a resolution is independent of the
/// subscription state — whatever identifier and billing record were
/// resolved, a successful resolution ends in exactly the manual part.
pub proof fn lemma_manual_part_independent(
    id: usize,
    attrs: MemberAttributes,
    manual: Option<ManualGrant>,
    now: Timestamp,
)
    ensures
        entitled_models(id, attrs, manual, now) matches Ok(s) ==> {
            let m = manual_models(manual, now);
            s.len() >= m.len() && s.subrange(s.len() - m.len(), s.len() as int) == m
        },
{
    if subscription_models(id, attrs, now) is Ok {
        let sub = subscription_models(id, attrs, now)->Ok_0;
        let m = manual_models(manual, now);
        assert((sub + m).subrange(sub.len() as int, (sub.len() + m.len()) as int) =~= m);
    }
}

/// Turns a manual-override answer into its entitlement, as
/// [`manual_model`] describes.
pub fn manual_entitlement(manual: Option<ManualGrant>, now: Timestamp) -> (r: Option<Entitlement>)
    requires
        now.wf(),
    ensures
        r is Some <==> manual_model(manual, now) is Some,
        r matches Some(e) ==> (manual_model(manual, now) matches Some(m) && e.model() == m
            && e.wf()),
{
    match manual {
        Some(grant) => match now.checked_add_months(1) {
            Some(expires_at) => Some(Entitlement::new(grant.tier, None, false, expires_at)),
            None => None,
        },
        None => None,
    }
}

} // verus!
