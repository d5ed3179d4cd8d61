//! The tier catalog: the static mapping from external (payment-platform)
//! tier identifiers to internal product tiers, their display labels, their
//! legacy cohorts, and the inheritance between tiers.
//!
//! External identifiers churn as pricing evolves, while the internal tier
//! taxonomy stays small and stable; the catalog isolates that churn behind
//! a lookup. Identifiers outside the catalog are tolerated: they simply
//! grant nothing.

use vstd::prelude::*;
use vstd::string::StringExecFns;

verus! {

/// Internal product tiers.
#[derive(Clone, Copy, Debug, PartialEq, Eq, Structural, Hash)]
pub enum Tier {
    Premium,
    Whitelabel,
}

/// External identifier of the grandfathered first Premium cohort.
pub const TIER_ID_PREMIUM_LEGACY_A: usize = 2817011;
/// External identifier of the grandfathered second Premium cohort.
pub const TIER_ID_PREMIUM_LEGACY_B: usize = 3457425;
/// External identifier of the current Premium plan.
pub const TIER_ID_PREMIUM: usize = 7620018;
/// External identifier of the grandfathered Whitelabel cohort.
pub const TIER_ID_WHITELABEL_LEGACY: usize = 4071609;
/// External identifier of the current Whitelabel plan.
pub const TIER_ID_WHITELABEL: usize = 7620023;

/// The tier granted by external identifier `id`, if the identifier is known.
pub open spec fn tier_for_spec(id: usize) -> Option<Tier> {
    if id == TIER_ID_PREMIUM_LEGACY_A || id == TIER_ID_PREMIUM_LEGACY_B || id == TIER_ID_PREMIUM {
        Some(Tier::Premium)
    } else if id == TIER_ID_WHITELABEL_LEGACY || id == TIER_ID_WHITELABEL {
        Some(Tier::Whitelabel)
    } else {
        None
    }
}

/// Whether `id` belongs to `t`'s legacy (grandfathered) cohort.
pub open spec fn is_legacy_spec(t: Tier, id: usize) -> bool {
    match t {
        Tier::Premium => id == TIER_ID_PREMIUM_LEGACY_A || id == TIER_ID_PREMIUM_LEGACY_B,
        Tier::Whitelabel => id == TIER_ID_WHITELABEL_LEGACY,
    }
}

/// The stable product label ("SKU label") of `t`.
pub open spec fn label_spec(t: Tier) -> Seq<char> {
    match t {
        Tier::Premium => "premium"@,
        Tier::Whitelabel => "whitelabel"@,
    }
}

/// The tiers implied by holding `t`, excluding `t` itself.
pub open spec fn inherited_spec(t: Tier) -> Seq<Tier> {
    match t {
        Tier::Premium => Seq::empty(),
        Tier::Whitelabel => seq![Tier::Premium],
    }
}

impl Tier {
    /// Looks the external identifier up in the catalog; unknown identifiers
    /// yield `None` rather than an error.
    pub fn get_by_patreon_id(patreon_id: usize) -> (r: Option<Tier>)
        ensures
            r == tier_for_spec(patreon_id),
    {
        if patreon_id == TIER_ID_PREMIUM_LEGACY_A || patreon_id == TIER_ID_PREMIUM_LEGACY_B
            || patreon_id == TIER_ID_PREMIUM {
            Some(Tier::Premium)
        } else if patreon_id == TIER_ID_WHITELABEL_LEGACY || patreon_id == TIER_ID_WHITELABEL {
            Some(Tier::Whitelabel)
        } else {
            None
        }
    }

    /// The stable product label of this tier.
    pub fn sku_label(&self) -> (r: String)
        ensures
            r@ == label_spec(*self),
    {
        match self {
            Tier::Premium => String::from_str("premium"),
            Tier::Whitelabel => String::from_str("whitelabel"),
        }
    }

    /// Whether `patreon_id` belongs to this tier's legacy cohort.
    pub fn is_legacy(&self, patreon_id: usize) -> (r: bool)
        ensures
            r == is_legacy_spec(*self, patreon_id),
    {
        match self {
            Tier::Premium => {
                patreon_id == TIER_ID_PREMIUM_LEGACY_A || patreon_id == TIER_ID_PREMIUM_LEGACY_B
            },
            Tier::Whitelabel => patreon_id == TIER_ID_WHITELABEL_LEGACY,
        }
    }

    /// The tiers implied by holding this tier, excluding the tier itself.
    pub fn inherited_tiers(&self) -> (r: Vec<Tier>)
        ensures
            r@ == inherited_spec(*self),
    {
        match self {
            Tier::Premium => {
                let v: Vec<Tier> = Vec::new();
                assert(v@ =~= inherited_spec(Tier::Premium));
                v
            },
            Tier::Whitelabel => {
                let mut v: Vec<Tier> = Vec::new();
                v.push(Tier::Premium);
                assert(v@ =~= inherited_spec(Tier::Whitelabel));
                v
            },
        }
    }
}

/// Catalog invariant: every identifier in a tier's legacy cohort maps back
/// to that same tier, so the legacy sets are subsets of the catalog's ids.
pub proof fn lemma_legacy_ids_are_catalog_ids(t: Tier, id: usize)
    ensures
        is_legacy_spec(t, id) ==> tier_for_spec(id) == Some(t),
{
}

/// Catalog invariant: inheritance is acyclic. No tier inherits itself, and
/// every inherited tier inherits nothing further, so expanding inheritance
/// terminates after one step.
pub proof fn lemma_inheritance_acyclic(t: Tier)
    ensures
        !inherited_spec(t).contains(t),
        forall|i: int|
            0 <= i < inherited_spec(t).len() ==> inherited_spec(
                #[trigger] inherited_spec(t)[i],
            ).len() == 0,
{
    match t {
        Tier::Premium => {
            assert(!inherited_spec(t).contains(t));
        },
        Tier::Whitelabel => {
            assert(forall|i: int|
                0 <= i < inherited_spec(t).len() ==> #[trigger] inherited_spec(t)[i]
                    == Tier::Premium);
            assert(!inherited_spec(t).contains(t));
        },
    }
}

} // verus!
