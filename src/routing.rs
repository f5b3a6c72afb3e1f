//! Availability-first routing: splits the preferred providers into usable
//! candidates and excluded ones, keeping the preferred order.
use vstd::prelude::*;

use crate::canonical::{ProviderAvailability, ProviderSelection};
use crate::types::{ProviderId, ProviderMap, ProviderReason, ReasonClass, ReasonCode, ReasonDetail};

verus! {

#[derive(Debug, Clone, PartialEq)]
pub struct RoutingDecision {
    pub selected_provider: Option<ProviderId>,
    pub fallback_candidates: Vec<ProviderId>,
    pub provider_reasons: ProviderMap<ProviderReason>,
}

impl RoutingDecision {
    /// The selected provider followed by the fallbacks.
    pub open spec fn ordered(&self) -> Seq<ProviderId> {
        match self.selected_provider {
            Some(p) => seq![p] + self.fallback_candidates@,
            None => seq![],
        }
    }
}

/// A provider is usable unless its snapshot entry marks it unavailable or
/// explicitly incompatible; a missing entry counts as usable.
pub open spec fn is_usable(availability: Map<ProviderId, ProviderAvailability>, p: ProviderId) -> bool {
    match availability.get(p) {
        Some(a) => a.available && a.compatible != Some(false),
        None => true,
    }
}

/// The usable providers of a selection, in preferred order.
pub open spec fn usable_providers(sel: ProviderSelection) -> Seq<ProviderId> {
    sel.preferred@.filter(|p: ProviderId| is_usable(sel.availability@, p))
}

/// Why routing excludes a provider with snapshot entry `a`.
pub open spec fn exclusion_reason(a: ProviderAvailability) -> ProviderReason {
    if !a.available {
        ProviderReason {
            class: ReasonClass::Unavailable,
            code: ReasonCode::HostMarkedUnavailable,
            retryable: true,
            detail: ReasonDetail::HostUnavailable {
                reason: a.reason,
                last_seen_healthy_at: a.last_seen_healthy_at,
            },
        }
    } else {
        ProviderReason {
            class: ReasonClass::Incompatible,
            code: ReasonCode::UnsupportedParam,
            retryable: false,
            detail: ReasonDetail::HostIncompatible { reason: a.reason },
        }
    }
}

/// The exclusion table after the first `n` preferred providers.
pub open spec fn exclusions_upto(
    preferred: Seq<ProviderId>,
    availability: Map<ProviderId, ProviderAvailability>,
    n: int,
) -> Map<ProviderId, ProviderReason>
    decreases n,
{
    if n <= 0 {
        Map::empty()
    } else {
        let m = exclusions_upto(preferred, availability, n - 1);
        let p = preferred[n - 1];
        if is_usable(availability, p) {
            m
        } else {
            m.insert(p, exclusion_reason(availability[p]))
        }
    }
}

/// The exclusion table of a whole selection.
pub open spec fn exclusions(sel: ProviderSelection) -> Map<ProviderId, ProviderReason> {
    exclusions_upto(sel.preferred@, sel.availability@, sel.preferred@.len() as int)
}

/// Each preferred provider that routing excludes has exactly its exclusion
/// reason in the table, and no other provider has an entry.
pub proof fn lemma_exclusions_upto(
    preferred: Seq<ProviderId>,
    availability: Map<ProviderId, ProviderAvailability>,
    n: int,
)
    requires
        0 <= n <= preferred.len(),
    ensures
        forall|p: ProviderId| #[trigger]
            exclusions_upto(preferred, availability, n).contains_key(p) <==> (
            preferred.take(n).contains(p) && !is_usable(availability, p)),
        forall|p: ProviderId| #[trigger]
            exclusions_upto(preferred, availability, n).contains_key(p) ==> exclusions_upto(
                preferred,
                availability,
                n,
            )[p] == exclusion_reason(availability[p]),
    decreases n,
{
    if n > 0 {
        lemma_exclusions_upto(preferred, availability, n - 1);
        assert(preferred.take(n) =~= preferred.take(n - 1).push(preferred[n - 1]));
        assert forall|p: ProviderId| #[trigger]
            preferred.take(n).contains(p) <==> (preferred.take(n - 1).contains(p) || p
                == preferred[n - 1]) by {
            if preferred.take(n).contains(p) {
                let k = choose|k: int| 0 <= k < n && #[trigger] preferred.take(n)[k] == p;
                if k < n - 1 {
                    assert(preferred.take(n - 1)[k] == p);
                }
            }
            if preferred.take(n - 1).contains(p) {
                let k = choose|k: int| 0 <= k < n - 1 && #[trigger] preferred.take(n - 1)[k] == p;
                assert(preferred.take(n)[k] == p);
            }
            if p == preferred[n - 1] {
                assert(preferred.take(n)[n - 1] == p);
            }
        }
    } else {
        assert(preferred.take(0) =~= Seq::<ProviderId>::empty());
    }
}

pub(crate) fn clone_text(s: &Option<String>) -> (r: Option<String>)
    ensures
        r == *s,
{
    match s {
        Some(t) => Some(t.clone()),
        None => None,
    }
}

fn exclusion_reason_of(a: &ProviderAvailability) -> (r: ProviderReason)
    ensures
        r == exclusion_reason(*a),
{
    if !a.available {
        ProviderReason {
            class: ReasonClass::Unavailable,
            code: ReasonCode::HostMarkedUnavailable,
            retryable: true,
            detail: ReasonDetail::HostUnavailable {
                reason: clone_text(&a.reason),
                last_seen_healthy_at: clone_text(&a.last_seen_healthy_at),
            },
        }
    } else {
        ProviderReason {
            class: ReasonClass::Incompatible,
            code: ReasonCode::UnsupportedParam,
            retryable: false,
            detail: ReasonDetail::HostIncompatible { reason: clone_text(&a.reason) },
        }
    }
}

/// Splits the preferred providers into the selected one, its fallbacks and
/// the excluded ones, without reordering.
pub fn route_availability_first(selection: &ProviderSelection) -> (r: RoutingDecision)
    ensures
        r.ordered() == usable_providers(*selection),
        r.selected_provider is None ==> r.fallback_candidates@.len() == 0,
        r.provider_reasons@ == exclusions(*selection),
{
    let mut usable: Vec<ProviderId> = Vec::new();
    let mut reasons: ProviderMap<ProviderReason> = ProviderMap::new();
    let ghost pred = |p: ProviderId| is_usable(selection.availability@, p);
    let mut i: usize = 0;
    while i < selection.preferred.len()
        invariant
            0 <= i <= selection.preferred@.len(),
            pred == (|p: ProviderId| is_usable(selection.availability@, p)),
            usable@ == selection.preferred@.take(i as int).filter(pred),
            reasons@ == exclusions_upto(selection.preferred@, selection.availability@, i as int),
        decreases selection.preferred@.len() - i,
    {
        let provider = selection.preferred[i];
        proof {
            let t = selection.preferred@.take(i + 1);
            assert(t.drop_last() =~= selection.preferred@.take(i as int));
            assert(t.last() == provider);
            reveal(Seq::filter);
        }
        match selection.availability.get(&provider) {
            Some(status) => {
                if !status.available || status.compatible == Some(false) {
                    let reason = exclusion_reason_of(status);
                    reasons.insert(provider, reason);
                } else {
                    usable.push(provider);
                }
            },
            None => {
                usable.push(provider);
            },
        }
        i = i + 1;
    }
    proof {
        assert(selection.preferred@.take(i as int) =~= selection.preferred@);
    }
    if usable.len() == 0 {
        RoutingDecision {
            selected_provider: None,
            fallback_candidates: Vec::new(),
            provider_reasons: reasons,
        }
    } else {
        let first = usable[0];
        let mut rest: Vec<ProviderId> = Vec::new();
        let mut k: usize = 1;
        while k < usable.len()
            invariant
                1 <= k <= usable@.len(),
                rest@ == usable@.subrange(1, k as int),
            decreases usable@.len() - k,
        {
            rest.push(usable[k]);
            proof {
                assert(rest@ =~= usable@.subrange(1, k + 1));
            }
            k = k + 1;
        }
        let r = RoutingDecision {
            selected_provider: Some(first),
            fallback_candidates: rest,
            provider_reasons: reasons,
        };
        assert(r.ordered() =~= usable@);
        r
    }
}

} // verus!
