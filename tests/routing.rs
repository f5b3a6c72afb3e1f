use omni_api::canonical::{ProviderAvailability, ProviderSelection};
use omni_api::routing::route_availability_first;
use omni_api::types::{ProviderId, ProviderMap, ReasonClass, ReasonCode, ReasonDetail};

fn marked(available: bool, compatible: Option<bool>, reason: &str) -> ProviderAvailability {
    ProviderAvailability {
        available,
        compatible,
        reason: Some(reason.to_string()),
        last_seen_healthy_at: None,
    }
}

#[test]
fn selects_first_usable_provider() {
    let input = ProviderSelection {
        preferred: vec![ProviderId::OpenAi, ProviderId::Gemini],
        availability: ProviderMap::new(),
    };

    let decision = route_availability_first(&input);
    assert_eq!(decision.selected_provider, Some(ProviderId::OpenAi));
    assert_eq!(decision.fallback_candidates, vec![ProviderId::Gemini]);
}

#[test]
fn skips_unavailable_provider() {
    let mut availability = ProviderMap::new();
    availability.insert(ProviderId::OpenAi, marked(false, None, "healthcheck down"));

    let input = ProviderSelection {
        preferred: vec![ProviderId::OpenAi, ProviderId::Gemini],
        availability,
    };

    let decision = route_availability_first(&input);
    assert_eq!(decision.selected_provider, Some(ProviderId::Gemini));
    assert_eq!(decision.fallback_candidates, Vec::<ProviderId>::new());
    assert!(decision.provider_reasons.contains_key(&ProviderId::OpenAi));
}

#[test]
fn skips_incompatible_provider() {
    let mut availability = ProviderMap::new();
    availability.insert(ProviderId::OpenAi, marked(true, Some(false), "missing feature"));

    let input = ProviderSelection {
        preferred: vec![ProviderId::OpenAi, ProviderId::Gemini],
        availability,
    };

    let decision = route_availability_first(&input);
    assert_eq!(decision.selected_provider, Some(ProviderId::Gemini));
    assert!(decision.provider_reasons.contains_key(&ProviderId::OpenAi));
}

#[test]
fn handles_full_exhaustion() {
    let mut availability = ProviderMap::new();
    availability.insert(ProviderId::OpenAi, marked(false, None, "down"));
    availability.insert(ProviderId::Gemini, marked(false, None, "down"));

    let input = ProviderSelection {
        preferred: vec![ProviderId::OpenAi, ProviderId::Gemini],
        availability,
    };

    let decision = route_availability_first(&input);
    assert_eq!(decision.selected_provider, None);
    assert_eq!(decision.fallback_candidates, Vec::<ProviderId>::new());
}

#[test]
fn routed_order_is_the_usable_subsequence() {
    let mut availability = ProviderMap::new();
    availability.insert(ProviderId::Gemini, marked(false, None, "down"));
    availability.insert(
        ProviderId::Ollama,
        ProviderAvailability {
            available: true,
            compatible: Some(true),
            reason: None,
            last_seen_healthy_at: None,
        },
    );
    let input = ProviderSelection {
        preferred: vec![ProviderId::Ollama, ProviderId::Gemini, ProviderId::OpenAi],
        availability,
    };

    let decision = route_availability_first(&input);
    assert_eq!(decision.selected_provider, Some(ProviderId::Ollama));
    assert_eq!(decision.fallback_candidates, vec![ProviderId::OpenAi]);
    assert_eq!(decision.provider_reasons.len(), 1);
}

#[test]
fn unavailable_reason_carries_snapshot_detail() {
    let mut availability = ProviderMap::new();
    availability.insert(
        ProviderId::OpenAi,
        ProviderAvailability {
            available: false,
            compatible: None,
            reason: Some("down".to_string()),
            last_seen_healthy_at: Some("2026-02-15T00:00:00Z".to_string()),
        },
    );
    let input = ProviderSelection { preferred: vec![ProviderId::OpenAi], availability };

    let decision = route_availability_first(&input);
    let reason = decision.provider_reasons.get(&ProviderId::OpenAi).expect("reason");
    assert_eq!(reason.class, ReasonClass::Unavailable);
    assert_eq!(reason.code, ReasonCode::HostMarkedUnavailable);
    assert!(reason.retryable);
    assert_eq!(
        reason.detail,
        ReasonDetail::HostUnavailable {
            reason: Some("down".to_string()),
            last_seen_healthy_at: Some("2026-02-15T00:00:00Z".to_string()),
        }
    );
}

#[test]
fn incompatible_reason_is_not_retryable() {
    let mut availability = ProviderMap::new();
    availability.insert(ProviderId::Gemini, marked(true, Some(false), "missing feature"));
    let input = ProviderSelection { preferred: vec![ProviderId::Gemini], availability };

    let decision = route_availability_first(&input);
    let reason = decision.provider_reasons.get(&ProviderId::Gemini).expect("reason");
    assert_eq!(reason.class, ReasonClass::Incompatible);
    assert_eq!(reason.code, ReasonCode::UnsupportedParam);
    assert!(!reason.retryable);
    assert_eq!(decision.selected_provider, None);
}
