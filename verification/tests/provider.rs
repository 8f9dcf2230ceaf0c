use free_mode::provider::{
    Dispatch, FreeProvider, HealthStep, ProviderError, ProviderId, ProviderStatus, SystemPromptStyle,
};

#[test]
fn translate_for_primary_auto() {
    assert_eq!(FreeProvider::translate_for_primary("free/auto"), "minimax-m2.5-free");
    assert_eq!(FreeProvider::translate_for_primary("free"), "minimax-m2.5-free");
    assert_eq!(FreeProvider::translate_for_primary("auto"), "minimax-m2.5-free");
}

#[test]
fn translate_for_primary_zen_prefix_stripped() {
    assert_eq!(FreeProvider::translate_for_primary("zen/big-pickle"), "big-pickle");
    assert_eq!(
        FreeProvider::translate_for_primary("opencode-zen/ring-2.6-1t-free"),
        "ring-2.6-1t-free",
    );
}

#[test]
fn translate_for_fallback_auto() {
    assert_eq!(FreeProvider::translate_for_fallback("free/auto"), "openrouter/free");
    assert_eq!(FreeProvider::translate_for_fallback("auto"), "openrouter/free");
}

#[test]
fn translate_for_fallback_zen_models_route_to_free_router() {
    assert_eq!(
        FreeProvider::translate_for_fallback("zen/big-pickle"),
        "openrouter/free",
    );
}

#[test]
fn should_fallback_on_auth_and_rate_limit() {
    let pid = ProviderId::new("opencode-zen");
    assert!(FreeProvider::should_fallback(&ProviderError::AuthFailed {
        provider: pid.clone(),
        message: "bad key".into(),
    }));
    assert!(FreeProvider::should_fallback(&ProviderError::RateLimited {
        provider: pid.clone(),
        retry_after: Some(60),
    }));
    assert!(FreeProvider::should_fallback(&ProviderError::ServerError {
        provider: pid.clone(),
        status: Some(500),
        message: "boom".into(),
        is_retryable: true,
    }));
}

#[test]
fn should_not_fallback_on_invalid_request() {
    let pid = ProviderId::new("opencode-zen");
    assert!(!FreeProvider::should_fallback(&ProviderError::InvalidRequest {
        provider: pid.clone(),
        message: "bad request".into(),
    }));
    assert!(!FreeProvider::should_fallback(&ProviderError::ContentFiltered {
        provider: pid,
        message: "filtered".into(),
    }));
}

#[test]
fn translate_passes_plain_models_through() {
    assert_eq!(FreeProvider::translate_for_primary("some/model"), "some/model");
    assert_eq!(FreeProvider::translate_for_fallback("some/model"), "some/model");
    assert_eq!(FreeProvider::translate_for_primary(""), "");
    assert_eq!(FreeProvider::translate_for_fallback("openrouter/free"), "openrouter/free");
}

#[test]
fn translate_is_exact_on_aliases() {
    assert_eq!(FreeProvider::translate_for_primary("Free"), "Free");
    assert_eq!(FreeProvider::translate_for_primary("free/auto2"), "free/auto2");
    assert_eq!(FreeProvider::translate_for_fallback("autopilot"), "autopilot");
}

#[test]
fn translate_prefix_edge_cases() {
    assert_eq!(FreeProvider::translate_for_primary("zen/"), "");
    assert_eq!(FreeProvider::translate_for_primary("zen"), "zen");
    assert_eq!(FreeProvider::translate_for_primary("zen/zen/x"), "zen/x");
    assert_eq!(FreeProvider::translate_for_primary("opencode-zen/zen/x"), "zen/x");
    assert_eq!(FreeProvider::translate_for_fallback("opencode-zen/ring-2.6-1t-free"), "openrouter/free");
    assert_eq!(FreeProvider::translate_for_fallback("zen"), "zen");
}

#[test]
fn fallback_model_is_never_zen_pinned() {
    for m in ["free", "zen/a", "opencode-zen/b", "x", "", "zen/"] {
        let f = FreeProvider::translate_for_fallback(m);
        assert!(!f.starts_with("zen/"));
        assert!(!f.starts_with("opencode-zen/"));
    }
}

#[test]
fn after_primary_success_passes_through() {
    match FreeProvider::after_primary("free", Ok::<u32, ProviderError>(7)) {
        Dispatch::Done(Ok(v)) => assert_eq!(v, 7),
        _ => panic!("success must be returned"),
    }
}

#[test]
fn after_primary_rate_limit_goes_to_fallback() {
    let err = ProviderError::RateLimited { provider: ProviderId::new("opencode-zen"), retry_after: None };
    match FreeProvider::after_primary::<u32>("zen/big-pickle", Err(err)) {
        Dispatch::Fallback { model, error } => {
            assert_eq!(model, "openrouter/free");
            assert!(matches!(error, ProviderError::RateLimited { retry_after: None, .. }));
        }
        _ => panic!("rate limits fall back"),
    }
    let err = ProviderError::AuthFailed { provider: ProviderId::new("opencode-zen"), message: "k".into() };
    match FreeProvider::after_primary::<u32>("my/model", Err(err)) {
        Dispatch::Fallback { model, error } => {
            assert_eq!(model, "my/model");
            assert!(matches!(error, ProviderError::AuthFailed { .. }));
        }
        _ => panic!("auth failures fall back"),
    }
}

#[test]
fn after_primary_invalid_request_is_surfaced() {
    let err = ProviderError::InvalidRequest { provider: ProviderId::new("opencode-zen"), message: "bad".into() };
    match FreeProvider::after_primary::<u32>("free", Err(err)) {
        Dispatch::Done(Err(ProviderError::InvalidRequest { provider, message })) => {
            assert_eq!(provider.as_str(), "opencode-zen");
            assert_eq!(message, "bad");
        }
        _ => panic!("invalid requests are returned as they are"),
    }
}

#[test]
fn health_primary_healthy_is_final() {
    match FreeProvider::health_after_primary(Ok(ProviderStatus::Healthy)) {
        HealthStep::Done(Ok(ProviderStatus::Healthy)) => {}
        _ => panic!("healthy primary answers"),
    }
    match FreeProvider::health_after_primary(Ok(ProviderStatus::Degraded { reason: "slow".into() })) {
        HealthStep::ProbeFallback(Ok(ProviderStatus::Degraded { reason })) => assert_eq!(reason, "slow"),
        _ => panic!("degraded primary probes the fallback"),
    }
}

#[test]
fn health_fallback_combination() {
    let err = || ProviderError::ServerError {
        provider: ProviderId::new("opencode-zen"),
        status: Some(503),
        message: "down".into(),
        is_retryable: true,
    };
    match FreeProvider::health_after_fallback(Err(err()), Ok(ProviderStatus::Healthy)) {
        Ok(ProviderStatus::Healthy) => {}
        _ => panic!("healthy fallback answers"),
    }
    match FreeProvider::health_after_fallback(
        Ok(ProviderStatus::Unavailable { reason: "p".into() }),
        Ok(ProviderStatus::Degraded { reason: "f".into() }),
    ) {
        Ok(ProviderStatus::Unavailable { reason }) => assert_eq!(reason, "p"),
        _ => panic!("the primary's answer is kept"),
    }
    match FreeProvider::health_after_fallback(Err(err()), Ok(ProviderStatus::Degraded { reason: "f".into() })) {
        Ok(ProviderStatus::Degraded { reason }) => assert_eq!(reason, "f"),
        _ => panic!("the fallback answers when the primary failed"),
    }
    match FreeProvider::health_after_fallback(Err(err()), Err(ProviderError::RateLimited {
        provider: ProviderId::new("openrouter"),
        retry_after: Some(1),
    })) {
        Err(ProviderError::RateLimited { provider, .. }) => assert_eq!(provider.as_str(), "openrouter"),
        _ => panic!("the fallback's error is returned"),
    }
}

#[test]
fn identity_and_name() {
    let p = FreeProvider::new();
    assert_eq!(p.id().as_str(), "free");
    assert_eq!(p.name(), "Free (Zen \u{2192} OpenRouter)");
    assert_eq!(ProviderId::free().as_str(), "free");
}

#[test]
fn list_models_is_the_curated_free_list() {
    let p = FreeProvider::new();
    let models = p.list_models();
    let expected = [
        ("free/auto", "Free \u{2014} Auto (Zen \u{2192} OpenRouter)", 200_000u32),
        ("zen/minimax-m2.5-free", "MiniMax M2.5 (Free, via Zen)", 200_000),
        ("zen/big-pickle", "Big Pickle (Free, via Zen)", 128_000),
        ("zen/ring-2.6-1t-free", "Ring 2.6 1T (Free, via Zen)", 128_000),
        ("zen/nemotron-3-super-free", "Nemotron 3 Super (Free, via Zen)", 128_000),
        ("openrouter/free", "OpenRouter Free Router (random pick)", 200_000),
    ];
    assert_eq!(models.len(), expected.len());
    for (m, (id, name, ctx)) in models.iter().zip(expected.iter()) {
        assert_eq!(m.id.as_str(), *id);
        assert_eq!(m.provider_id.as_str(), "free");
        assert_eq!(m.name, *name);
        assert_eq!(m.context_window, *ctx);
        assert_eq!(m.max_output_tokens, 8_192);
    }
}

#[test]
fn capabilities_are_streaming_and_tools_only() {
    let c = FreeProvider::new().capabilities();
    assert!(c.streaming && c.tool_calling);
    assert!(!c.thinking && !c.image_input && !c.pdf_input && !c.audio_input && !c.video_input);
    assert!(!c.caching && !c.structured_output);
    assert!(matches!(c.system_prompt_style, SystemPromptStyle::SystemMessage));
}
