use mylm_core::config::types::Provider;
use mylm_core::config::v2::{
    AgentConfig, AgentOverride, ConfigV2, EndpointConfig, EndpointOverride, FeaturesConfig,
    Profile, ProfileMap,
};

#[test]
fn v2_test_features_default() {
    let features = FeaturesConfig::default();
    assert!(!features.web_search.enabled);
    assert!(features.memory.enabled);
    assert!(features.memory.auto_record);
    assert!(features.memory.auto_context);
}

#[test]
fn tests_test_features_default() {
    let features = FeaturesConfig::default();
    assert!(!features.web_search.enabled);
    assert!(features.memory.enabled);
    assert!(features.memory.auto_record);
    assert!(features.memory.auto_context);
}

#[test]
fn v2_test_default_config() {
    let config = ConfigV2::default();
    assert_eq!(config.profile, "fast");
    assert!(config.profiles.is_empty());
}

#[test]
fn v2_test_default_endpoint() {
    let endpoint = EndpointConfig::default();
    assert_eq!(endpoint.provider, Provider::Openai);
    assert_eq!(endpoint.model, "gpt-4o");
    assert_eq!(endpoint.timeout_secs, 30);
    assert!(endpoint.base_url.is_none());
    assert!(endpoint.api_key.is_none());
}

#[test]
fn v2_test_profile_override() {
    let profile = Profile {
        endpoint: Some(EndpointOverride {
            model: Some("gpt-4o-mini".to_string()),
            api_key: None,
        }),
        agent: Some(AgentOverride {
            max_iterations: Some(5),
            main_model: None,
            worker_model: None,
        }),
    };

    assert_eq!(profile.endpoint.as_ref().unwrap().model.as_ref().unwrap(), "gpt-4o-mini");
    assert_eq!(profile.agent.as_ref().unwrap().max_iterations, Some(5));
}

#[test]
fn v2_test_profile_resolution_no_profile() {
    let config = ConfigV2::default();
    let resolved = config.resolve_profile();

    assert_eq!(resolved.provider, Provider::Openai);
    assert_eq!(resolved.model, "gpt-4o");
    assert_eq!(resolved.agent.main_model, "gpt-4o");
    assert_eq!(resolved.agent.worker_model, "gpt-4o");
    assert_eq!(resolved.agent.max_iterations, 10);
}

#[test]
fn v2_test_profile_resolution_with_overrides() {
    let mut profiles = ProfileMap::new();
    profiles.insert(
        "fast".to_string(),
        Profile {
            endpoint: Some(EndpointOverride {
                model: Some("gpt-4o-mini".to_string()),
                api_key: Some("profile-key".to_string()),
            }),
            agent: Some(AgentOverride {
                max_iterations: Some(5),
                main_model: Some("gpt-4o".to_string()),
                worker_model: Some("gpt-4o-mini".to_string()),
            }),
        },
    );

    let config = ConfigV2 { profile: "fast".to_string(), profiles, ..Default::default() };

    let resolved = config.resolve_profile();

    assert_eq!(resolved.model, "gpt-4o-mini");
    assert_eq!(resolved.api_key, Some("profile-key".to_string()));
    assert_eq!(resolved.agent.max_iterations, 5);
    assert_eq!(resolved.agent.main_model, "gpt-4o");
    assert_eq!(resolved.agent.worker_model, "gpt-4o-mini");
}

#[test]
fn v2_test_profile_resolution_partial_agent_override() {
    let mut profiles = ProfileMap::new();
    profiles.insert(
        "custom".to_string(),
        Profile {
            endpoint: None,
            agent: Some(AgentOverride {
                max_iterations: Some(15),
                main_model: None,
                worker_model: Some("c3-haiku".to_string()),
            }),
        },
    );

    let config = ConfigV2 {
        profile: "custom".to_string(),
        endpoint: EndpointConfig { model: "c3-opus".to_string(), ..Default::default() },
        profiles,
        ..Default::default()
    };

    let resolved = config.resolve_profile();

    assert_eq!(resolved.model, "c3-opus");
    assert_eq!(resolved.agent.main_model, "c3-opus");
    assert_eq!(resolved.agent.worker_model, "c3-haiku");
    assert_eq!(resolved.agent.max_iterations, 15);
}

#[test]
fn v2_test_profile_resolution_nonexistent_profile() {
    let config = ConfigV2 { profile: "nonexistent".to_string(), ..Default::default() };

    let resolved = config.resolve_profile();

    assert_eq!(resolved.provider, Provider::Openai);
    assert_eq!(resolved.model, "gpt-4o");
}

#[test]
fn v2_test_resolved_config_default() {
    let agent_config = AgentConfig::default();
    assert_eq!(agent_config.max_iterations, 10);
    assert_eq!(agent_config.main_model, "gpt-4o");
    assert_eq!(agent_config.worker_model, "gpt-4o-mini");
}

use mylm_core::config::manager::{ConfigLimits, RateLimitError, RequestCounter};
use std::time::Duration;

#[test]
fn test_request_counter() {
    let mut counter = RequestCounter::new(10);
    assert_eq!(counter.remaining(), 10);

    for _ in 0..5 {
        assert!(counter.record());
    }
    assert_eq!(counter.remaining(), 5);

    for _ in 0..5 {
        assert!(counter.record());
    }
    assert_eq!(counter.remaining(), 0);

    assert!(!counter.record());
}

#[test]
fn test_rate_limit_error() {
    let err = RateLimitError::new(Duration::from_secs(5), 10, 100);
    assert_eq!(err.retry_after, Duration::from_secs(5));
    assert_eq!(err.available_tokens, 10);
    assert_eq!(err.requested_tokens, 100);
    assert!(err.to_string().contains("Rate limit exceeded"));
}

#[test]
fn request_counter_new_limit_keeps_count() {
    let mut counter = RequestCounter::new(3);
    assert!(counter.record());
    assert!(counter.record());
    counter.set_limit(2);
    assert_eq!(counter.limit(), 2);
    assert_eq!(counter.remaining(), 0);
    assert!(!counter.record());
    counter.set_limit(5);
    assert_eq!(counter.remaining(), 3);
    assert!(counter.record_at(true, std::time::Instant::now()));
    assert_eq!(counter.remaining_at(false), 4);
}

fn threshold_in_range(t: f64) -> bool {
    (0.0..=1.0).contains(&t)
}

#[test]
fn test_config_validation() {
    let mut limits = ConfigLimits::default_limits();
    let mut threshold = 0.8;
    assert!(limits.validate(threshold_in_range(threshold)).is_ok());

    limits.max_context_tokens = 0;
    assert!(limits.validate(threshold_in_range(threshold)).is_err());

    limits = ConfigLimits::default_limits();
    threshold = 1.5;
    assert!(limits.validate(threshold_in_range(threshold)).is_err());

    limits = ConfigLimits::default_limits();
    threshold = 0.8;
    limits.worker_limit = 0;
    assert!(limits.validate(threshold_in_range(threshold)).is_err());
}

#[test]
fn config_limits_name_the_first_failure() {
    let d = ConfigLimits::default_limits();
    assert_eq!(
        (d.max_context_tokens, d.max_output_tokens, d.worker_limit),
        (128_000, 4096, 5)
    );
    assert_eq!((d.rate_limit_tokens_per_minute, d.rate_limit_requests_per_minute), (100_000, 100));
    let zero = ConfigLimits {
        max_context_tokens: 0,
        max_output_tokens: 0,
        worker_limit: 0,
        rate_limit_tokens_per_minute: 0,
        rate_limit_requests_per_minute: 0,
    };
    assert_eq!(zero.validate(false).unwrap_err(), "max_context_tokens must be greater than 0");
    let l = ConfigLimits { max_context_tokens: 1, ..zero };
    assert_eq!(l.validate(false).unwrap_err(), "condense_threshold must be between 0.0 and 1.0");
    assert_eq!(l.validate(true).unwrap_err(), "max_output_tokens must be greater than 0");
    let l = ConfigLimits { max_output_tokens: 1, ..l };
    assert_eq!(l.validate(true).unwrap_err(), "worker_limit must be greater than 0");
    let l = ConfigLimits { worker_limit: 1, ..l };
    assert_eq!(l.validate(true).unwrap_err(), "rate_limit_tokens_per_minute must be greater than 0");
    let l = ConfigLimits { rate_limit_tokens_per_minute: 1, ..l };
    assert_eq!(l.validate(true).unwrap_err(), "rate_limit_requests_per_minute must be greater than 0");
    let l = ConfigLimits { rate_limit_requests_per_minute: 1, ..l };
    assert!(l.validate(true).is_ok());
}
