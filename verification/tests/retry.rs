use openai_proxy::retry::{
    AttemptOutcome, RetryConfig, RetryDecision, RetryState, next_delay,
};
use openai_proxy::state::{Config, ContentFormat, State};

fn stock_config() -> RetryConfig {
    RetryConfig {
        max_retries: 3,
        initial_delay_ms: 1000,
        max_delay_ms: 30000,
        backoff_multiplier_hundredths: 200,
        max_total_timeout_ms: 60000,
    }
}

#[test]
fn test_backoff_sequence_doubles_and_caps() {
    let cfg = stock_config();
    let mut delay = cfg.initial_delay_ms;
    let mut seen = vec![delay];
    for _ in 0..6 {
        delay = next_delay(delay, &cfg);
        seen.push(delay);
    }
    assert_eq!(seen, vec![1000, 2000, 4000, 8000, 16000, 30000, 30000]);
}

#[test]
fn test_backoff_fractional_multiplier() {
    let cfg = RetryConfig {
        max_retries: 3,
        initial_delay_ms: 1000,
        max_delay_ms: 30000,
        backoff_multiplier_hundredths: 150,
        max_total_timeout_ms: 60000,
    };
    assert_eq!(next_delay(1000, &cfg), 1500);
    assert_eq!(next_delay(1500, &cfg), 2250);
}

#[test]
fn test_retry_state_advance() {
    let cfg = stock_config();
    let mut st = RetryState::start(&cfg);
    assert_eq!(st.attempt, 1);
    assert_eq!(st.current_delay_ms, 1000);
    st.advance(&cfg);
    assert_eq!(st.attempt, 2);
    assert_eq!(st.current_delay_ms, 2000);
}

#[test]
fn test_retryable_statuses_retry_within_budget() {
    let cfg = stock_config();
    let st = RetryState::start(&cfg);
    for status in [429u16, 502, 503, 504] {
        let d = openai_proxy::retry::decide(AttemptOutcome::Response { status }, &st, &cfg, 0);
        assert_eq!(d, RetryDecision::RetryAfter { delay_ms: 1000 });
    }
}

#[test]
fn test_non_retryable_statuses_surface_immediately() {
    let cfg = stock_config();
    let st = RetryState::start(&cfg);
    for status in [401u16, 404, 200, 400, 500] {
        let d = openai_proxy::retry::decide(AttemptOutcome::Response { status }, &st, &cfg, 0);
        assert_eq!(d, RetryDecision::Accept);
    }
}

#[test]
fn test_retry_stops_when_attempts_exhausted() {
    let cfg = stock_config();
    let st = RetryState { attempt: 4, current_delay_ms: 8000 };
    let d = openai_proxy::retry::decide(AttemptOutcome::Response { status: 503 }, &st, &cfg, 0);
    assert_eq!(d, RetryDecision::Accept);
    let d = openai_proxy::retry::decide(AttemptOutcome::TransportError, &st, &cfg, 0);
    assert_eq!(d, RetryDecision::GiveUp);
}

#[test]
fn test_retry_stops_when_time_budget_spent() {
    let cfg = stock_config();
    let st = RetryState::start(&cfg);
    let d = openai_proxy::retry::decide(
        AttemptOutcome::Response { status: 429 },
        &st,
        &cfg,
        60000,
    );
    assert_eq!(d, RetryDecision::Accept);
    let d = openai_proxy::retry::decide(AttemptOutcome::TransportError, &st, &cfg, 60000);
    assert_eq!(d, RetryDecision::GiveUp);
}

#[test]
fn test_retry_loop_runs_at_most_max_retries_plus_one_attempts() {
    let cfg = stock_config();
    let mut st = RetryState::start(&cfg);
    let mut attempts: u32 = 0;
    loop {
        attempts += 1;
        // Every attempt comes back with a retryable status and no time passes.
        match openai_proxy::retry::decide(
            AttemptOutcome::Response { status: 503 },
            &st,
            &cfg,
            0,
        ) {
            RetryDecision::RetryAfter { .. } => st.advance(&cfg),
            _ => break,
        }
    }
    assert_eq!(attempts, cfg.max_retries + 1);
}

#[test]
fn test_transport_error_retries_then_gives_up() {
    let cfg = stock_config();
    let st = RetryState::start(&cfg);
    let d = openai_proxy::retry::decide(AttemptOutcome::TransportError, &st, &cfg, 0);
    assert_eq!(d, RetryDecision::RetryAfter { delay_ms: 1000 });
}

#[test]
fn test_retry_config_defaults() {
    let cfg = RetryConfig::default();
    assert_eq!(cfg.max_retries, 3);
    assert_eq!(cfg.initial_delay_ms, 1000);
    assert_eq!(cfg.max_delay_ms, 30000);
    assert_eq!(cfg.backoff_multiplier_hundredths, 200);
    assert_eq!(cfg.max_total_timeout_ms, 60000);
}

#[test]
fn test_config_defaults() {
    let config = Config::default();
    assert_eq!(config.default_model, "gpt-4o");
    assert_eq!(config.timeout_ms, 30000);
    assert_eq!(config.max_cache_size, Some(100));
}

#[test]
fn test_content_format_default_is_array() {
    assert_eq!(ContentFormat::default(), ContentFormat::Array);
}

#[test]
fn test_state_new_uses_default_config_when_none_given() {
    let state = State::new("actor-1".to_string(), "key".to_string(), None, None);
    assert_eq!(state.id, "actor-1");
    assert_eq!(state.api_key, "key");
    assert_eq!(state.store_id, None);
    assert_eq!(state.config, Config::default());
}

#[test]
fn test_state_new_keeps_given_config() {
    let mut config = Config::default();
    config.default_model = "moonshot-v1-8k".to_string();
    config.content_format = ContentFormat::Plain;
    let state = State::new(
        "actor-2".to_string(),
        "key".to_string(),
        Some("store".to_string()),
        Some(config.clone()),
    );
    assert_eq!(state.config, config);
    assert_eq!(state.store_id, Some("store".to_string()));
}
