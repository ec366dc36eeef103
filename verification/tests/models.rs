use openai_proxy::handler::validate_model;
use openai_proxy::models::{ModelInfo, OpenAIModelInfo};

#[test]
fn test_openai_model_info() {
    let models = OpenAIModelInfo::get_available_models();
    assert!(!models.is_empty());

    // Check that GPT-4o is in the list
    assert!(models.iter().any(|m| m.id == "gpt-4o"));

    // Check that o3 is in the list
    assert!(models.iter().any(|m| m.id == "o3"));
}

#[test]
fn test_token_limits() {
    assert_eq!(OpenAIModelInfo::get_max_tokens("gpt-4o"), 128000);
    assert_eq!(OpenAIModelInfo::get_max_tokens("o3"), 200000);
    assert_eq!(OpenAIModelInfo::get_max_tokens("gpt-3.5-turbo"), 16385);
    assert_eq!(OpenAIModelInfo::get_max_tokens("unknown-model"), 128000);
}

#[test]
fn test_pricing() {
    let pricing = OpenAIModelInfo::get_pricing("gpt-4o");
    assert_eq!(pricing.input_cents_per_million_tokens as f64 / 100.0, 2.50);
    assert_eq!(pricing.output_cents_per_million_tokens as f64 / 100.0, 10.00);

    let mini_pricing = OpenAIModelInfo::get_pricing("gpt-4o-mini");
    assert_eq!(mini_pricing.input_cents_per_million_tokens as f64 / 100.0, 0.15);
    assert_eq!(mini_pricing.output_cents_per_million_tokens as f64 / 100.0, 0.60);
}

#[test]
fn test_is_model_supported() {
    assert!(OpenAIModelInfo::is_model_supported("gpt-4o"));
    assert!(OpenAIModelInfo::is_model_supported("moonshot-v1-8k"));
    assert!(!OpenAIModelInfo::is_model_supported("gpt4"));
    assert!(!OpenAIModelInfo::is_model_supported(""));
}

#[test]
fn test_suggestions_for_gpt_family_hint() {
    let suggestions = OpenAIModelInfo::get_model_suggestions("gpt4");
    assert!(!suggestions.is_empty());
    assert!(suggestions.iter().any(|s| s == "gpt-4"));
}

#[test]
fn test_suggestions_for_unknown_model_never_empty() {
    let suggestions = OpenAIModelInfo::get_model_suggestions("totally-unknown-xyz");
    assert_eq!(
        suggestions,
        vec![
            "moonshot-v1-8k".to_string(),
            "kimi-k2-0711-preview".to_string(),
            "gpt-4".to_string(),
        ]
    );
}

#[test]
fn test_suggestions_case_insensitive_exact_match() {
    // Fails if case folding were the identity: "GPT-4" matches "gpt-4" only
    // after lowercasing both sides.
    let suggestions = OpenAIModelInfo::get_model_suggestions("GPT-4");
    assert_eq!(suggestions, vec!["gpt-4".to_string()]);
}

#[test]
fn test_suggestions_substring_match() {
    let suggestions = OpenAIModelInfo::get_model_suggestions("moonshot-v1");
    assert!(suggestions.len() <= 3);
    assert!(suggestions.iter().all(|s| s.contains("moonshot-v1")));
    assert!(!suggestions.is_empty());
}

#[test]
fn test_suggestions_moonshot_hint() {
    let suggestions = OpenAIModelInfo::get_model_suggestions("kimi-nonexistent-2");
    assert_eq!(
        suggestions,
        vec![
            "moonshot-v1-8k".to_string(),
            "moonshot-v1-32k".to_string(),
            "kimi-k2-0711-preview".to_string(),
        ]
    );
}

#[test]
fn test_model_info_display_name() {
    let models = OpenAIModelInfo::get_available_models();
    let gpt4 = models.iter().find(|m| m.id == "gpt-4").unwrap();
    let info = ModelInfo::from_openai(gpt4);
    assert_eq!(info.display_name, "gpt-4 (openai)");
    assert_eq!(info.max_tokens, 8192);
    assert_eq!(info.provider, "openai");
}

#[test]
fn test_validate_model_accepts_catalog_models() {
    assert_eq!(validate_model("gpt-4o"), None);
    assert_eq!(validate_model("kimi-k2-0711-preview"), None);
}

#[test]
fn test_validate_model_rejects_with_suggestions() {
    let msg = validate_model("gpt4").unwrap();
    assert_eq!(
        msg,
        "Unsupported model 'gpt4'. Did you mean one of: gpt-4, gpt-4-turbo, gpt-3.5-turbo? \
         Available models can be listed using the ListModels request."
    );
}

#[test]
fn test_list_models_generic_converts_catalog() {
    let models = openai_proxy::handler::list_models_generic();
    assert_eq!(models.len(), OpenAIModelInfo::get_available_models().len());
    assert!(models.iter().any(|m| m.display_name == "moonshot-v1-8k (moonshot)"));
}
