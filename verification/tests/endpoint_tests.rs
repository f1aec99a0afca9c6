use jcommit::endpoint::build_api_endpoint;

#[test]
fn generic_appends_completions_path() {
    let url = build_api_endpoint("https://api.openai.com/v1", false, "gpt-3.5-turbo", None);
    assert_eq!(url, "https://api.openai.com/v1/chat/completions");
}

#[test]
fn generic_trims_trailing_separators() {
    let url = build_api_endpoint("https://api.openai.com/v1///", false, "gpt-3.5-turbo", None);
    assert_eq!(url, "https://api.openai.com/v1/chat/completions");
}

#[test]
fn generic_already_suffixed_is_unchanged() {
    let url = build_api_endpoint(
        "https://example.com/v1/chat/completions",
        false,
        "gpt-4",
        None,
    );
    assert_eq!(url, "https://example.com/v1/chat/completions");
}

#[test]
fn generic_suffixed_with_trailing_separator_is_only_trimmed() {
    let url = build_api_endpoint(
        "https://example.com/v1/chat/completions/",
        false,
        "gpt-4",
        None,
    );
    assert_eq!(url, "https://example.com/v1/chat/completions");
}

#[test]
fn generic_resolution_is_idempotent() {
    let once = build_api_endpoint("https://example.com/v1", false, "gpt-4", None);
    let twice = build_api_endpoint(&once, false, "gpt-4", None);
    assert_eq!(once, twice);
}

#[test]
fn azure_embeds_model_and_default_api_version() {
    let url = build_api_endpoint("https://res.example.com/", true, "my-deployment", None);
    assert_eq!(
        url,
        "https://res.example.com/openai/deployments/my-deployment/chat/completions?api-version=2023-05-15"
    );
}

#[test]
fn azure_uses_given_api_version() {
    let url = build_api_endpoint(
        "https://res.example.com",
        true,
        "gpt-4",
        Some("2024-02-01".to_string()),
    );
    assert_eq!(
        url,
        "https://res.example.com/openai/deployments/gpt-4/chat/completions?api-version=2024-02-01"
    );
}
