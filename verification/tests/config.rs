use mybuddy_runtime::{Effort, EmbeddedSampler, ModelConfig, Protocol};

fn model_config(protocol: Protocol) -> ModelConfig {
    ModelConfig {
        base_url: "https://provider.example/v1".into(),
        api_key: Some("super-secret".into()),
        model: "model-a".into(),
        protocol,
        context_window: 128_000,
        reasoning_effort: Some(Effort::High),
        max_retries: 2,
        idle_timeout_secs: 300,
    }
}

fn fault(config: &ModelConfig) -> String {
    config.validate().expect_err("configuration is faulty").to_string()
}

#[test]
fn model_debug_redacts_api_key() {
    let rendered = model_config(Protocol::Responses).debug_text();
    assert!(rendered.contains("[REDACTED]"));
    assert!(!rendered.contains("super-secret"));
}

#[test]
fn rejects_header_control_characters_in_key() {
    let mut config = model_config(Protocol::ChatCompletions);
    config.api_key = Some("secret\nheader".into());
    assert!(config.validate().is_err());
    assert_eq!(
        fault(&config),
        "api_key contains characters that are not valid in an HTTP header"
    );
}

#[test]
fn debug_text_shows_every_field_but_the_key() {
    assert_eq!(
        model_config(Protocol::Responses).debug_text(),
        "ModelConfig { base_url: \"https://provider.example/v1\", \
         api_key: Some(\"[REDACTED]\"), model: \"model-a\", protocol: Responses, \
         context_window: 128000, reasoning_effort: Some(High), max_retries: 2, \
         idle_timeout_secs: 300 }"
    );
}

#[test]
fn debug_text_of_absent_options_and_small_numbers() {
    let mut config = model_config(Protocol::ChatCompletions);
    config.api_key = None;
    config.reasoning_effort = None;
    config.context_window = u64::MAX;
    config.max_retries = 0;
    config.idle_timeout_secs = 10;
    assert_eq!(
        config.debug_text(),
        "ModelConfig { base_url: \"https://provider.example/v1\", \
         api_key: None, model: \"model-a\", protocol: ChatCompletions, \
         context_window: 18446744073709551615, reasoning_effort: None, max_retries: 0, \
         idle_timeout_secs: 10 }"
    );
}

#[test]
fn debug_text_quotes_and_escapes_strings() {
    let mut config = model_config(Protocol::Messages);
    config.model = "a\"b\nc".into();
    config.reasoning_effort = Some(Effort::Off);
    let rendered = config.debug_text();
    assert!(rendered.contains("model: \"a\\\"b\\nc\", protocol: Messages"));
    assert!(rendered.contains("reasoning_effort: Some(None)"));
}

#[test]
fn debug_text_is_the_same_for_all_keys() {
    let a = model_config(Protocol::Messages);
    let mut b = model_config(Protocol::Messages);
    b.api_key = Some("another key".into());
    assert_eq!(a.debug_text(), b.debug_text());
    assert_eq!(a.shown_key(), Some("[REDACTED]"));
    b.api_key = None;
    assert_eq!(b.shown_key(), None);
}

#[test]
fn debug_text_stands_around_the_quoted_texts() {
    let config = model_config(Protocol::Messages);
    let around = "ModelConfig { base_url: <url>, api_key: Some(\"[REDACTED]\"), \
                  model: <model>, protocol: Messages, context_window: 128000, \
                  reasoning_effort: Some(High), max_retries: 2, idle_timeout_secs: 300 }";
    assert_eq!(config.debug_text_with("<url>", "<model>"), around);
    assert_eq!(
        config.debug_text_with("\"https://provider.example/v1\"", "\"model-a\""),
        config.debug_text()
    );
    match EmbeddedSampler::new(config) {
        Ok(sampler) => assert_eq!(
            sampler.debug_text_with("<url>", "<model>"),
            format!("EmbeddedSampler {{ config: {around} }}")
        ),
        Err(error) => panic!("{}", error.to_string()),
    }
}

#[test]
fn debug_output_names_the_absence_of_reasoning() {
    assert_eq!(format!("{:?}", Effort::Off), "None");
    assert_eq!(format!("{:?}", Some(Effort::Xhigh)), "Some(Xhigh)");
    assert_eq!(format!("{:#?}", Some(Effort::Off)), "Some(\n    None,\n)");
}

#[test]
fn debug_text_names_every_effort() {
    let names = [
        (Effort::Off, "None"),
        (Effort::Minimal, "Minimal"),
        (Effort::Low, "Low"),
        (Effort::Medium, "Medium"),
        (Effort::High, "High"),
        (Effort::Xhigh, "Xhigh"),
        (Effort::Max, "Max"),
    ];
    for (effort, name) in names {
        let mut config = model_config(Protocol::Responses);
        config.reasoning_effort = Some(effort);
        assert!(config
            .debug_text()
            .contains(&format!("reasoning_effort: Some({name}),")));
    }
}

#[test]
fn accepts_http_and_https_endpoints_with_or_without_a_key() {
    let mut config = model_config(Protocol::Responses);
    assert!(config.validate().is_ok());
    config.base_url = "http://localhost:8080".into();
    config.api_key = None;
    assert!(config.validate().is_ok());
    config.base_url = "http://".into();
    assert!(config.validate().is_ok());
}

#[test]
fn names_the_first_fault() {
    let mut config = model_config(Protocol::Responses);
    config.idle_timeout_secs = 0;
    assert_eq!(fault(&config), "idle_timeout_secs must be greater than zero");
    config.context_window = 0;
    assert_eq!(fault(&config), "context_window must be greater than zero");
    config.model = " \t\u{3000}".into();
    assert_eq!(fault(&config), "model must not be empty");
    for base_url in ["ftp://provider.example", "", "http:/", "HTTPS://provider.example"] {
        config.base_url = base_url.into();
        assert_eq!(fault(&config), "base_url must start with http:// or https://");
    }
}

#[test]
fn keys_are_refused_for_control_characters_only() {
    let mut config = model_config(Protocol::Responses);
    for key in ["", "plain", "sp ace", "tilde~", "\u{80}\u{9f}", "sch\u{fc}ssel", "\u{1f511}"] {
        config.api_key = Some(key.into());
        assert!(config.validate().is_ok());
    }
    for key in ["\u{0}", "a\u{1f}", "\u{7f}b", "\u{1f511}\t"] {
        config.api_key = Some(key.into());
        assert!(config.validate().is_err());
    }
}

#[test]
fn a_sampler_takes_valid_configurations_only() {
    let sampler = match EmbeddedSampler::new(model_config(Protocol::Responses)) {
        Ok(sampler) => sampler,
        Err(error) => panic!("{}", error.to_string()),
    };
    assert_eq!(
        sampler.debug_text(),
        format!(
            "EmbeddedSampler {{ config: {} }}",
            model_config(Protocol::Responses).debug_text()
        )
    );
    assert_eq!(sampler.clone().debug_text(), sampler.debug_text());
    let mut config = model_config(Protocol::Responses);
    config.context_window = 0;
    match EmbeddedSampler::new(config) {
        Ok(_) => panic!("a faulty configuration was taken"),
        Err(error) => {
            assert_eq!(error.to_string(), "context_window must be greater than zero")
        }
    }
}
