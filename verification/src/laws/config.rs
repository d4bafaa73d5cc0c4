//! Laws of the model configuration.

use crate::config::{control_char, ConfigError, Effort, ModelConfig, Protocol};
use crate::text::{decimal_text, quoted_text, trimming_is_thorough, white_space};
use vstd::prelude::*;

verus! {

/// A configuration is valid exactly if its URL begins with a scheme of HTTP, its model
/// has something besides white space, its window and its timeout are above zero, and
/// its key, if it has one, holds no ASCII control character.
pub proof fn validity_by_fields(config: ModelConfig, res: Result<(), ConfigError>)
    requires
        call_ensures(ModelConfig::validate, (&config,), res),
    ensures
        res is Ok <==> {
            &&& "https://"@.is_prefix_of(config.base_url@) || "http://"@.is_prefix_of(
                config.base_url@,
            )
            &&& exists|i: int|
                0 <= i < config.model@.len() && !white_space(#[trigger] config.model@[i])
            &&& config.context_window > 0
            &&& config.idle_timeout_secs > 0
            &&& config.api_key matches Some(key) ==> forall|i: int|
                0 <= i < key@.len() ==> 32 <= (#[trigger] key@[i]) as int && key@[i] as int != 127
        },
{
    trimming_is_thorough(config.model@);
    if let Some(key) = config.api_key {
        if res is Ok {
            assert forall|i: int| 0 <= i < key@.len() implies 32 <= (#[trigger] key@[i]) as int
                && key@[i] as int != 127 by {
                assert(!control_char(key@[i]));
            }
        }
    }
}

/// The message names the first fault: the URL, then the model, then the window, then
/// the timeout, then the key. It never shows the key.
pub proof fn the_first_fault_is_named(config: ModelConfig, error: ConfigError, message: String)
    requires
        call_ensures(ModelConfig::validate, (&config,), Err(error)),
        call_ensures(ConfigError::to_string, (&error,), message),
    ensures
        message@ == (if !"https://"@.is_prefix_of(config.base_url@) && !"http://"@.is_prefix_of(
            config.base_url@,
        ) {
            "base_url must start with http:// or https://"@
        } else if forall|i: int|
            0 <= i < config.model@.len() ==> white_space(#[trigger] config.model@[i]) {
            "model must not be empty"@
        } else if config.context_window == 0 {
            "context_window must be greater than zero"@
        } else if config.idle_timeout_secs == 0 {
            "idle_timeout_secs must be greater than zero"@
        } else {
            "api_key contains characters that are not valid in an HTTP header"@
        }),
{
    trimming_is_thorough(config.model@);
}

/// Validity does not depend on the protocol, the effort or the retries.
pub proof fn validity_does_not_depend_on_the_protocol(
    a: ModelConfig,
    b: ModelConfig,
    x: Result<(), ConfigError>,
    y: Result<(), ConfigError>,
)
    requires
        b == (ModelConfig {
            protocol: b.protocol,
            reasoning_effort: b.reasoning_effort,
            max_retries: b.max_retries,
            ..a
        }),
        call_ensures(ModelConfig::validate, (&a,), x),
        call_ensures(ModelConfig::validate, (&b,), y),
    ensures
        x is Ok <==> y is Ok,
{
}

/// A key is shown as redacted, and something is shown exactly if there is a key.
pub proof fn keys_are_shown_redacted(config: ModelConfig, shown: Option<&'static str>)
    requires
        call_ensures(ModelConfig::shown_key, (&config,), shown),
    ensures
        shown is Some <==> config.api_key is Some,
        shown is Some ==> shown->0@ == "[REDACTED]"@,
{
}

/// The debug text names every field and gives its value after the name, in the order
/// of the fields. Of the key it gives what stands for every key.
pub proof fn debug_text_gives_every_field(
    config: ModelConfig,
    base_url: &str,
    model: &str,
    text: String,
)
    requires
        call_ensures(ModelConfig::debug_text_with, (&config, base_url, model), text),
    ensures
        ({
            let key = match config.api_key {
                Some(_) => "Some(\""@ + "[REDACTED]"@ + "\")"@,
                None => "None"@,
            };
            let protocol = match config.protocol {
                Protocol::ChatCompletions => "ChatCompletions"@,
                Protocol::Responses => "Responses"@,
                Protocol::Messages => "Messages"@,
            };
            let effort = match config.reasoning_effort {
                Some(Effort::Off) => "Some("@ + "None"@ + ")"@,
                Some(Effort::Minimal) => "Some("@ + "Minimal"@ + ")"@,
                Some(Effort::Low) => "Some("@ + "Low"@ + ")"@,
                Some(Effort::Medium) => "Some("@ + "Medium"@ + ")"@,
                Some(Effort::High) => "Some("@ + "High"@ + ")"@,
                Some(Effort::Xhigh) => "Some("@ + "Xhigh"@ + ")"@,
                Some(Effort::Max) => "Some("@ + "Max"@ + ")"@,
                None => "None"@,
            };
            text@ == "ModelConfig { base_url: "@ + base_url@ + ", api_key: "@ + key + ", model: "@
                + model@ + ", protocol: "@ + protocol + ", context_window: "@ + decimal_text(
                config.context_window as nat,
            ) + ", reasoning_effort: "@ + effort + ", max_retries: "@ + decimal_text(
                config.max_retries as nat,
            ) + ", idle_timeout_secs: "@ + decimal_text(config.idle_timeout_secs as nat) + " }"@
        }),
{
}

/// The debug text shows the URL and the model as std quotes them.
pub proof fn debug_text_quotes_the_url_and_the_model(
    config: ModelConfig,
    base_url: &str,
    model: &str,
    text: String,
    around: String,
)
    requires
        base_url@ == quoted_text(config.base_url@),
        model@ == quoted_text(config.model@),
        call_ensures(ModelConfig::debug_text, (&config,), text),
        call_ensures(ModelConfig::debug_text_with, (&config, base_url, model), around),
    ensures
        text@ == around@,
{
}

/// Keys do not show: two configurations that both have a key and differ in nothing
/// else have the same debug text.
pub proof fn keys_do_not_show(a: ModelConfig, b: ModelConfig, x: String, y: String)
    requires
        a.api_key is Some && b.api_key is Some,
        b == (ModelConfig { api_key: b.api_key, ..a }),
        call_ensures(ModelConfig::debug_text, (&a,), x),
        call_ensures(ModelConfig::debug_text, (&b,), y),
    ensures
        x@ == y@,
{
}

/// A copy of a configuration is the configuration, key and all.
pub proof fn copied_configurations_are_the_same(config: ModelConfig, copy: ModelConfig)
    requires
        call_ensures(ModelConfig::clone, (&config,), copy),
    ensures
        copy.base_url@ == config.base_url@,
        copy.api_key.deep_view() == config.api_key.deep_view(),
        copy.model@ == config.model@,
        copy.protocol == config.protocol,
        copy.context_window == config.context_window,
        copy.reasoning_effort == config.reasoning_effort,
        copy.max_retries == config.max_retries,
        copy.idle_timeout_secs == config.idle_timeout_secs,
{
}

} // verus!
