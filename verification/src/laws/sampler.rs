//! Laws of setting a sampler up.

use crate::config::{ConfigError, ModelConfig};
use crate::conversation::TurnRequest;
use crate::sampler::{
    requests_go_to_the_configured_endpoint, sampler_config, EmbeddedSampler, SamplerConfig,
    TurnSubmission,
};
use vstd::prelude::*;

verus! {

/// `out` was set up for `config`, by itself or in starting a turn on a sampler that was
/// made with `config`.
pub open spec fn set_up_for(
    config: ModelConfig,
    client_version: &str,
    out: SamplerConfig,
    sampler: EmbeddedSampler,
    request: TurnRequest,
    submission: TurnSubmission,
) -> bool {
    ||| call_ensures(sampler_config, (&config, client_version), out)
    ||| {
        &&& call_ensures(EmbeddedSampler::new, (config,), Ok(sampler))
        &&& call_ensures(
            EmbeddedSampler::start_turn,
            (&sampler, request, client_version),
            submission,
        )
        &&& out == submission.sampler
    }
}

/// Under every protocol a sampler has the key that was configured, and one exactly if
/// one was configured.
pub proof fn the_key_is_the_configured_one(
    config: ModelConfig,
    client_version: &str,
    out: SamplerConfig,
    sampler: EmbeddedSampler,
    request: TurnRequest,
    submission: TurnSubmission,
)
    requires
        set_up_for(config, client_version, out, sampler, request, submission),
    ensures
        out.api_key is Some <==> config.api_key is Some,
        out.api_key is Some ==> out.api_key->0@ == config.api_key->0@,
{
}

/// The endpoint is the configured one: putting slashes back at its end gives the
/// configured URL, and it ends in none itself.
pub proof fn the_endpoint_is_the_configured_one(
    config: ModelConfig,
    client_version: &str,
    out: SamplerConfig,
    sampler: EmbeddedSampler,
    request: TurnRequest,
    submission: TurnSubmission,
)
    requires
        set_up_for(config, client_version, out, sampler, request, submission),
    ensures
        config.base_url@ == out.base_url@ + Seq::new(
            (config.base_url@.len() - out.base_url@.len()) as nat,
            |i: int| '/',
        ),
        out.base_url@.len() > 0 ==> out.base_url@.last() != '/',
        out.base_url@.len() <= config.base_url@.len(),
{
    requests_go_to_the_configured_endpoint(config, client_version@, out);
    let slashes = Seq::new(
        (config.base_url@.len() - out.base_url@.len()) as nat,
        |i: int| '/',
    );
    assert(config.base_url@ =~= out.base_url@ + slashes);
}

/// The model, the limits and the effort are the configured ones, tool calls are
/// streamed, and the client names itself and its version.
pub proof fn the_limits_are_the_configured_ones(
    config: ModelConfig,
    client_version: &str,
    out: SamplerConfig,
    sampler: EmbeddedSampler,
    request: TurnRequest,
    submission: TurnSubmission,
)
    requires
        set_up_for(config, client_version, out, sampler, request, submission),
    ensures
        out.model@ == config.model@,
        out.context_window == config.context_window,
        out.reasoning_effort == config.reasoning_effort,
        out.max_retries == Some(config.max_retries),
        out.idle_timeout_secs == Some(config.idle_timeout_secs),
        out.stream_tool_calls,
        out.client_identifier is Some,
        out.client_identifier->0@ == "mybuddy-desktop"@,
        out.origin_client is Some,
        out.origin_client->0.product@ == "mybuddy-desktop"@,
        out.origin_client->0.version is Some,
        out.origin_client->0.version->0@ == client_version@,
{
}

/// A sampler speaks the configured protocol. With Messages it presents its key in a
/// header of its own and names the version of the API, in one header more; with any
/// other protocol it is a bearer of the key and sends no header more.
pub proof fn the_protocol_decides_how_a_sampler_speaks(
    config: ModelConfig,
    client_version: &str,
    out: SamplerConfig,
    sampler: EmbeddedSampler,
    request: TurnRequest,
    submission: TurnSubmission,
)
    requires
        set_up_for(config, client_version, out, sampler, request, submission),
    ensures
        out.api_backend is ChatCompletions <==> config.protocol is ChatCompletions,
        out.api_backend is Responses <==> config.protocol is Responses,
        out.api_backend is Messages <==> config.protocol is Messages,
        out.auth_scheme is XApiKey <==> config.protocol is Messages,
        out.extra_headers@.len() == (if config.protocol is Messages {
            1int
        } else {
            0
        }),
        config.protocol is Messages ==> {
            &&& out.extra_headers@[0].0@ == "anthropic-version"@
            &&& out.extra_headers@[0].1@ == "2023-06-01"@
        },
{
}

/// The protocol decides nothing else: configurations that differ in their protocols
/// alone set samplers up that differ in the API, the way to present the key and the
/// headers alone.
pub proof fn the_protocol_decides_nothing_else(
    a: ModelConfig,
    b: ModelConfig,
    client_version: &str,
    x: SamplerConfig,
    y: SamplerConfig,
)
    requires
        b == (ModelConfig { protocol: b.protocol, ..a }),
        call_ensures(sampler_config, (&a, client_version), x),
        call_ensures(sampler_config, (&b, client_version), y),
    ensures
        x.api_key.deep_view() == y.api_key.deep_view(),
        x.base_url@ == y.base_url@,
        x.model@ == y.model@,
        x.context_window == y.context_window,
        x.reasoning_effort == y.reasoning_effort,
        x.max_retries == y.max_retries,
        x.idle_timeout_secs == y.idle_timeout_secs,
        x.stream_tool_calls == y.stream_tool_calls,
        x.origin_client is Some && y.origin_client is Some,
        x.origin_client->0.product@ == y.origin_client->0.product@,
        x.origin_client->0.version.deep_view() == y.origin_client->0.version.deep_view(),
        x.client_identifier.deep_view() == y.client_identifier.deep_view(),
        x.api_backend == y.api_backend <==> a.protocol == b.protocol,
        a.protocol == b.protocol ==> x.auth_scheme == y.auth_scheme && x.extra_headers@.len()
            == y.extra_headers@.len(),
{
}

/// The key and the protocol are all that decides how a request is authorised:
/// configurations that agree in both do, whatever else they hold.
pub proof fn the_model_does_not_decide_how_a_request_is_authorised(
    a: ModelConfig,
    b: ModelConfig,
    client_version: &str,
    x: SamplerConfig,
    y: SamplerConfig,
)
    requires
        a.api_key == b.api_key,
        a.protocol == b.protocol,
        call_ensures(sampler_config, (&a, client_version), x),
        call_ensures(sampler_config, (&b, client_version), y),
    ensures
        x.api_key.deep_view() == y.api_key.deep_view(),
        x.auth_scheme == y.auth_scheme,
        x.api_backend == y.api_backend,
        x.extra_headers@.len() == y.extra_headers@.len(),
{
}

/// A sampler is made exactly of a configuration that validates, and refused with the
/// message that validation gives.
pub proof fn samplers_are_made_of_valid_configurations(
    config: ModelConfig,
    res: Result<EmbeddedSampler, ConfigError>,
    valid: Result<(), ConfigError>,
    refusal: String,
    fault: String,
)
    requires
        call_ensures(EmbeddedSampler::new, (config,), res),
        call_ensures(ModelConfig::validate, (&config,), valid),
        res matches Err(error) ==> call_ensures(ConfigError::to_string, (&error,), refusal),
        valid matches Err(error) ==> call_ensures(ConfigError::to_string, (&error,), fault),
    ensures
        res is Ok <==> valid is Ok,
        res is Err ==> refusal@ == fault@,
{
}

/// A turn is retried as often as was configured, and so is a turn on a copy of the
/// sampler.
pub proof fn turns_are_retried_as_configured(
    config: ModelConfig,
    sampler: EmbeddedSampler,
    copy: EmbeddedSampler,
    request: TurnRequest,
    client_version: &str,
    submission: TurnSubmission,
    again: TurnSubmission,
)
    requires
        call_ensures(EmbeddedSampler::new, (config,), Ok(sampler)),
        call_ensures(EmbeddedSampler::clone, (&sampler,), copy),
        call_ensures(EmbeddedSampler::start_turn, (&sampler, request, client_version), submission),
        call_ensures(EmbeddedSampler::start_turn, (&copy, request, client_version), again),
    ensures
        submission.max_retries == config.max_retries,
        again.max_retries == config.max_retries,
        again.sampler.api_key.deep_view() == config.api_key.deep_view(),
        again.sampler.model@ == config.model@,
        again.sampler.base_url@ == submission.sampler.base_url@,
{
}

/// The debug text of a sampler is that of its configuration, between the sampler's name
/// and a closing brace.
pub proof fn a_sampler_shows_its_configuration(
    config: ModelConfig,
    sampler: EmbeddedSampler,
    base_url: &str,
    model: &str,
    text: String,
    inner: String,
    whole: String,
    whole_inner: String,
)
    requires
        call_ensures(EmbeddedSampler::new, (config,), Ok(sampler)),
        call_ensures(EmbeddedSampler::debug_text_with, (&sampler, base_url, model), text),
        call_ensures(ModelConfig::debug_text_with, (&config, base_url, model), inner),
        call_ensures(EmbeddedSampler::debug_text, (&sampler,), whole),
        call_ensures(ModelConfig::debug_text, (&config,), whole_inner),
    ensures
        text@ == "EmbeddedSampler { config: "@ + inner@ + " }"@,
        whole@ == "EmbeddedSampler { config: "@ + whole_inner@ + " }"@,
{
}

} // verus!
