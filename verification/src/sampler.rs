//! The sampler that turns are started on.

use crate::config::{has_control_char, ConfigError, Effort, ModelConfig, Protocol};
use crate::conversation::{
    conversation_carries, conversation_request, ConversationRequest, TurnRequest,
};
use crate::text::{blank, quoted, trim_end_char, trimmed_end, trimming_a_run, trimming_an_end};
use vstd::prelude::*;

verus! {

/// The API version that the Messages protocol asks clients to name.
pub const ANTHROPIC_VERSION: &'static str = "2023-06-01";

/// The API that a sampler speaks.
#[derive(Debug, Clone, Copy, PartialEq, Eq)]
pub enum ApiBackend {
    ChatCompletions,
    Responses,
    Messages,
}

/// How a sampler presents its key.
#[derive(Debug, Clone, Copy, PartialEq, Eq)]
pub enum AuthScheme {
    Bearer,
    XApiKey,
}

/// The client that a sampler names as the origin of its requests.
#[derive(Debug, Clone, PartialEq, Eq)]
pub struct OriginClientInfo {
    pub product: String,
    pub version: Option<String>,
}

/// What a sampler is set up with.
pub struct SamplerConfig {
    pub api_key: Option<String>,
    pub base_url: String,
    pub model: String,
    pub api_backend: ApiBackend,
    pub auth_scheme: AuthScheme,
    /// Names and values of headers to send besides the usual ones.
    pub extra_headers: Vec<(String, String)>,
    pub context_window: u64,
    pub reasoning_effort: Option<Effort>,
    pub max_retries: Option<u32>,
    pub idle_timeout_secs: Option<u64>,
    pub stream_tool_calls: bool,
    pub origin_client: Option<OriginClientInfo>,
    pub client_identifier: Option<String>,
}

/// `headers` are the extra headers of a sampler that speaks `protocol`: the API
/// version with the Messages protocol, and none with any other.
pub open spec fn headers_for(protocol: Protocol, headers: Seq<(String, String)>) -> bool {
    match protocol {
        Protocol::Messages => {
            &&& headers.len() == 1
            &&& headers[0].0@ == "anthropic-version"@
            &&& headers[0].1@ == ANTHROPIC_VERSION@
        },
        _ => headers.len() == 0,
    }
}

/// `out` is the set-up of a sampler for `config`, in a client of version
/// `client_version`.
pub open spec fn sampler_config_carries(
    config: ModelConfig,
    client_version: Seq<char>,
    out: SamplerConfig,
) -> bool {
    &&& out.api_key.deep_view() == config.api_key.deep_view()
    &&& out.base_url@ == trimmed_end(config.base_url@, |c: char| c == '/')
    &&& out.model@ == config.model@
    &&& out.api_backend == match config.protocol {
        Protocol::ChatCompletions => ApiBackend::ChatCompletions,
        Protocol::Responses => ApiBackend::Responses,
        Protocol::Messages => ApiBackend::Messages,
    }
    &&& out.auth_scheme == match config.protocol {
        Protocol::Messages => AuthScheme::XApiKey,
        _ => AuthScheme::Bearer,
    }
    &&& headers_for(config.protocol, out.extra_headers@)
    &&& out.context_window == config.context_window
    &&& out.reasoning_effort == config.reasoning_effort
    &&& out.max_retries == Some(config.max_retries)
    &&& out.idle_timeout_secs == Some(config.idle_timeout_secs)
    &&& out.stream_tool_calls
    &&& out.origin_client matches Some(client)
    &&& client.product@ == "mybuddy-desktop"@
    &&& client.version.deep_view() == Some(client_version)
    &&& out.client_identifier.deep_view() == Some("mybuddy-desktop"@)
}

/// The set-up of a sampler for `config`.
pub fn sampler_config(config: &ModelConfig, client_version: &str) -> (out: SamplerConfig)
    ensures
        sampler_config_carries(*config, client_version@, out),
{
    let mut extra_headers: Vec<(String, String)> = Vec::new();
    match config.protocol {
        Protocol::Messages => {
            extra_headers.push(("anthropic-version".to_owned(), ANTHROPIC_VERSION.to_owned()));
        },
        Protocol::ChatCompletions | Protocol::Responses => {},
    }
    SamplerConfig {
        api_key: config.api_key.clone(),
        base_url: trim_end_char(config.base_url.as_str(), '/').to_owned(),
        model: config.model.clone(),
        api_backend: match config.protocol {
            Protocol::ChatCompletions => ApiBackend::ChatCompletions,
            Protocol::Responses => ApiBackend::Responses,
            Protocol::Messages => ApiBackend::Messages,
        },
        auth_scheme: match config.protocol {
            Protocol::Messages => AuthScheme::XApiKey,
            Protocol::ChatCompletions | Protocol::Responses => AuthScheme::Bearer,
        },
        extra_headers,
        context_window: config.context_window,
        reasoning_effort: config.reasoning_effort,
        max_retries: Some(config.max_retries),
        idle_timeout_secs: Some(config.idle_timeout_secs),
        stream_tool_calls: true,
        origin_client: Some(
            OriginClientInfo {
                product: "mybuddy-desktop".to_owned(),
                version: Some(client_version.to_owned()),
            },
        ),
        client_identifier: Some("mybuddy-desktop".to_owned()),
    }
}

/// What starting a turn hands to the sampler: its set-up, how often to retry, and
/// the conversation.
pub struct TurnSubmission {
    pub sampler: SamplerConfig,
    pub max_retries: u32,
    pub request: ConversationRequest,
}

/// In-process sampler entry point. Its configuration is always a valid one.
pub struct EmbeddedSampler {
    config: ModelConfig,
}

impl EmbeddedSampler {
    #[verifier::type_invariant]
    spec fn has_valid_config(self) -> bool {
        self.config.fault() is None
    }

    /// The configuration that turns are started with.
    pub closed spec fn config(self) -> ModelConfig {
        self.config
    }

    /// Takes a configuration, or names the first fault in it.
    pub fn new(config: ModelConfig) -> (res: Result<Self, ConfigError>)
        ensures
            match res {
                Ok(sampler) => config.fault() is None && sampler.config() == config,
                Err(error) => config.fault() == Some(error@),
            },
    {
        config.validate()?;
        Ok(EmbeddedSampler { config })
    }

    /// Says what is handed to the sampler to start one streaming turn.
    pub fn start_turn(&self, request: TurnRequest, client_version: &str) -> (out: TurnSubmission)
        ensures
            self.config().fault() is None,
            sampler_config_carries(self.config(), client_version@, out.sampler),
            out.max_retries == self.config().max_retries,
            conversation_carries(request, out.request),
    {
        proof {
            use_type_invariant(self);
        }
        TurnSubmission {
            sampler: sampler_config(&self.config, client_version),
            max_retries: self.config.max_retries,
            request: conversation_request(request),
        }
    }

    /// The sampler in the form of debug output. Like its configuration's, it never
    /// shows the key.
    pub fn debug_text(&self) -> (text: String)
        ensures
            text@ == "EmbeddedSampler { config: "@ + self.config().debug_view() + " }"@,
    {
        self.debug_text_with(
            quoted(self.config.base_url.as_str()).as_str(),
            quoted(self.config.model.as_str()).as_str(),
        )
    }

    /// The debug text around `base_url` and `model`, the quoted base URL and the quoted
    /// model of the configuration.
    pub fn debug_text_with(&self, base_url: &str, model: &str) -> (text: String)
        ensures
            text@ == "EmbeddedSampler { config: "@ + self.config().debug_view_with(
                base_url@,
                model@,
            ) + " }"@,
    {
        let mut text = "EmbeddedSampler { config: ".to_owned();
        text.append(self.config.debug_text_with(base_url, model).as_str());
        text.append(" }");
        text
    }
}

impl Clone for EmbeddedSampler {
    fn clone(&self) -> (copy: Self)
        ensures
            copy == *self,
    {
        proof {
            use_type_invariant(self);
        }
        EmbeddedSampler { config: self.config.clone() }
    }
}

/// A sampler talks to the endpoint that was configured and to no other: its base
/// URL is the configured one, short of slashes at the end.
pub proof fn requests_go_to_the_configured_endpoint(
    config: ModelConfig,
    client_version: Seq<char>,
    out: SamplerConfig,
)
    requires
        sampler_config_carries(config, client_version, out),
    ensures
        out.base_url@.is_prefix_of(config.base_url@),
        forall|i: int|
            out.base_url@.len() <= i < config.base_url@.len() ==> #[trigger] config.base_url@[i]
                == '/',
        out.base_url@.len() > 0 ==> out.base_url@.last() != '/',
        out.model@ == config.model@,
{
    let slash = |c: char| c == '/';
    trimming_an_end(config.base_url@, slash);
    assert forall|i: int| out.base_url@.len() <= i < config.base_url@.len() implies
        #[trigger] config.base_url@[i] == '/' by {
        assert(slash(config.base_url@[i]));
    }
}

/// A sampler that is set up for a valid configuration has an HTTP endpoint, a model,
/// limits above zero and a key that can stand in a header.
pub proof fn valid_configurations_set_up_usable_samplers(
    config: ModelConfig,
    client_version: Seq<char>,
    out: SamplerConfig,
)
    requires
        config.fault() is None,
        sampler_config_carries(config, client_version, out),
    ensures
        "http:"@.is_prefix_of(out.base_url@) || "https:"@.is_prefix_of(out.base_url@),
        !blank(out.model@),
        out.context_window > 0,
        out.idle_timeout_secs matches Some(secs) && secs > 0,
        out.api_key is Some ==> !has_control_char(out.api_key->0@),
{
    requests_go_to_the_configured_endpoint(config, client_version, out);
    reveal_strlit("http:");
    reveal_strlit("http://");
    reveal_strlit("https:");
    reveal_strlit("https://");
    if "https://"@.is_prefix_of(config.base_url@) {
        lemma_scheme_stays(config.base_url@, out.base_url@, "https://"@, 6);
        assert("https://"@.take(6) =~= "https:"@);
    } else {
        lemma_scheme_stays(config.base_url@, out.base_url@, "http://"@, 5);
        assert("http://"@.take(5) =~= "http:"@);
    }
}

/// A URL that is short of slashes at the end still has its scheme up to a character
/// that is no slash.
proof fn lemma_scheme_stays(url: Seq<char>, short: Seq<char>, scheme: Seq<char>, n: int)
    requires
        0 < n <= scheme.len(),
        scheme[n - 1] != '/',
        scheme.is_prefix_of(url),
        short.is_prefix_of(url),
        forall|i: int| short.len() <= i < url.len() ==> #[trigger] url[i] == '/',
    ensures
        scheme.take(n).is_prefix_of(short),
{
    assert(url[n - 1] == scheme[n - 1]);
    assert forall|i: int| 0 <= i < n implies #[trigger] short[i] == scheme[i] by {
        assert(short[i] == url[i] && scheme[i] == url[i]);
    }
    assert(short.subrange(0, n) =~= scheme.take(n));
}

/// Slashes at the end of the base URL make no difference: a configuration with more
/// of them sets a sampler up in the same way.
pub proof fn trailing_slashes_are_ignored(
    a: ModelConfig,
    b: ModelConfig,
    more: Seq<char>,
    client_version: Seq<char>,
    out: SamplerConfig,
)
    requires
        b == (ModelConfig { base_url: b.base_url, ..a }),
        b.base_url@ == a.base_url@ + more,
        forall|i: int| 0 <= i < more.len() ==> #[trigger] more[i] == '/',
    ensures
        sampler_config_carries(a, client_version, out) <==> sampler_config_carries(
            b,
            client_version,
            out,
        ),
{
    trimming_a_run(a.base_url@, more, |c: char| c == '/');
}

} // verus!
