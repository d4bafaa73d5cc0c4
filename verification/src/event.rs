//! The events of a turn: what the sampler reports, and what a product sees of it.

use crate::conversation::{SamplingToolCall, ToolCall};
use crate::text::same_text;
use vstd::prelude::*;

verus! {

/// The tokens a turn took.
#[derive(Debug, Clone, PartialEq, Eq)]
pub struct TokenUsage {
    pub prompt_tokens: u32,
    pub completion_tokens: u32,
    pub total_tokens: u32,
    pub reasoning_tokens: u32,
    pub cached_prompt_tokens: u32,
}

/// What a turn produced.
#[derive(Debug, Clone, PartialEq, Eq)]
pub struct TurnOutput {
    pub text: String,
    pub tool_calls: Vec<ToolCall>,
    pub stop_reason: Option<String>,
    pub usage: Option<TokenUsage>,
}

/// An event of a turn, as a product sees it.
#[derive(Debug, Clone, PartialEq)]
pub enum RuntimeEvent {
    StreamStarted,
    FirstToken,
    TextDelta { text: String },
    ReasoningDelta { text: String },
    ToolCallDelta {
        index: u32,
        id: Option<String>,
        name: Option<String>,
        arguments_delta: Option<String>,
    },
    Retrying { attempt: u32, max_retries: u32, reason: String },
    ModelMetadata { context_window: Option<u64>, max_completion_tokens: Option<u64> },
    BackendToolStarted { call_id: String, name: String },
    BackendToolCompleted { call_id: String, name: String, result: Option<serde_json::Value> },
    Completed { output: TurnOutput },
    Failed { kind: String, message: String, retryable: bool },
}

/// The channel that a token came on.
#[derive(Debug, Clone, Copy, PartialEq, Eq)]
pub enum SamplingChannel {
    Text,
    Reasoning,
}

/// The tokens a turn took, in the form the sampler gives.
#[derive(Debug, Clone, PartialEq, Eq)]
pub struct SamplingUsage {
    pub prompt_tokens: u32,
    pub completion_tokens: u32,
    pub total_tokens: u32,
    pub reasoning_tokens: u32,
    pub cached_prompt_tokens: u32,
}

/// What a turn produced, in the form the sampler gives.
#[derive(Debug, Clone, PartialEq, Eq)]
pub struct SamplingResponse {
    pub assistant_text: String,
    pub tool_calls: Vec<SamplingToolCall>,
    pub stop_reason: Option<String>,
    pub usage: Option<SamplingUsage>,
}

/// Why a turn failed, in the form the sampler gives.
#[derive(Debug, Clone, PartialEq, Eq)]
pub struct SamplingFailure {
    pub kind: String,
    pub message: String,
    pub is_retryable: bool,
}

/// An event that the sampler reports, with the request it belongs to.
#[derive(Debug, PartialEq)]
pub enum SamplingEvent {
    StreamStarted { request_id: String },
    FirstToken { request_id: String },
    ChannelToken { request_id: String, channel: SamplingChannel, text: String },
    ToolCallDelta {
        request_id: String,
        tool_index: u32,
        id: Option<String>,
        name: Option<String>,
        arguments_delta: Option<String>,
    },
    Completed { request_id: String, response: SamplingResponse },
    Retrying { request_id: String, attempt: u32, max_retries: u32, reason: String },
    Failed { request_id: String, error: SamplingFailure },
    ModelMetadata {
        request_id: String,
        context_window: Option<u64>,
        max_completion_tokens: Option<u32>,
    },
    BackendToolCallStarted { request_id: String, call_id: String, name: String },
    BackendToolCallCompleted {
        request_id: String,
        call_id: String,
        name: String,
        result: Option<serde_json::Value>,
    },
}

impl SamplingEvent {
    /// The request that the event belongs to.
    pub open spec fn request(self) -> Seq<char> {
        match self {
            SamplingEvent::StreamStarted { request_id } => request_id@,
            SamplingEvent::FirstToken { request_id } => request_id@,
            SamplingEvent::ChannelToken { request_id, .. } => request_id@,
            SamplingEvent::ToolCallDelta { request_id, .. } => request_id@,
            SamplingEvent::Completed { request_id, .. } => request_id@,
            SamplingEvent::Retrying { request_id, .. } => request_id@,
            SamplingEvent::Failed { request_id, .. } => request_id@,
            SamplingEvent::ModelMetadata { request_id, .. } => request_id@,
            SamplingEvent::BackendToolCallStarted { request_id, .. } => request_id@,
            SamplingEvent::BackendToolCallCompleted { request_id, .. } => request_id@,
        }
    }
}

/// The request that `event` belongs to.
pub fn event_request_id(event: &SamplingEvent) -> (id: &str)
    ensures
        id@ == event.request(),
{
    match event {
        SamplingEvent::StreamStarted { request_id } => request_id.as_str(),
        SamplingEvent::FirstToken { request_id } => request_id.as_str(),
        SamplingEvent::ChannelToken { request_id, .. } => request_id.as_str(),
        SamplingEvent::ToolCallDelta { request_id, .. } => request_id.as_str(),
        SamplingEvent::Completed { request_id, .. } => request_id.as_str(),
        SamplingEvent::Retrying { request_id, .. } => request_id.as_str(),
        SamplingEvent::Failed { request_id, .. } => request_id.as_str(),
        SamplingEvent::ModelMetadata { request_id, .. } => request_id.as_str(),
        SamplingEvent::BackendToolCallStarted { request_id, .. } => request_id.as_str(),
        SamplingEvent::BackendToolCallCompleted { request_id, .. } => request_id.as_str(),
    }
}

/// `call` as a product sees it.
pub open spec fn tool_call_of(call: SamplingToolCall) -> ToolCall {
    ToolCall { id: call.id, name: call.name, arguments: call.arguments }
}

/// `usage` as a product sees it.
pub open spec fn usage_of(usage: Option<SamplingUsage>) -> Option<TokenUsage> {
    match usage {
        Some(usage) => Some(
            TokenUsage {
                prompt_tokens: usage.prompt_tokens,
                completion_tokens: usage.completion_tokens,
                total_tokens: usage.total_tokens,
                reasoning_tokens: usage.reasoning_tokens,
                cached_prompt_tokens: usage.cached_prompt_tokens,
            },
        ),
        None => None,
    }
}

/// `out` is `event` as a product sees it.
pub open spec fn event_carries(event: SamplingEvent, out: RuntimeEvent) -> bool {
    match event {
        SamplingEvent::StreamStarted { .. } => out == RuntimeEvent::StreamStarted,
        SamplingEvent::FirstToken { .. } => out == RuntimeEvent::FirstToken,
        SamplingEvent::ChannelToken { channel, text, .. } => match channel {
            SamplingChannel::Text => out == (RuntimeEvent::TextDelta { text }),
            SamplingChannel::Reasoning => out == (RuntimeEvent::ReasoningDelta { text }),
        },
        SamplingEvent::ToolCallDelta { tool_index, id, name, arguments_delta, .. } => out == (
        RuntimeEvent::ToolCallDelta { index: tool_index, id, name, arguments_delta }),
        SamplingEvent::Completed { response, .. } => {
            &&& out matches RuntimeEvent::Completed { output }
            &&& output.text == response.assistant_text
            &&& output.tool_calls@ == response.tool_calls@.map_values(
                |call: SamplingToolCall| tool_call_of(call),
            )
            &&& output.stop_reason == response.stop_reason
            &&& output.usage == usage_of(response.usage)
        },
        SamplingEvent::Retrying { attempt, max_retries, reason, .. } => out == (
        RuntimeEvent::Retrying { attempt, max_retries, reason }),
        SamplingEvent::Failed { error, .. } => out == (RuntimeEvent::Failed {
            kind: error.kind,
            message: error.message,
            retryable: error.is_retryable,
        }),
        SamplingEvent::ModelMetadata { context_window, max_completion_tokens, .. } => {
            &&& out matches RuntimeEvent::ModelMetadata {
                context_window: window,
                max_completion_tokens: limit,
            }
            &&& window == context_window
            &&& match (max_completion_tokens, limit) {
                (Some(tokens), Some(limit)) => limit == tokens,
                (None, None) => true,
                _ => false,
            }
        },
        SamplingEvent::BackendToolCallStarted { call_id, name, .. } => out == (
        RuntimeEvent::BackendToolStarted { call_id, name }),
        SamplingEvent::BackendToolCallCompleted { call_id, name, result, .. } => out == (
        RuntimeEvent::BackendToolCompleted { call_id, name, result }),
    }
}

fn tool_calls(calls: Vec<SamplingToolCall>) -> (out: Vec<ToolCall>)
    ensures
        out@ == calls@.map_values(|call: SamplingToolCall| tool_call_of(call)),
{
    let mut out: Vec<ToolCall> = Vec::new();
    for call in it: calls.into_iter()
        invariant
            it.seq() == calls@,
            out@.len() == it.index(),
            forall|i: int| 0 <= i < out@.len() ==> #[trigger] out@[i] == tool_call_of(calls@[i]),
    {
        out.push(ToolCall { id: call.id, name: call.name, arguments: call.arguments });
    }
    out
}

fn token_usage(usage: Option<SamplingUsage>) -> (out: Option<TokenUsage>)
    ensures
        out == usage_of(usage),
{
    match usage {
        Some(usage) => Some(
            TokenUsage {
                prompt_tokens: usage.prompt_tokens,
                completion_tokens: usage.completion_tokens,
                total_tokens: usage.total_tokens,
                reasoning_tokens: usage.reasoning_tokens,
                cached_prompt_tokens: usage.cached_prompt_tokens,
            },
        ),
        None => None,
    }
}

/// `event` as a product sees it.
pub fn map_event(event: SamplingEvent) -> (out: RuntimeEvent)
    ensures
        event_carries(event, out),
{
    match event {
        SamplingEvent::StreamStarted { .. } => RuntimeEvent::StreamStarted,
        SamplingEvent::FirstToken { .. } => RuntimeEvent::FirstToken,
        SamplingEvent::ChannelToken { channel, text, .. } => match channel {
            SamplingChannel::Text => RuntimeEvent::TextDelta { text },
            SamplingChannel::Reasoning => RuntimeEvent::ReasoningDelta { text },
        },
        SamplingEvent::ToolCallDelta {
            tool_index,
            id,
            name,
            arguments_delta,
            ..
        } => RuntimeEvent::ToolCallDelta { index: tool_index, id, name, arguments_delta },
        SamplingEvent::Retrying { attempt, max_retries, reason, .. } => RuntimeEvent::Retrying {
            attempt,
            max_retries,
            reason,
        },
        SamplingEvent::ModelMetadata { context_window, max_completion_tokens, .. } =>
        RuntimeEvent::ModelMetadata {
            context_window,
            max_completion_tokens: match max_completion_tokens {
                Some(tokens) => Some(tokens as u64),
                None => None,
            },
        },
        SamplingEvent::BackendToolCallStarted { call_id, name, .. } =>
        RuntimeEvent::BackendToolStarted { call_id, name },
        SamplingEvent::BackendToolCallCompleted { call_id, name, result, .. } =>
        RuntimeEvent::BackendToolCompleted { call_id, name, result },
        SamplingEvent::Completed { response, .. } => RuntimeEvent::Completed {
            output: TurnOutput {
                text: response.assistant_text,
                tool_calls: tool_calls(response.tool_calls),
                stop_reason: response.stop_reason,
                usage: token_usage(response.usage),
            },
        },
        SamplingEvent::Failed { error, .. } => RuntimeEvent::Failed {
            kind: error.kind,
            message: error.message,
            retryable: error.is_retryable,
        },
    }
}

/// What a turn does with what it received.
#[derive(Debug, PartialEq)]
pub enum TurnStep {
    /// Hands the event to the product.
    Deliver(RuntimeEvent),
    /// Drops an event of another request and receives again.
    ReceiveNext,
    /// Ends: the stream of events has closed.
    End,
}

/// A turn that was started, by the request it belongs to.
#[derive(Debug, Clone, PartialEq, Eq)]
pub struct TurnHandle {
    request_id: String,
}

impl View for TurnHandle {
    type V = Seq<char>;

    closed spec fn view(&self) -> Seq<char> {
        self.request_id@
    }
}

/// `step` is what the turn of request `id` does with what it received.
pub open spec fn step_follows(
    id: Seq<char>,
    received: Option<SamplingEvent>,
    step: TurnStep,
) -> bool {
    match received {
        Some(event) => if event.request() == id {
            step matches TurnStep::Deliver(out) && event_carries(event, out)
        } else {
            step == TurnStep::ReceiveNext
        },
        None => step == TurnStep::End,
    }
}

impl TurnHandle {
    /// The turn of the request `request_id`.
    pub fn new(request_id: String) -> (handle: Self)
        ensures
            handle@ == request_id@,
    {
        TurnHandle { request_id }
    }

    /// The request that the turn belongs to.
    pub fn request_id(&self) -> (id: &str)
        ensures
            id@ == self@,
    {
        self.request_id.as_str()
    }

    /// Decides on what was received from the stream of events, where `None` says
    /// that the stream has closed. Events of other requests never reach the product.
    pub fn next_event(&self, received: Option<SamplingEvent>) -> (step: TurnStep)
        ensures
            step_follows(self@, received, step),
    {
        match received {
            Some(event) => if same_text(event_request_id(&event), self.request_id.as_str()) {
                TurnStep::Deliver(map_event(event))
            } else {
                TurnStep::ReceiveNext
            },
            None => TurnStep::End,
        }
    }
}

/// The events among `received` that belong to request `id`, in order.
pub open spec fn own_events(id: Seq<char>, received: Seq<SamplingEvent>) -> Seq<SamplingEvent>
    decreases received.len(),
{
    if received.len() == 0 {
        Seq::empty()
    } else if received.last().request() == id {
        own_events(id, received.drop_last()).push(received.last())
    } else {
        own_events(id, received.drop_last())
    }
}

/// The events that `steps` hand to the product, in order.
pub open spec fn delivered_events(steps: Seq<TurnStep>) -> Seq<RuntimeEvent>
    decreases steps.len(),
{
    if steps.len() == 0 {
        Seq::empty()
    } else {
        match steps.last() {
            TurnStep::Deliver(event) => delivered_events(steps.drop_last()).push(event),
            _ => delivered_events(steps.drop_last()),
        }
    }
}

/// Over a whole stream a product sees every event of its own request, once and in
/// order, and no event of another request.
pub proof fn a_turn_delivers_its_own_events(
    id: Seq<char>,
    received: Seq<SamplingEvent>,
    steps: Seq<TurnStep>,
)
    requires
        steps.len() == received.len(),
        forall|i: int|
            0 <= i < steps.len() ==> step_follows(id, Some(received[i]), #[trigger] steps[i]),
    ensures
        delivered_events(steps).len() == own_events(id, received).len(),
        forall|i: int|
            0 <= i < delivered_events(steps).len() ==> event_carries(
                own_events(id, received)[i],
                #[trigger] delivered_events(steps)[i],
            ),
    decreases steps.len(),
{
    if steps.len() > 0 {
        let last = steps.len() - 1;
        assert(step_follows(id, Some(received[last]), steps[last]));
        let rest = steps.drop_last();
        assert forall|i: int| 0 <= i < rest.len() implies step_follows(
            id,
            Some(received.drop_last()[i]),
            #[trigger] rest[i],
        ) by {
            assert(step_follows(id, Some(received[i]), steps[i]));
        }
        a_turn_delivers_its_own_events(id, received.drop_last(), rest);
    }
}

} // verus!
