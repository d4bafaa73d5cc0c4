//! Laws of the events of a turn.

use crate::event::{
    event_carries, event_request_id, map_event, RuntimeEvent, SamplingEvent, TurnHandle,
    TurnStep,
};
use vstd::prelude::*;

verus! {

/// An event belongs to the request whose id it bears.
pub proof fn an_event_belongs_to_the_request_it_names(event: SamplingEvent, id: &str)
    requires
        call_ensures(event_request_id, (&event,), id),
    ensures
        event matches SamplingEvent::StreamStarted { request_id } ==> id@ == request_id@,
        event matches SamplingEvent::FirstToken { request_id } ==> id@ == request_id@,
        event matches SamplingEvent::ChannelToken { request_id, .. } ==> id@ == request_id@,
        event matches SamplingEvent::ToolCallDelta { request_id, .. } ==> id@ == request_id@,
        event matches SamplingEvent::Completed { request_id, .. } ==> id@ == request_id@,
        event matches SamplingEvent::Retrying { request_id, .. } ==> id@ == request_id@,
        event matches SamplingEvent::Failed { request_id, .. } ==> id@ == request_id@,
        event matches SamplingEvent::ModelMetadata { request_id, .. } ==> id@ == request_id@,
        event matches SamplingEvent::BackendToolCallStarted { request_id, .. } ==> id@
            == request_id@,
        event matches SamplingEvent::BackendToolCallCompleted { request_id, .. } ==> id@
            == request_id@,
{
}

/// `out` is what a product sees of `event`, by itself or on a turn's stream.
pub open spec fn seen_of(event: SamplingEvent, out: RuntimeEvent, handle: TurnHandle) -> bool {
    ||| call_ensures(map_event, (event,), out)
    ||| call_ensures(TurnHandle::next_event, (&handle, Some(event)), TurnStep::Deliver(out))
}

/// A product sees an event of the kind that the sampler reported, and tokens by their
/// channel.
pub proof fn events_keep_their_kind(event: SamplingEvent, out: RuntimeEvent, handle: TurnHandle)
    requires
        seen_of(event, out, handle),
    ensures
        out is StreamStarted <==> event is StreamStarted,
        out is FirstToken <==> event is FirstToken,
        out is TextDelta <==> (event matches SamplingEvent::ChannelToken { channel, .. }
            && channel is Text),
        out is ReasoningDelta <==> (event matches SamplingEvent::ChannelToken { channel, .. }
            && channel is Reasoning),
        out is ToolCallDelta <==> event is ToolCallDelta,
        out is Retrying <==> event is Retrying,
        out is ModelMetadata <==> event is ModelMetadata,
        out is BackendToolStarted <==> event is BackendToolCallStarted,
        out is BackendToolCompleted <==> event is BackendToolCallCompleted,
        out is Completed <==> event is Completed,
        out is Failed <==> event is Failed,
{
    assert(event_carries(event, out));
}

/// A product sees each field of an event as the sampler reported it.
pub proof fn events_keep_their_fields(event: SamplingEvent, out: RuntimeEvent, handle: TurnHandle)
    requires
        seen_of(event, out, handle),
    ensures
        event matches SamplingEvent::ChannelToken { text, .. } ==> match out {
            RuntimeEvent::TextDelta { text: seen } => seen@ == text@,
            RuntimeEvent::ReasoningDelta { text: seen } => seen@ == text@,
            _ => false,
        },
        event matches SamplingEvent::ToolCallDelta { tool_index, id, name, arguments_delta, .. }
            ==> {
            &&& out matches RuntimeEvent::ToolCallDelta {
                index,
                id: seen_id,
                name: seen_name,
                arguments_delta: seen_arguments,
            }
            &&& index == tool_index
            &&& seen_id.deep_view() == id.deep_view()
            &&& seen_name.deep_view() == name.deep_view()
            &&& seen_arguments.deep_view() == arguments_delta.deep_view()
        },
        event matches SamplingEvent::Retrying { attempt, max_retries, reason, .. } ==> {
            &&& out matches RuntimeEvent::Retrying {
                attempt: seen_attempt,
                max_retries: seen_retries,
                reason: seen_reason,
            }
            &&& seen_attempt == attempt
            &&& seen_retries == max_retries
            &&& seen_reason@ == reason@
        },
        event matches SamplingEvent::ModelMetadata { context_window, max_completion_tokens, .. }
            ==> {
            &&& out matches RuntimeEvent::ModelMetadata {
                context_window: seen_window,
                max_completion_tokens: seen_tokens,
            }
            &&& seen_window == context_window
            &&& seen_tokens is Some <==> max_completion_tokens is Some
            &&& seen_tokens is Some ==> seen_tokens->0 as int == max_completion_tokens->0 as int
        },
        event matches SamplingEvent::BackendToolCallStarted { call_id, name, .. } ==> {
            &&& out matches RuntimeEvent::BackendToolStarted { call_id: seen_call, name: seen_name }
            &&& seen_call@ == call_id@
            &&& seen_name@ == name@
        },
        event matches SamplingEvent::BackendToolCallCompleted { call_id, name, result, .. } ==> {
            &&& out matches RuntimeEvent::BackendToolCompleted {
                call_id: seen_call,
                name: seen_name,
                result: seen_result,
            }
            &&& seen_call@ == call_id@
            &&& seen_name@ == name@
            &&& seen_result == result
        },
        event matches SamplingEvent::Failed { error, .. } ==> {
            &&& out matches RuntimeEvent::Failed { kind, message, retryable }
            &&& kind@ == error.kind@
            &&& message@ == error.message@
            &&& retryable == error.is_retryable
        },
{
    assert(event_carries(event, out));
}

/// A product sees what a turn produced as the sampler gave it: the text, every tool
/// call in order, the reason to stop, and the tokens of each kind.
pub proof fn a_completed_turn_is_seen_whole(
    event: SamplingEvent,
    out: RuntimeEvent,
    handle: TurnHandle,
    j: int,
)
    requires
        seen_of(event, out, handle),
    ensures
        event matches SamplingEvent::Completed { response, .. } ==> {
            &&& out matches RuntimeEvent::Completed { output }
            &&& output.text@ == response.assistant_text@
            &&& output.tool_calls@.len() == response.tool_calls@.len()
            &&& 0 <= j < output.tool_calls@.len() ==> {
                &&& output.tool_calls@[j].id@ == response.tool_calls@[j].id@
                &&& output.tool_calls@[j].name@ == response.tool_calls@[j].name@
                &&& output.tool_calls@[j].arguments@ == response.tool_calls@[j].arguments@
            }
            &&& output.stop_reason.deep_view() == response.stop_reason.deep_view()
            &&& output.usage is Some <==> response.usage is Some
            &&& output.usage is Some ==> {
                &&& output.usage->0.prompt_tokens == response.usage->0.prompt_tokens
                &&& output.usage->0.completion_tokens == response.usage->0.completion_tokens
                &&& output.usage->0.total_tokens == response.usage->0.total_tokens
                &&& output.usage->0.reasoning_tokens == response.usage->0.reasoning_tokens
                &&& output.usage->0.cached_prompt_tokens == response.usage->0.cached_prompt_tokens
            }
        },
{
    assert(event_carries(event, out));
}

/// What a product sees determines the sampler's event, but for the request: events that
/// are seen alike are the same in every other field.
pub proof fn events_that_are_seen_alike_are_alike(
    a: SamplingEvent,
    b: SamplingEvent,
    out: RuntimeEvent,
    j: int,
)
    requires
        call_ensures(map_event, (a,), out),
        call_ensures(map_event, (b,), out),
    ensures
        match (a, b) {
            (SamplingEvent::StreamStarted { .. }, SamplingEvent::StreamStarted { .. }) => true,
            (SamplingEvent::FirstToken { .. }, SamplingEvent::FirstToken { .. }) => true,
            (
                SamplingEvent::ChannelToken { channel: c, text: s, .. },
                SamplingEvent::ChannelToken { channel: d, text: t, .. },
            ) => c == d && s == t,
            (
                SamplingEvent::ToolCallDelta {
                    tool_index: i,
                    id: c,
                    name: m,
                    arguments_delta: s,
                    ..
                },
                SamplingEvent::ToolCallDelta {
                    tool_index: k,
                    id: d,
                    name: n,
                    arguments_delta: t,
                    ..
                },
            ) => i == k && c == d && m == n && s == t,
            (
                SamplingEvent::Retrying { attempt: i, max_retries: m, reason: s, .. },
                SamplingEvent::Retrying { attempt: k, max_retries: n, reason: t, .. },
            ) => i == k && m == n && s == t,
            (
                SamplingEvent::Failed { error: e, .. },
                SamplingEvent::Failed { error: f, .. },
            ) => e == f,
            (
                SamplingEvent::ModelMetadata { context_window: v, max_completion_tokens: s, .. },
                SamplingEvent::ModelMetadata { context_window: w, max_completion_tokens: t, .. },
            ) => v == w && s == t,
            (
                SamplingEvent::BackendToolCallStarted { call_id: c, name: m, .. },
                SamplingEvent::BackendToolCallStarted { call_id: d, name: n, .. },
            ) => c == d && m == n,
            (
                SamplingEvent::BackendToolCallCompleted { call_id: c, name: m, result: s, .. },
                SamplingEvent::BackendToolCallCompleted { call_id: d, name: n, result: t, .. },
            ) => c == d && m == n && s == t,
            (
                SamplingEvent::Completed { response: r, .. },
                SamplingEvent::Completed { response: s, .. },
            ) => {
                &&& r.assistant_text == s.assistant_text
                &&& r.tool_calls@.len() == s.tool_calls@.len()
                &&& 0 <= j < r.tool_calls@.len() ==> r.tool_calls@[j] == s.tool_calls@[j]
                &&& r.stop_reason == s.stop_reason
                &&& r.usage == s.usage
            },
            _ => false,
        },
{
    lemma_completed_alike(a, b, out, j);
}

proof fn lemma_completed_alike(
    a: SamplingEvent,
    b: SamplingEvent,
    out: RuntimeEvent,
    j: int,
)
    requires
        event_carries(a, out),
        event_carries(b, out),
    ensures
        a is Completed ==> b is Completed,
        a matches SamplingEvent::Completed { response: r, .. } ==> (
        b matches SamplingEvent::Completed { response: s, .. } && r.tool_calls@.len()
            == s.tool_calls@.len() && (0 <= j < r.tool_calls@.len() ==> r.tool_calls@[j]
            == s.tool_calls@[j])),
{
    if let (
        SamplingEvent::Completed { response: r, .. },
        SamplingEvent::Completed { response: s, .. },
        RuntimeEvent::Completed { output },
    ) = (a, b, out) {
        assert(output.tool_calls@.len() == r.tool_calls@.len());
        assert(output.tool_calls@.len() == s.tool_calls@.len());
        if 0 <= j < r.tool_calls@.len() {
            assert(output.tool_calls@[j].id == r.tool_calls@[j].id);
            assert(output.tool_calls@[j].id == s.tool_calls@[j].id);
        }
    }
}

/// A turn bears the request that it was made with.
pub proof fn a_turn_bears_its_request(request_id: String, handle: TurnHandle, id: &str)
    requires
        call_ensures(TurnHandle::new, (request_id,), handle),
        call_ensures(TurnHandle::request_id, (&handle,), id),
    ensures
        id@ == request_id@,
{
}

/// A turn hands an event on exactly if the event belongs to its own request, drops it
/// and receives again exactly if it belongs to another, and ends exactly if the stream
/// has closed.
pub proof fn a_turn_sees_its_own_request_and_no_other(
    request_id: String,
    handle: TurnHandle,
    received: Option<SamplingEvent>,
    id: &str,
    step: TurnStep,
)
    requires
        call_ensures(TurnHandle::new, (request_id,), handle),
        received matches Some(event) ==> call_ensures(event_request_id, (&event,), id),
        call_ensures(TurnHandle::next_event, (&handle, received), step),
    ensures
        step is End <==> received is None,
        step is Deliver <==> received is Some && id@ == request_id@,
        step is ReceiveNext <==> received is Some && id@ != request_id@,
{
}

/// An event is seen alike by itself and on the stream of its turn.
pub proof fn a_turn_changes_nothing_in_an_event(
    handle: TurnHandle,
    event: SamplingEvent,
    out: RuntimeEvent,
    alone: RuntimeEvent,
    j: int,
)
    requires
        call_ensures(TurnHandle::next_event, (&handle, Some(event)), TurnStep::Deliver(out)),
        call_ensures(map_event, (event,), alone),
    ensures
        match (out, alone) {
            (
                RuntimeEvent::ModelMetadata { context_window: v, max_completion_tokens: s },
                RuntimeEvent::ModelMetadata { context_window: w, max_completion_tokens: t },
            ) => v == w && s == t,
            (
                RuntimeEvent::Completed { output: x },
                RuntimeEvent::Completed { output: y },
            ) => x.text == y.text && x.tool_calls@ == y.tool_calls@ && x.stop_reason
                == y.stop_reason && x.usage == y.usage,
            _ => out == alone,
        },
{
}

} // verus!
