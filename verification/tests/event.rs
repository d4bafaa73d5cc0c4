use mybuddy_runtime::{
    event_request_id, map_event, RuntimeEvent, SamplingChannel, SamplingEvent, SamplingFailure,
    SamplingResponse, SamplingToolCall, SamplingUsage, TokenUsage, ToolCall, TurnHandle,
    TurnOutput, TurnStep,
};
use serde_json::Value;

fn id() -> String {
    "request-1".into()
}

fn samples() -> Vec<(SamplingEvent, RuntimeEvent)> {
    vec![
        (
            SamplingEvent::StreamStarted { request_id: id() },
            RuntimeEvent::StreamStarted,
        ),
        (
            SamplingEvent::FirstToken { request_id: id() },
            RuntimeEvent::FirstToken,
        ),
        (
            SamplingEvent::ChannelToken {
                request_id: id(),
                channel: SamplingChannel::Text,
                text: "hello".into(),
            },
            RuntimeEvent::TextDelta {
                text: "hello".into(),
            },
        ),
        (
            SamplingEvent::ChannelToken {
                request_id: id(),
                channel: SamplingChannel::Reasoning,
                text: "hmm".into(),
            },
            RuntimeEvent::ReasoningDelta { text: "hmm".into() },
        ),
        (
            SamplingEvent::ToolCallDelta {
                request_id: id(),
                tool_index: 3,
                id: Some("call-1".into()),
                name: None,
                arguments_delta: Some("{".into()),
            },
            RuntimeEvent::ToolCallDelta {
                index: 3,
                id: Some("call-1".into()),
                name: None,
                arguments_delta: Some("{".into()),
            },
        ),
        (
            SamplingEvent::Retrying {
                request_id: id(),
                attempt: 1,
                max_retries: 2,
                reason: "overloaded".into(),
            },
            RuntimeEvent::Retrying {
                attempt: 1,
                max_retries: 2,
                reason: "overloaded".into(),
            },
        ),
        (
            SamplingEvent::ModelMetadata {
                request_id: id(),
                context_window: Some(128_000),
                max_completion_tokens: Some(u32::MAX),
            },
            RuntimeEvent::ModelMetadata {
                context_window: Some(128_000),
                max_completion_tokens: Some(4_294_967_295),
            },
        ),
        (
            SamplingEvent::ModelMetadata {
                request_id: id(),
                context_window: None,
                max_completion_tokens: None,
            },
            RuntimeEvent::ModelMetadata {
                context_window: None,
                max_completion_tokens: None,
            },
        ),
        (
            SamplingEvent::BackendToolCallStarted {
                request_id: id(),
                call_id: "call-1".into(),
                name: "search".into(),
            },
            RuntimeEvent::BackendToolStarted {
                call_id: "call-1".into(),
                name: "search".into(),
            },
        ),
        (
            SamplingEvent::BackendToolCallCompleted {
                request_id: id(),
                call_id: "call-1".into(),
                name: "search".into(),
                result: Some(Value::Bool(true)),
            },
            RuntimeEvent::BackendToolCompleted {
                call_id: "call-1".into(),
                name: "search".into(),
                result: Some(Value::Bool(true)),
            },
        ),
        (
            SamplingEvent::Completed {
                request_id: id(),
                response: SamplingResponse {
                    assistant_text: "done".into(),
                    tool_calls: vec![SamplingToolCall {
                        id: "call-2".into(),
                        name: "read_file".into(),
                        arguments: "{}".into(),
                    }],
                    stop_reason: Some("stop".into()),
                    usage: Some(SamplingUsage {
                        prompt_tokens: 1,
                        completion_tokens: 2,
                        total_tokens: 3,
                        reasoning_tokens: 4,
                        cached_prompt_tokens: 5,
                    }),
                },
            },
            RuntimeEvent::Completed {
                output: TurnOutput {
                    text: "done".into(),
                    tool_calls: vec![ToolCall {
                        id: "call-2".into(),
                        name: "read_file".into(),
                        arguments: "{}".into(),
                    }],
                    stop_reason: Some("stop".into()),
                    usage: Some(TokenUsage {
                        prompt_tokens: 1,
                        completion_tokens: 2,
                        total_tokens: 3,
                        reasoning_tokens: 4,
                        cached_prompt_tokens: 5,
                    }),
                },
            },
        ),
        (
            SamplingEvent::Failed {
                request_id: id(),
                error: SamplingFailure {
                    kind: "auth".into(),
                    message: "refused".into(),
                    is_retryable: false,
                },
            },
            RuntimeEvent::Failed {
                kind: "auth".into(),
                message: "refused".into(),
                retryable: false,
            },
        ),
    ]
}

#[test]
fn every_kind_of_event_is_mapped() {
    for (event, expected) in samples() {
        assert_eq!(map_event(event), expected);
    }
}

#[test]
fn every_kind_of_event_names_its_request() {
    for (event, _) in samples() {
        assert_eq!(event_request_id(&event), "request-1");
    }
}

#[test]
fn a_turn_delivers_its_own_events_in_order() {
    let handle = TurnHandle::new(id());
    assert_eq!(handle.request_id(), "request-1");
    let mut delivered = Vec::new();
    for (event, _) in samples() {
        let foreign = SamplingEvent::FirstToken {
            request_id: "request-2".into(),
        };
        assert_eq!(handle.next_event(Some(foreign)), TurnStep::ReceiveNext);
        match handle.next_event(Some(event)) {
            TurnStep::Deliver(event) => delivered.push(event),
            other => panic!("{:?}", other),
        }
    }
    let expected: Vec<RuntimeEvent> = samples().into_iter().map(|(_, event)| event).collect();
    assert_eq!(delivered, expected);
}

#[test]
fn a_turn_ends_with_its_stream() {
    assert_eq!(TurnHandle::new(id()).next_event(None), TurnStep::End);
}
