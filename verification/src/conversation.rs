//! One sampling turn: what a product asks for, and the conversation that is
//! submitted for it.

use crate::config::Effort;
use vstd::prelude::*;

verus! {

/// A JSON value. The library carries such values and never looks inside.
#[verifier::external_type_specification]
#[verifier::external_body]
pub struct ExValue(serde_json::Value);

/// Copies a JSON value by `<serde_json::Value as Clone>::clone`. Claimed of it: the
/// copy is the value it was made from.
pub assume_specification[ <serde_json::Value as Clone>::clone ](value: &serde_json::Value) -> (copy:
    serde_json::Value)
    ensures
        copy == *value,
;

/// A tool invocation that the assistant asked for.
#[derive(Debug, Clone, PartialEq, Eq)]
pub struct ToolCall {
    pub id: String,
    pub name: String,
    pub arguments: String,
}

/// One entry of a session history.
#[derive(Debug, Clone, PartialEq, Eq)]
pub enum InputItem {
    System { content: String },
    User { content: String },
    Assistant { content: String, model: Option<String>, tool_calls: Vec<ToolCall> },
    ToolResult { call_id: String, content: String },
}

/// A tool that the model may call.
#[derive(Debug, PartialEq)]
pub struct ToolDefinition {
    pub name: String,
    pub description: Option<String>,
    pub parameters: serde_json::Value,
}

impl Clone for ToolDefinition {
    fn clone(&self) -> (copy: Self)
        ensures
            copy == *self,
    {
        ToolDefinition {
            name: self.name.clone(),
            description: self.description.clone(),
            parameters: self.parameters.clone(),
        }
    }
}

/// How the model may use the tools of a turn.
#[derive(Clone, Copy, PartialEq, Eq)]
pub enum ToolChoice {
    Auto,
    /// The model may call no tool; written `none` on the wire and `None` in debug
    /// output.
    Disabled,
    Required,
}

impl ToolChoice {
    /// The choice's name, as debug output shows it.
    pub open spec fn variant_text(self) -> Seq<char> {
        match self {
            ToolChoice::Auto => "Auto"@,
            ToolChoice::Disabled => "None"@,
            ToolChoice::Required => "Required"@,
        }
    }

    fn variant_name(self) -> (name: &'static str)
        ensures
            name@ == self.variant_text(),
    {
        match self {
            ToolChoice::Auto => "Auto",
            ToolChoice::Disabled => "None",
            ToolChoice::Required => "Required",
        }
    }
}

impl core::fmt::Debug for ToolChoice {
    /// Writes the choice's name.
    fn fmt(&self, formatter: &mut core::fmt::Formatter<'_>) -> (res: core::fmt::Result) {
        formatter.write_str(self.variant_name())
    }
}

/// A sampling temperature, held as the bits of its IEEE 754 single-precision
/// form. The library carries it and never computes with it, so it has no debug output:
/// the bits are not what a reader of a temperature looks for.
#[derive(Clone, Copy)]
pub struct Temperature {
    pub bits: u32,
}

impl Temperature {
    /// The bits without the sign.
    pub open spec fn magnitude(self) -> nat {
        self.bits as nat % 0x8000_0000
    }
}

impl PartialEq for Temperature {
    /// Equality of numbers: the two zeros are equal, and what is not a number is
    /// equal to nothing.
    fn eq(&self, other: &Self) -> (equal: bool) {
        let magnitude: u32 = self.bits % 0x8000_0000;
        if magnitude == 0 {
            other.bits % 0x8000_0000 == 0
        } else {
            magnitude <= 0x7f80_0000 && self.bits == other.bits
        }
    }
}

impl vstd::std_specs::cmp::PartialEqSpecImpl for Temperature {
    open spec fn obeys_eq_spec() -> bool {
        true
    }

    open spec fn eq_spec(&self, other: &Self) -> bool {
        if self.magnitude() == 0 {
            other.magnitude() == 0
        } else {
            self.magnitude() <= 0x7f80_0000 && self.bits == other.bits
        }
    }
}

/// What a product asks of one turn.
#[derive(Clone, PartialEq)]
pub struct TurnRequest {
    pub items: Vec<InputItem>,
    pub tools: Vec<ToolDefinition>,
    pub tool_choice: ToolChoice,
    pub temperature: Option<Temperature>,
    pub max_output_tokens: Option<u32>,
}

/// A tool call in the form the sampler takes and gives.
#[derive(Debug, Clone, PartialEq, Eq)]
pub struct SamplingToolCall {
    pub id: String,
    pub name: String,
    pub arguments: String,
}

/// An assistant message in the form the sampler takes.
#[derive(Debug, PartialEq, Eq)]
pub struct AssistantItem {
    pub content: String,
    pub model_id: Option<String>,
    pub tool_calls: Vec<SamplingToolCall>,
    pub model_fingerprint: Option<String>,
    pub reasoning_effort: Option<Effort>,
}

/// A conversation entry in the form the sampler takes.
#[derive(Debug, PartialEq, Eq)]
pub enum ConversationItem {
    System { content: String },
    User { content: String },
    Assistant(AssistantItem),
    ToolResult { call_id: String, content: String },
}

/// A tool in the form the sampler takes.
#[derive(Debug, PartialEq)]
pub struct ToolSpec {
    pub name: String,
    pub description: Option<String>,
    pub parameters: serde_json::Value,
}

/// The tool choice in the form the sampler takes.
#[derive(Debug, Clone, Copy, PartialEq, Eq)]
pub enum ConversationToolChoice {
    Auto,
    Disabled,
    Required,
}

/// The conversation that is submitted to the sampler for one turn.
#[derive(PartialEq)]
pub struct ConversationRequest {
    pub items: Vec<ConversationItem>,
    pub tools: Vec<ToolSpec>,
    pub tool_choice: Option<ConversationToolChoice>,
    pub temperature: Option<Temperature>,
    pub max_output_tokens: Option<u32>,
}

/// `call` in the form the sampler takes.
pub open spec fn sampling_tool_call_of(call: ToolCall) -> SamplingToolCall {
    SamplingToolCall { id: call.id, name: call.name, arguments: call.arguments }
}

/// `tool` in the form the sampler takes.
pub open spec fn tool_spec_of(tool: ToolDefinition) -> ToolSpec {
    ToolSpec { name: tool.name, description: tool.description, parameters: tool.parameters }
}

/// `choice` in the form the sampler takes.
pub open spec fn tool_choice_of(choice: ToolChoice) -> ConversationToolChoice {
    match choice {
        ToolChoice::Auto => ConversationToolChoice::Auto,
        ToolChoice::Disabled => ConversationToolChoice::Disabled,
        ToolChoice::Required => ConversationToolChoice::Required,
    }
}

/// `out` is `item` in the form the sampler takes: the same role, and the same
/// content, character by character.
pub open spec fn conversation_item_carries(item: InputItem, out: ConversationItem) -> bool {
    match item {
        InputItem::System { content } => out == (ConversationItem::System { content }),
        InputItem::User { content } => out == (ConversationItem::User { content }),
        InputItem::Assistant { content, model, tool_calls } => {
            &&& out matches ConversationItem::Assistant(assistant)
            &&& assistant.content == content
            &&& assistant.model_id == model
            &&& assistant.tool_calls@ == tool_calls@.map_values(
                |call: ToolCall| sampling_tool_call_of(call),
            )
            &&& assistant.model_fingerprint is None
            &&& assistant.reasoning_effort is None
        },
        InputItem::ToolResult { call_id, content } => out == (ConversationItem::ToolResult {
            call_id,
            content,
        }),
    }
}

/// `out` submits what `request` asks for.
pub open spec fn conversation_carries(request: TurnRequest, out: ConversationRequest) -> bool {
    &&& out.items@.len() == request.items@.len()
    &&& forall|i: int|
        0 <= i < request.items@.len() ==> conversation_item_carries(
            request.items@[i],
            #[trigger] out.items@[i],
        )
    &&& out.tools@ == request.tools@.map_values(|tool: ToolDefinition| tool_spec_of(tool))
    &&& out.tool_choice == Some(tool_choice_of(request.tool_choice))
    &&& out.temperature == request.temperature
    &&& out.max_output_tokens == request.max_output_tokens
}

fn sampling_tool_calls(calls: Vec<ToolCall>) -> (out: Vec<SamplingToolCall>)
    ensures
        out@ == calls@.map_values(|call: ToolCall| sampling_tool_call_of(call)),
{
    let mut out: Vec<SamplingToolCall> = Vec::new();
    for call in it: calls.into_iter()
        invariant
            it.seq() == calls@,
            out@.len() == it.index(),
            forall|i: int|
                0 <= i < out@.len() ==> #[trigger] out@[i] == sampling_tool_call_of(calls@[i]),
    {
        out.push(SamplingToolCall { id: call.id, name: call.name, arguments: call.arguments });
    }
    out
}

fn tool_specs(tools: Vec<ToolDefinition>) -> (out: Vec<ToolSpec>)
    ensures
        out@ == tools@.map_values(|tool: ToolDefinition| tool_spec_of(tool)),
{
    let mut out: Vec<ToolSpec> = Vec::new();
    for tool in it: tools.into_iter()
        invariant
            it.seq() == tools@,
            out@.len() == it.index(),
            forall|i: int| 0 <= i < out@.len() ==> #[trigger] out@[i] == tool_spec_of(tools@[i]),
    {
        out.push(
            ToolSpec {
                name: tool.name,
                description: tool.description,
                parameters: tool.parameters,
            },
        );
    }
    out
}

fn conversation_item(item: InputItem) -> (out: ConversationItem)
    ensures
        conversation_item_carries(item, out),
{
    match item {
        InputItem::System { content } => ConversationItem::System { content },
        InputItem::User { content } => ConversationItem::User { content },
        InputItem::Assistant { content, model, tool_calls } => ConversationItem::Assistant(
            AssistantItem {
                content,
                model_id: model,
                tool_calls: sampling_tool_calls(tool_calls),
                model_fingerprint: None,
                reasoning_effort: None,
            },
        ),
        InputItem::ToolResult { call_id, content } => ConversationItem::ToolResult {
            call_id,
            content,
        },
    }
}

/// The conversation to submit for `request`.
pub fn conversation_request(request: TurnRequest) -> (out: ConversationRequest)
    ensures
        conversation_carries(request, out),
{
    let TurnRequest { items, tools, tool_choice, temperature, max_output_tokens } = request;
    let mut out: Vec<ConversationItem> = Vec::new();
    for item in it: items.into_iter()
        invariant
            it.seq() == items@,
            out@.len() == it.index(),
            forall|i: int|
                0 <= i < out@.len() ==> conversation_item_carries(items@[i], #[trigger] out@[i]),
    {
        out.push(conversation_item(item));
    }
    ConversationRequest {
        items: out,
        tools: tool_specs(tools),
        tool_choice: Some(
            match tool_choice {
                ToolChoice::Auto => ConversationToolChoice::Auto,
                ToolChoice::Disabled => ConversationToolChoice::Disabled,
                ToolChoice::Required => ConversationToolChoice::Required,
            },
        ),
        temperature,
        max_output_tokens,
    }
}

} // verus!
