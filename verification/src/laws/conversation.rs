//! Laws of what is submitted for a turn.

use crate::conversation::{
    conversation_item_carries, conversation_request, ConversationItem, ConversationRequest,
    ConversationToolChoice, InputItem, Temperature, ToolDefinition, TurnRequest,
};
use crate::sampler::{EmbeddedSampler, TurnSubmission};
use vstd::prelude::*;
use vstd::std_specs::cmp::PartialEqSpec;

verus! {

/// `out` was submitted for `request`, by itself or in starting a turn.
pub open spec fn submitted_for(
    request: TurnRequest,
    out: ConversationRequest,
    sampler: EmbeddedSampler,
    client_version: &str,
    submission: TurnSubmission,
) -> bool {
    ||| call_ensures(conversation_request, (request,), out)
    ||| call_ensures(EmbeddedSampler::start_turn, (&sampler, request, client_version), submission)
        && out == submission.request
}

/// Every entry is submitted in its place and in its role, and no role becomes another.
pub proof fn every_entry_keeps_its_place_and_role(
    request: TurnRequest,
    out: ConversationRequest,
    sampler: EmbeddedSampler,
    client_version: &str,
    submission: TurnSubmission,
    i: int,
)
    requires
        submitted_for(request, out, sampler, client_version, submission),
    ensures
        out.items@.len() == request.items@.len(),
        0 <= i < out.items@.len() ==> {
            &&& out.items@[i] is System <==> request.items@[i] is System
            &&& out.items@[i] is User <==> request.items@[i] is User
            &&& out.items@[i] is Assistant <==> request.items@[i] is Assistant
            &&& out.items@[i] is ToolResult <==> request.items@[i] is ToolResult
        },
{
    if 0 <= i < out.items@.len() {
        assert(conversation_item_carries(request.items@[i], out.items@[i]));
    }
}

/// Every entry is submitted with its content, an assistant's also with its model and
/// its tool calls, in order, and a tool's also with the call that it answers. Nothing
/// is added.
pub proof fn every_entry_keeps_its_content(
    request: TurnRequest,
    out: ConversationRequest,
    sampler: EmbeddedSampler,
    client_version: &str,
    submission: TurnSubmission,
    i: int,
)
    requires
        submitted_for(request, out, sampler, client_version, submission),
        0 <= i < request.items@.len(),
    ensures
        request.items@[i] matches InputItem::System { content } ==> (
        out.items@[i] matches ConversationItem::System { content: sent } && sent@ == content@),
        request.items@[i] matches InputItem::User { content } ==> (
        out.items@[i] matches ConversationItem::User { content: sent } && sent@ == content@),
        request.items@[i] matches InputItem::ToolResult { call_id, content } ==> (
        out.items@[i] matches ConversationItem::ToolResult { call_id: answered, content: sent }
            && answered@ == call_id@ && sent@ == content@),
        request.items@[i] matches InputItem::Assistant { content, model, tool_calls } ==> {
            &&& out.items@[i] matches ConversationItem::Assistant(sent)
            &&& sent.content@ == content@
            &&& sent.model_id.deep_view() == model.deep_view()
            &&& sent.model_fingerprint is None
            &&& sent.reasoning_effort is None
            &&& sent.tool_calls@.len() == tool_calls@.len()
            &&& forall|j: int|
                0 <= j < tool_calls@.len() ==> {
                    &&& (#[trigger] sent.tool_calls@[j]).id@ == tool_calls@[j].id@
                    &&& sent.tool_calls@[j].name@ == tool_calls@[j].name@
                    &&& sent.tool_calls@[j].arguments@ == tool_calls@[j].arguments@
                }
        },
{
    assert(conversation_item_carries(request.items@[i], out.items@[i]));
}

/// The tools are offered as they are asked for, in order, and so is their use; the
/// sampling parameters are those of the request.
pub proof fn tools_and_parameters_are_submitted_as_asked(
    request: TurnRequest,
    out: ConversationRequest,
    sampler: EmbeddedSampler,
    client_version: &str,
    submission: TurnSubmission,
)
    requires
        submitted_for(request, out, sampler, client_version, submission),
    ensures
        out.tools@.len() == request.tools@.len(),
        forall|j: int|
            0 <= j < request.tools@.len() ==> {
                &&& (#[trigger] out.tools@[j]).name@ == request.tools@[j].name@
                &&& out.tools@[j].description.deep_view()
                    == request.tools@[j].description.deep_view()
                &&& out.tools@[j].parameters == request.tools@[j].parameters
            },
        out.tool_choice is Some,
        out.tool_choice == Some(ConversationToolChoice::Auto) <==> request.tool_choice is Auto,
        out.tool_choice == Some(ConversationToolChoice::Disabled)
            <==> request.tool_choice is Disabled,
        out.tool_choice == Some(ConversationToolChoice::Required)
            <==> request.tool_choice is Required,
        out.temperature == request.temperature,
        out.max_output_tokens == request.max_output_tokens,
{
}

/// Nothing is lost: requests that are submitted alike ask for the same. Two that
/// differ in the role, the content, the model, the call or a tool call of an entry, in
/// a tool, in the use of tools or in a parameter are submitted differently.
pub proof fn requests_that_are_submitted_alike_are_alike(
    a: TurnRequest,
    b: TurnRequest,
    x: ConversationRequest,
    y: ConversationRequest,
    i: int,
    j: int,
)
    requires
        call_ensures(conversation_request, (a,), x),
        call_ensures(conversation_request, (b,), y),
        x.items@ == y.items@,
        x.tools@ == y.tools@,
        x.tool_choice == y.tool_choice,
        x.temperature == y.temperature,
        x.max_output_tokens == y.max_output_tokens,
    ensures
        a.items@.len() == b.items@.len(),
        0 <= i < a.items@.len() ==> match (a.items@[i], b.items@[i]) {
            (InputItem::System { content: s }, InputItem::System { content: t }) => s@ == t@,
            (InputItem::User { content: s }, InputItem::User { content: t }) => s@ == t@,
            (
                InputItem::ToolResult { call_id: c, content: s },
                InputItem::ToolResult { call_id: d, content: t },
            ) => c@ == d@ && s@ == t@,
            (
                InputItem::Assistant { content: s, model: m, tool_calls: c },
                InputItem::Assistant { content: t, model: n, tool_calls: d },
            ) => s@ == t@ && m.deep_view() == n.deep_view() && c@.len() == d@.len() && (0 <= j
                < c@.len() ==> c@[j].id@ == d@[j].id@ && c@[j].name@ == d@[j].name@
                && c@[j].arguments@ == d@[j].arguments@),
            _ => false,
        },
        a.tools@.len() == b.tools@.len(),
        0 <= j < a.tools@.len() ==> a.tools@[j].name@ == b.tools@[j].name@
            && a.tools@[j].description.deep_view() == b.tools@[j].description.deep_view()
            && a.tools@[j].parameters == b.tools@[j].parameters,
        a.tool_choice == b.tool_choice,
        a.temperature == b.temperature,
        a.max_output_tokens == b.max_output_tokens,
{
    if 0 <= i < a.items@.len() {
        assert(conversation_item_carries(a.items@[i], x.items@[i]));
        assert(conversation_item_carries(b.items@[i], y.items@[i]));
        if let (
            InputItem::Assistant { tool_calls: c, .. },
            InputItem::Assistant { tool_calls: d, .. },
        ) = (a.items@[i], b.items@[i]) {
            if let ConversationItem::Assistant(sent) = x.items@[i] {
                assert(sent.tool_calls@.len() == c@.len() && sent.tool_calls@.len() == d@.len());
                if 0 <= j < c@.len() {
                    assert(sent.tool_calls@[j].id == c@[j].id);
                    assert(sent.tool_calls@[j].id == d@[j].id);
                }
            }
        }
    }
    assert(x.tools@.len() == a.tools@.len() && y.tools@.len() == b.tools@.len());
    if 0 <= j < a.tools@.len() {
        assert(x.tools@[j].name == a.tools@[j].name);
        assert(y.tools@[j].name == b.tools@[j].name);
    }
}

/// Entries do not affect each other: the same entry is submitted alike wherever and in
/// whatever company it stands.
pub proof fn entries_are_submitted_independently(
    a: TurnRequest,
    b: TurnRequest,
    x: ConversationRequest,
    y: ConversationRequest,
    i: int,
    j: int,
)
    requires
        call_ensures(conversation_request, (a,), x),
        call_ensures(conversation_request, (b,), y),
        0 <= i < a.items@.len(),
        0 <= j < b.items@.len(),
        a.items@[i] == b.items@[j],
    ensures
        match (x.items@[i], y.items@[j]) {
            (ConversationItem::Assistant(s), ConversationItem::Assistant(t)) => {
                &&& s.content@ == t.content@
                &&& s.model_id == t.model_id
                &&& s.tool_calls@ == t.tool_calls@
                &&& s.model_fingerprint == t.model_fingerprint
                &&& s.reasoning_effort == t.reasoning_effort
            },
            _ => x.items@[i] == y.items@[j],
        },
{
    assert(conversation_item_carries(a.items@[i], x.items@[i]));
    assert(conversation_item_carries(b.items@[j], y.items@[j]));
}

/// Temperatures are equal as numbers are: if they have the same bits and are numbers,
/// or are both zero. So equality is symmetric, and only what is not a number is unequal
/// to itself.
pub proof fn temperatures_are_equal_as_numbers(a: Temperature, b: Temperature, equal: bool)
    requires
        call_ensures(Temperature::eq, (&a, &b), equal),
    ensures
        equal <==> {
            ||| a.bits == b.bits && a.bits <= 0x7f80_0000
            ||| a.bits == b.bits && 0x8000_0000 <= a.bits <= 0xff80_0000
            ||| (a.bits == 0 || a.bits == 0x8000_0000) && (b.bits == 0 || b.bits == 0x8000_0000)
        },
        a.eq_spec(&b) == b.eq_spec(&a),
{
}

/// A copy of a tool is the tool.
pub proof fn copied_tools_are_the_same(tool: ToolDefinition, copy: ToolDefinition)
    requires
        call_ensures(ToolDefinition::clone, (&tool,), copy),
    ensures
        copy.name@ == tool.name@,
        copy.description.deep_view() == tool.description.deep_view(),
        copy.parameters == tool.parameters,
{
}

} // verus!
