//! Laws of compaction.

use crate::compaction::{
    compacted_history, compaction_request, latest_user_item, latest_user_item_has_no_later_one,
    system_items, CompactionError,
};
use crate::conversation::{
    conversation_request, ConversationItem, ConversationRequest, ConversationToolChoice, InputItem,
    TurnRequest,
};
use vstd::prelude::*;

verus! {

/// A history can be compacted exactly if it holds anything. What is asked is the
/// history, entry by entry, and after it the prompt as a user message, with no tools,
/// no use of them, and no sampling parameters.
pub proof fn a_compaction_asks_for_the_history_and_the_prompt(
    history: Vec<InputItem>,
    summary_prompt: String,
    res: Result<TurnRequest, CompactionError>,
)
    requires
        call_ensures(compaction_request, (history, summary_prompt), res),
    ensures
        res is Ok <==> history@.len() > 0,
        res matches Ok(request) ==> {
            &&& request.items@.len() == history@.len() + 1
            &&& forall|i: int|
                0 <= i < history@.len() ==> #[trigger] request.items@[i] == history@[i]
            &&& request.items@[history@.len() as int] == (InputItem::User {
                content: summary_prompt,
            })
            &&& request.tools@.len() == 0
            &&& request.tool_choice is Disabled
            &&& request.temperature is None
            &&& request.max_output_tokens is None
        },
{
}

/// What a refused compaction request is answered.
pub proof fn an_empty_history_is_refused_with_a_message(
    history: Vec<InputItem>,
    summary_prompt: String,
    error: CompactionError,
    message: String,
)
    requires
        call_ensures(compaction_request, (history, summary_prompt), Err(error)),
        call_ensures(CompactionError::to_string, (&error,), message),
    ensures
        message@ == "cannot compact an empty history"@,
{
}

/// While a history is summarised no tool can run: what is submitted offers none and
/// forbids their use, whatever the history holds.
pub proof fn no_tool_runs_while_a_history_is_summarised(
    history: Vec<InputItem>,
    summary_prompt: String,
    request: TurnRequest,
    submitted: ConversationRequest,
)
    requires
        call_ensures(compaction_request, (history, summary_prompt), Ok(request)),
        call_ensures(conversation_request, (request,), submitted),
    ensures
        submitted.tools@.len() == 0,
        submitted.tool_choice == Some(ConversationToolChoice::Disabled),
        submitted.items@.len() == history@.len() + 1,
        submitted.items@.last() == (ConversationItem::User { content: summary_prompt }),
        submitted.temperature is None,
        submitted.max_output_tokens is None,
{
    let last = history@.len() as int;
    assert(submitted.items@[last] == (ConversationItem::User { content: summary_prompt }));
}

proof fn lemma_system_items_are_a_filter(history: Seq<InputItem>)
    ensures
        system_items(history) == history.filter(|item: InputItem| item is System),
    decreases history.len(),
{
    reveal(Seq::filter);
    if history.len() > 0 {
        lemma_system_items_are_a_filter(history.drop_last());
    }
}

proof fn lemma_no_user_item(history: Seq<InputItem>)
    requires
        forall|i: int| 0 <= i < history.len() ==> !(#[trigger] history[i] is User),
    ensures
        latest_user_item(history) is None,
    decreases history.len(),
{
    if history.len() > 0 {
        assert(!(history[history.len() - 1] is User));
        lemma_no_user_item(history.drop_last());
    }
}

/// A history is compacted to its system instructions, all of them and in order, then
/// its latest user message, whatever follows that in the history, then the summary.
pub proof fn the_latest_request_is_kept(
    history: &[InputItem],
    degenerate: bool,
    summary_content: String,
    items: Vec<InputItem>,
    k: int,
)
    requires
        call_ensures(compacted_history, (history, degenerate, summary_content), Ok(items)),
        0 <= k < history@.len(),
        history@[k] is User,
        forall|i: int| k < i < history@.len() ==> !(#[trigger] history@[i] is User),
    ensures
        items@.len() == history@.filter(|item: InputItem| item is System).len() + 2,
        items@.take(items@.len() - 2) == history@.filter(|item: InputItem| item is System),
        items@[items@.len() - 2] == history@[k],
        items@[items@.len() - 1] == (InputItem::User { content: summary_content }),
{
    lemma_system_items_are_a_filter(history@);
    latest_user_item_has_no_later_one(history@, k);
    assert(items@.take(items@.len() - 2) =~= system_items(history@));
}

/// A history without a user message is compacted to its system instructions and the
/// summary.
pub proof fn without_a_request_the_instructions_are_kept(
    history: &[InputItem],
    degenerate: bool,
    summary_content: String,
    items: Vec<InputItem>,
)
    requires
        call_ensures(compacted_history, (history, degenerate, summary_content), Ok(items)),
        forall|i: int| 0 <= i < history@.len() ==> !(#[trigger] history@[i] is User),
    ensures
        items@ == history@.filter(|item: InputItem| item is System).push(
            InputItem::User { content: summary_content },
        ),
{
    lemma_system_items_are_a_filter(history@);
    lemma_no_user_item(history@);
}

/// A history is compacted exactly if the summary is not degenerate, and refused with a
/// message otherwise, so that a short summary never replaces it.
pub proof fn a_degenerate_summary_is_refused(
    history: &[InputItem],
    degenerate: bool,
    summary_content: String,
    res: Result<Vec<InputItem>, CompactionError>,
    message: String,
)
    requires
        call_ensures(compacted_history, (history, degenerate, summary_content), res),
        res matches Err(error) ==> call_ensures(CompactionError::to_string, (&error,), message),
    ensures
        res is Err <==> degenerate,
        res is Err ==> message@
            == "compaction response was too short to preserve session context"@,
{
}

/// Only what is kept counts: two histories with the same system instructions and the
/// same latest user message are compacted to the same, whatever else they hold.
pub proof fn only_instructions_and_the_latest_request_count(
    a: &[InputItem],
    b: &[InputItem],
    summary_content: String,
    x: Vec<InputItem>,
    y: Vec<InputItem>,
    k: int,
    l: int,
)
    requires
        call_ensures(compacted_history, (a, false, summary_content), Ok(x)),
        call_ensures(compacted_history, (b, false, summary_content), Ok(y)),
        a@.filter(|item: InputItem| item is System) == b@.filter(
            |item: InputItem| item is System,
        ),
        0 <= k < a@.len(),
        0 <= l < b@.len(),
        a@[k] is User,
        a@[k] == b@[l],
        forall|i: int| k < i < a@.len() ==> !(#[trigger] a@[i] is User),
        forall|i: int| l < i < b@.len() ==> !(#[trigger] b@[i] is User),
    ensures
        x@ == y@,
{
    lemma_system_items_are_a_filter(a@);
    lemma_system_items_are_a_filter(b@);
    latest_user_item_has_no_later_one(a@, k);
    latest_user_item_has_no_later_one(b@, l);
}

} // verus!
