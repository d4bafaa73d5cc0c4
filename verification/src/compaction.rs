//! Compaction: a long session history is replaced by a summary of it.
//!
//! The summary prompt, the verdict on a summary and the text that carries it
//! forward come from the compaction engine; the functions here take them as
//! arguments and hold for every value of them.

use crate::conversation::{
    conversation_carries, conversation_item_carries, ConversationItem, ConversationRequest,
    ConversationToolChoice, InputItem, ToolChoice, ToolDefinition, TurnRequest,
};
use vstd::prelude::*;

verus! {

/// A compaction that was refused.
///
/// The host owns when to compact and persistence. This error keeps the summary
/// quality gate at the product boundary.
#[derive(Debug, Clone, PartialEq, Eq)]
pub struct CompactionError {
    message: String,
}

impl View for CompactionError {
    type V = Seq<char>;

    closed spec fn view(&self) -> Seq<char> {
        self.message@
    }
}

impl CompactionError {
    fn new(message: &str) -> (error: Self)
        ensures
            error@ == message@,
    {
        CompactionError { message: message.to_owned() }
    }

    /// The message to show.
    pub fn to_string(&self) -> (message: String)
        ensures
            message@ == self@,
    {
        self.message.clone()
    }
}

/// `request` asks for a summary of `history`: the history verbatim, then the
/// prompt as the last user message, with no tools and no sampling parameters.
pub open spec fn compaction_request_carries(
    history: Seq<InputItem>,
    summary_prompt: String,
    request: TurnRequest,
) -> bool {
    &&& request.items@ == history.push(InputItem::User { content: summary_prompt })
    &&& request.tools@ == Seq::<ToolDefinition>::empty()
    &&& request.tool_choice == ToolChoice::Disabled
    &&& request.temperature is None
    &&& request.max_output_tokens is None
}

/// Builds the full-history compaction request.
///
/// The history is sent verbatim and `summary_prompt`, the engine's structured
/// summary prompt, is appended as the final user message. Tools are disabled so
/// that a provider can never execute actions while summarising prior context.
pub fn compaction_request(history: Vec<InputItem>, summary_prompt: String) -> (res: Result<
    TurnRequest,
    CompactionError,
>)
    ensures
        match res {
            Ok(request) => {
                &&& history@.len() > 0
                &&& compaction_request_carries(history@, summary_prompt, request)
            },
            Err(error) => history@.len() == 0 && error@ == "cannot compact an empty history"@,
        },
{
    if history.is_empty() {
        return Err(CompactionError::new("cannot compact an empty history"));
    }
    let mut items = history;
    items.push(InputItem::User { content: summary_prompt });
    Ok(
        TurnRequest {
            items,
            tools: Vec::new(),
            tool_choice: ToolChoice::Disabled,
            temperature: None,
            max_output_tokens: None,
        },
    )
}

/// No tool can run while a history is summarised: the conversation submitted for a
/// compaction offers none and forbids their use. It holds the history entry by
/// entry, and the prompt at its end.
pub proof fn a_compaction_submits_no_tools(
    history: Seq<InputItem>,
    summary_prompt: String,
    request: TurnRequest,
    submitted: ConversationRequest,
)
    requires
        compaction_request_carries(history, summary_prompt, request),
        conversation_carries(request, submitted),
    ensures
        submitted.tools@.len() == 0,
        submitted.tool_choice == Some(ConversationToolChoice::Disabled),
        submitted.items@.len() == history.len() + 1,
        forall|i: int|
            0 <= i < history.len() ==> conversation_item_carries(
                history[i],
                #[trigger] submitted.items@[i],
            ),
        submitted.items@.last() == (ConversationItem::User { content: summary_prompt }),
{
    assert forall|i: int| 0 <= i < history.len() implies conversation_item_carries(
        history[i],
        #[trigger] submitted.items@[i],
    ) by {
        assert(request.items@[i] == history[i]);
    }
    let last = history.len() as int;
    assert(conversation_item_carries(request.items@[last], submitted.items@[last]));
}

/// The system instructions of `history`, in order.
pub open spec fn system_items(history: Seq<InputItem>) -> Seq<InputItem>
    decreases history.len(),
{
    if history.len() == 0 {
        Seq::empty()
    } else if history.last() is System {
        system_items(history.drop_last()).push(history.last())
    } else {
        system_items(history.drop_last())
    }
}

/// The most recent user message of `history`, if it has one.
pub open spec fn latest_user_item(history: Seq<InputItem>) -> Option<InputItem>
    decreases history.len(),
{
    if history.len() == 0 {
        None
    } else if history.last() is User {
        Some(history.last())
    } else {
        latest_user_item(history.drop_last())
    }
}

/// `history` with everything but its system instructions and its most recent
/// user message replaced by one user message that holds `summary_content`.
pub open spec fn compacted(history: Seq<InputItem>, summary_content: String) -> Seq<InputItem> {
    let summary = InputItem::User { content: summary_content };
    match latest_user_item(history) {
        Some(request) => system_items(history).push(request).push(summary),
        None => system_items(history).push(summary),
    }
}

/// Rebuilds a session history around a summary of it.
///
/// All prior assistant and tool output is replaced. System instructions and the
/// most recent user request remain verbatim; `summary_content`, the text in which
/// the engine carries the summary forward, comes last. A summary that the engine
/// finds `degenerate` is refused instead of silently destroying the history.
pub fn compacted_history(
    history: &[InputItem],
    degenerate: bool,
    summary_content: String,
) -> (res: Result<Vec<InputItem>, CompactionError>)
    ensures
        match res {
            Ok(items) => !degenerate && items@ == compacted(history@, summary_content),
            Err(error) => degenerate && error@
                == "compaction response was too short to preserve session context"@,
        },
{
    if degenerate {
        return Err(
            CompactionError::new("compaction response was too short to preserve session context"),
        );
    }
    let mut items: Vec<InputItem> = Vec::new();
    let mut request: Option<InputItem> = None;
    let len: usize = history.len();
    let mut at: usize = 0;
    while at < len
        invariant
            len == history@.len(),
            at <= len,
            items@ == system_items(history@.take(at as int)),
            request == latest_user_item(history@.take(at as int)),
        decreases len - at,
    {
        assert(history@.take(at + 1).drop_last() =~= history@.take(at as int));
        match &history[at] {
            InputItem::System { content } => {
                items.push(InputItem::System { content: content.clone() });
            },
            InputItem::User { content } => {
                request = Some(InputItem::User { content: content.clone() });
            },
            InputItem::Assistant { .. } | InputItem::ToolResult { .. } => {},
        }
        at = at + 1;
    }
    assert(history@.take(len as int) =~= history@);
    if let Some(request) = request {
        items.push(request);
    }
    items.push(InputItem::User { content: summary_content });
    Ok(items)
}

proof fn lemma_system_items_push(history: Seq<InputItem>, item: InputItem)
    ensures
        system_items(history.push(item)) == if item is System {
            system_items(history).push(item)
        } else {
            system_items(history)
        },
{
    assert(history.push(item).drop_last() =~= history);
}

proof fn lemma_system_items_are_system(history: Seq<InputItem>)
    ensures
        forall|i: int|
            0 <= i < system_items(history).len() ==> #[trigger] system_items(history)[i] is System,
    decreases history.len(),
{
    if history.len() > 0 {
        lemma_system_items_are_system(history.drop_last());
    }
}

proof fn lemma_only_system_items(items: Seq<InputItem>)
    requires
        forall|i: int| 0 <= i < items.len() ==> #[trigger] items[i] is System,
    ensures
        system_items(items) == items,
        latest_user_item(items) is None,
    decreases items.len(),
{
    if items.len() > 0 {
        assert(items.last() is System);
        lemma_only_system_items(items.drop_last());
        assert(items.drop_last().push(items.last()) =~= items);
    }
}

/// The most recent user message is the one that no other user message follows.
pub proof fn latest_user_item_has_no_later_one(history: Seq<InputItem>, at: int)
    requires
        0 <= at < history.len(),
        history[at] is User,
        forall|i: int| at < i < history.len() ==> !(#[trigger] history[i] is User),
    ensures
        latest_user_item(history) == Some(history[at]),
    decreases history.len(),
{
    if at < history.len() - 1 {
        latest_user_item_has_no_later_one(history.drop_last(), at);
    }
}

/// Compaction leaves no assistant output and no tool output behind.
pub proof fn compaction_replaces_all_output(history: Seq<InputItem>, summary_content: String)
    ensures
        forall|i: int|
            0 <= i < compacted(history, summary_content).len() ==> {
                let item = #[trigger] compacted(history, summary_content)[i];
                item is System || item is User
            },
{
    lemma_system_items_are_system(history);
    lemma_latest_user_item_is_user(history);
}

proof fn lemma_latest_user_item_is_user(history: Seq<InputItem>)
    ensures
        latest_user_item(history) matches Some(request) ==> request is User,
    decreases history.len(),
{
    if history.len() > 0 {
        lemma_latest_user_item_is_user(history.drop_last());
    }
}

/// Compaction keeps the system instructions, all of them and in order.
pub proof fn compaction_keeps_system_instructions(
    history: Seq<InputItem>,
    summary_content: String,
)
    ensures
        system_items(compacted(history, summary_content)) == system_items(history),
{
    let systems = system_items(history);
    let summary = InputItem::User { content: summary_content };
    lemma_system_items_are_system(history);
    lemma_latest_user_item_is_user(history);
    lemma_only_system_items(systems);
    match latest_user_item(history) {
        Some(request) => {
            lemma_system_items_push(systems, request);
            lemma_system_items_push(systems.push(request), summary);
        },
        None => {
            lemma_system_items_push(systems, summary);
        },
    }
}

/// A history that is compacted again does not grow: the system instructions stay,
/// and the two last summaries are all that follows them.
pub proof fn compacting_again_keeps_the_two_last_summaries(
    history: Seq<InputItem>,
    first: String,
    second: String,
)
    ensures
        compacted(compacted(history, first), second) == system_items(history).push(
            InputItem::User { content: first },
        ).push(InputItem::User { content: second }),
{
    compaction_keeps_system_instructions(history, first);
    latest_user_item_has_no_later_one(
        compacted(history, first),
        compacted(history, first).len() - 1,
    );
}

} // verus!
