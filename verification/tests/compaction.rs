use mybuddy_runtime::{
    compacted_history, compaction_request, conversation_request, CompactionError,
    ConversationToolChoice, InputItem, ToolChoice,
};

fn system(content: &str) -> InputItem {
    InputItem::System {
        content: content.into(),
    }
}

fn user(content: &str) -> InputItem {
    InputItem::User {
        content: content.into(),
    }
}

/// Compacts with an engine that takes what stands between the summary tags, and finds
/// less than a few sentences degenerate.
fn compact(history: &[InputItem], raw_summary: &str) -> Result<Vec<InputItem>, CompactionError> {
    let summary = raw_summary
        .split("<summary>")
        .nth(1)
        .and_then(|rest| rest.split("</summary>").next())
        .unwrap_or(raw_summary)
        .trim();
    let content = format!("This session is being continued.\n\nSummary:\n{summary}");
    compacted_history(history, summary.len() < 200, content)
}

#[test]
fn compaction_request_uses_the_grok_build_summary_prompt_without_tools() {
    let request = compaction_request(
        vec![
            InputItem::System {
                content: "You are MyBuddy".into(),
            },
            InputItem::User {
                content: "Implement the runtime".into(),
            },
        ],
        "Summarise:\n1. Primary Request and Intent".into(),
    )
    .expect("history can be compacted");

    assert!(request.tools.is_empty());
    assert_eq!(request.tool_choice, ToolChoice::Disabled);
    assert!(matches!(
        request.items.last(),
        Some(InputItem::User { content }) if content.contains("1. Primary Request and Intent")
    ));
    assert_eq!(request.items.len(), 3);
    assert_eq!(request.items[0], system("You are MyBuddy"));
    assert_eq!(request.items[1], user("Implement the runtime"));
    assert!(request.temperature.is_none());
    assert!(request.max_output_tokens.is_none());
}

#[test]
fn compacted_history_keeps_system_and_last_request_with_clean_summary() {
    let history = vec![
        InputItem::System {
            content: "You are MyBuddy".into(),
        },
        InputItem::User {
            content: "First request".into(),
        },
        InputItem::Assistant {
            content: "First response".into(),
            model: None,
            tool_calls: Vec::new(),
        },
        InputItem::User {
            content: "Continue with the second request".into(),
        },
        InputItem::ToolResult {
            call_id: "call-1".into(),
            content: "unbounded tool output".into(),
        },
    ];
    let raw_summary = format!(
        "<analysis>private scratchpad</analysis><summary>\n\
         1. Primary Request and Intent: complete MyBuddy.\n{}\n</summary>",
        "Details that must survive compaction. ".repeat(20)
    );

    let compacted = compact(&history, &raw_summary).expect("summary is sufficient");
    assert_eq!(compacted.len(), 3);
    assert!(matches!(
        &compacted[0],
        InputItem::System { content } if content == "You are MyBuddy"
    ));
    assert!(matches!(
        &compacted[1],
        InputItem::User { content } if content == "Continue with the second request"
    ));
    assert!(matches!(
        &compacted[2],
        InputItem::User { content }
            if content.contains("This session is being continued")
                && content.contains("Summary:\n1. Primary Request")
                && !content.contains("private scratchpad")
    ));
}

#[test]
fn compacted_history_rejects_a_degenerate_summary() {
    let history = vec![InputItem::User {
        content: "Keep the task".into(),
    }];
    assert!(compact(&history, "<summary>too short</summary>").is_err());
    assert_eq!(
        compacted_history(&history, true, "any content".into())
            .expect_err("the summary is degenerate")
            .to_string(),
        "compaction response was too short to preserve session context"
    );
}

#[test]
fn an_empty_history_cannot_be_compacted() {
    let error = compaction_request(Vec::new(), "prompt".into())
        .err()
        .expect("nothing to compact");
    assert_eq!(error.to_string(), "cannot compact an empty history");
}

#[test]
fn a_history_without_user_messages_keeps_its_instructions() {
    let history = vec![
        system("one"),
        InputItem::Assistant {
            content: "output".into(),
            model: None,
            tool_calls: Vec::new(),
        },
        system("two"),
    ];
    let compacted = compacted_history(&history, false, "summary".into()).expect("compacts");
    assert_eq!(compacted, vec![system("one"), system("two"), user("summary")]);
    let empty = compacted_history(&[], false, "summary".into()).expect("compacts");
    assert_eq!(empty, vec![user("summary")]);
}

#[test]
fn compacting_again_does_not_grow_the_history() {
    let history = vec![system("rules"), user("request")];
    let once = compacted_history(&history, false, "first".into()).expect("compacts");
    assert_eq!(once, vec![system("rules"), user("request"), user("first")]);
    let twice = compacted_history(&once, false, "second".into()).expect("compacts");
    assert_eq!(twice, vec![system("rules"), user("first"), user("second")]);
    let thrice = compacted_history(&twice, false, "third".into()).expect("compacts");
    assert_eq!(thrice, vec![system("rules"), user("second"), user("third")]);
}

#[test]
fn a_compaction_offers_no_tools_to_the_model() {
    let request = compaction_request(vec![user("request")], "prompt".into()).expect("compacts");
    let submitted = conversation_request(request);
    assert!(submitted.tools.is_empty());
    assert_eq!(submitted.tool_choice, Some(ConversationToolChoice::Disabled));
    assert_eq!(submitted.items.len(), 2);
}
