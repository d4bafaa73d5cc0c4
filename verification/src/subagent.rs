//! Subagent plans: how a spawn specification, a catalogue of roles and personas
//! and the parent's defaults become a child-agent configuration.
//!
//! A plan takes two answers of the resolution engine: the effective overrides
//! and the intersection of two capability modes. The functions here check the
//! specification, say what the engine is asked, and build the plan from what it
//! answers, whatever that is. They perform no I/O.

use crate::config::Effort;
use crate::text::{blank, same_text, trim, trimmed};
use vstd::prelude::*;

verus! {

/// Tool-access mode requested for a subagent.
#[derive(Debug, Clone, Copy, PartialEq, Eq)]
pub enum SubagentCapability {
    ReadOnly,
    ReadWrite,
    Execute,
    All,
}

/// Workspace isolation mode for a subagent.
#[derive(Debug, Clone, Copy, PartialEq, Eq)]
pub enum SubagentIsolation {
    /// Reuse the parent workspace. This does not create a Git worktree.
    Shared,
    /// Ask the host runner to allocate an isolated Git worktree.
    Worktree,
}

/// Named role preset used to resolve a child-agent execution plan.
///
/// `instructions` stays inline: an untrusted model response never chooses prompt
/// files on disk.
#[derive(Debug, Clone, PartialEq, Eq)]
pub struct SubagentRolePreset {
    pub name: String,
    pub description: String,
    pub model: Option<String>,
    pub reasoning_effort: Option<Effort>,
    pub capability_ceiling: Option<SubagentCapability>,
    pub isolation: Option<SubagentIsolation>,
    pub instructions: Option<String>,
}

/// Named persona preset applied after a role and before the parent defaults.
#[derive(Debug, Clone, PartialEq, Eq)]
pub struct SubagentPersonaPreset {
    pub name: String,
    pub model: Option<String>,
    pub reasoning_effort: Option<Effort>,
    pub isolation: Option<SubagentIsolation>,
    pub instructions: String,
}

/// Catalogue of roles and personas available to an agent run.
#[derive(Debug, Clone, PartialEq, Eq)]
pub struct SubagentCatalog {
    pub roles: Vec<SubagentRolePreset>,
    pub personas: Vec<SubagentPersonaPreset>,
    pub capability_ceiling: Option<SubagentCapability>,
}

impl Default for SubagentCatalog {
    fn default() -> (catalog: Self)
        ensures
            catalog.roles@ == Seq::<SubagentRolePreset>::empty(),
            catalog.personas@ == Seq::<SubagentPersonaPreset>::empty(),
            catalog.capability_ceiling is None,
    {
        SubagentCatalog { roles: Vec::new(), personas: Vec::new(), capability_ceiling: None }
    }
}

/// Defaults inherited from the parent agent and its selected model provider.
#[derive(Debug, Clone, PartialEq, Eq)]
pub struct SubagentParentDefaults {
    pub model: String,
    pub reasoning_effort: Option<Effort>,
}

/// A model-facing spawn specification. It does not execute a child; the host
/// owns scheduling, cancellation, persistence and permission prompts.
#[derive(Debug, Clone, PartialEq, Eq)]
pub struct SubagentSpec {
    pub role: Option<String>,
    pub persona: Option<String>,
    pub model: Option<String>,
    pub reasoning_effort: Option<Effort>,
    pub capability_mode: Option<SubagentCapability>,
    pub isolation: Option<SubagentIsolation>,
}

impl Default for SubagentSpec {
    fn default() -> (spec: Self)
        ensures
            spec == (SubagentSpec {
                role: None,
                persona: None,
                model: None,
                reasoning_effort: None,
                capability_mode: None,
                isolation: None,
            }),
    {
        SubagentSpec {
            role: None,
            persona: None,
            model: None,
            reasoning_effort: None,
            capability_mode: None,
            isolation: None,
        }
    }
}

/// Resolved, safe-to-schedule child-agent configuration.
#[derive(Debug, Clone, PartialEq, Eq)]
pub struct ResolvedSubagent {
    pub model: String,
    pub reasoning_effort: Option<Effort>,
    pub capability_mode: Option<SubagentCapability>,
    pub isolation: SubagentIsolation,
    pub role: Option<String>,
    pub persona: Option<String>,
    /// Prompt layers in role-then-persona order.
    pub instructions: String,
}

/// Validation failure for a subagent plan.
#[derive(Debug, Clone, PartialEq, Eq)]
pub struct SubagentResolutionError {
    message: String,
}

impl View for SubagentResolutionError {
    type V = Seq<char>;

    closed spec fn view(&self) -> Seq<char> {
        self.message@
    }
}

impl SubagentResolutionError {
    pub(crate) fn new(message: String) -> (error: Self)
        ensures
            error@ == message@,
    {
        SubagentResolutionError { message }
    }

    /// The message to show.
    pub fn to_string(&self) -> (message: String)
        ensures
            message@ == self@,
    {
        self.message.clone()
    }
}

/// The name of `effort`.
pub open spec fn effort_text(effort: Effort) -> Seq<char> {
    match effort {
        Effort::Off => "none"@,
        Effort::Minimal => "minimal"@,
        Effort::Low => "low"@,
        Effort::Medium => "medium"@,
        Effort::High => "high"@,
        Effort::Xhigh => "xhigh"@,
        Effort::Max => "max"@,
    }
}

/// The effort that `name` names, if it names one.
pub open spec fn named_effort(name: Seq<char>) -> Option<Effort> {
    if name == "none"@ {
        Some(Effort::Off)
    } else if name == "minimal"@ {
        Some(Effort::Minimal)
    } else if name == "low"@ {
        Some(Effort::Low)
    } else if name == "medium"@ {
        Some(Effort::Medium)
    } else if name == "high"@ {
        Some(Effort::High)
    } else if name == "xhigh"@ {
        Some(Effort::Xhigh)
    } else if name == "max"@ {
        Some(Effort::Max)
    } else {
        None
    }
}

/// The name of `capability`.
pub open spec fn capability_text(capability: SubagentCapability) -> Seq<char> {
    match capability {
        SubagentCapability::ReadOnly => "read-only"@,
        SubagentCapability::ReadWrite => "read-write"@,
        SubagentCapability::Execute => "execute"@,
        SubagentCapability::All => "all"@,
    }
}

/// The name of `isolation`.
pub open spec fn isolation_text(isolation: SubagentIsolation) -> Seq<char> {
    match isolation {
        SubagentIsolation::Shared => "none"@,
        SubagentIsolation::Worktree => "worktree"@,
    }
}

/// The name that the engine knows `effort` by.
pub fn effort_name(effort: Effort) -> (name: String)
    ensures
        name@ == effort_text(effort),
{
    match effort {
        Effort::Off => "none".to_owned(),
        Effort::Minimal => "minimal".to_owned(),
        Effort::Low => "low".to_owned(),
        Effort::Medium => "medium".to_owned(),
        Effort::High => "high".to_owned(),
        Effort::Xhigh => "xhigh".to_owned(),
        Effort::Max => "max".to_owned(),
    }
}

/// Reads an effort from its name.
pub fn parse_effort(value: &str) -> (effort: Option<Effort>)
    ensures
        effort == named_effort(value@),
{
    if same_text(value, "none") {
        Some(Effort::Off)
    } else if same_text(value, "minimal") {
        Some(Effort::Minimal)
    } else if same_text(value, "low") {
        Some(Effort::Low)
    } else if same_text(value, "medium") {
        Some(Effort::Medium)
    } else if same_text(value, "high") {
        Some(Effort::High)
    } else if same_text(value, "xhigh") {
        Some(Effort::Xhigh)
    } else if same_text(value, "max") {
        Some(Effort::Max)
    } else {
        None
    }
}

/// The name that the engine knows `capability` by.
pub fn capability_name(capability: SubagentCapability) -> (name: &'static str)
    ensures
        name@ == capability_text(capability),
{
    match capability {
        SubagentCapability::ReadOnly => "read-only",
        SubagentCapability::ReadWrite => "read-write",
        SubagentCapability::Execute => "execute",
        SubagentCapability::All => "all",
    }
}

/// The name that the engine knows `isolation` by.
pub fn isolation_name(isolation: SubagentIsolation) -> (name: &'static str)
    ensures
        name@ == isolation_text(isolation),
{
    match isolation {
        SubagentIsolation::Shared => "none",
        SubagentIsolation::Worktree => "worktree",
    }
}

/// Reading an effort's name gives that effort back, and nothing else reads as it.
pub proof fn effort_names_read_back(effort: Effort, name: Seq<char>)
    ensures
        named_effort(name) == Some(effort) <==> name == effort_text(effort),
{
    reveal_strlit("none");
    reveal_strlit("minimal");
    reveal_strlit("low");
    reveal_strlit("medium");
    reveal_strlit("high");
    reveal_strlit("xhigh");
    reveal_strlit("max");
    assert("none"@.len() == 4 && "high"@.len() == 4 && "none"@[0] != "high"@[0]);
    assert("low"@.len() == 3 && "max"@.len() == 3 && "low"@[0] != "max"@[0]);
    assert("minimal"@.len() == 7 && "medium"@.len() == 6 && "xhigh"@.len() == 5);
}

/// Distinct capabilities have distinct names, and so have distinct isolation modes.
pub proof fn mode_names_are_distinct(
    a: SubagentCapability,
    b: SubagentCapability,
    c: SubagentIsolation,
    d: SubagentIsolation,
)
    ensures
        capability_text(a) == capability_text(b) ==> a == b,
        isolation_text(c) == isolation_text(d) ==> c == d,
{
    reveal_strlit("read-only");
    reveal_strlit("read-write");
    reveal_strlit("execute");
    reveal_strlit("all");
    reveal_strlit("none");
    reveal_strlit("worktree");
    assert("read-only"@.len() == 9 && "read-write"@.len() == 10);
    assert("execute"@.len() == 7 && "all"@.len() == 3);
    assert("none"@.len() == 4 && "worktree"@.len() == 8);
}

/// `value` without the white space around it.
pub open spec fn trimmed_option(value: Option<String>) -> Option<Seq<char>> {
    match value {
        Some(text) => Some(trimmed(text@)),
        None => None,
    }
}

/// `value` is given and blank.
pub open spec fn given_blank(value: Option<String>) -> bool {
    value is Some && blank(value->0@)
}

/// What is said of a blank value, by the label of the value.
pub open spec fn blank_fault(label: Seq<char>) -> Seq<char> {
    label + " must not be empty"@
}

pub(crate) fn text_of(value: &Option<String>) -> (text: Option<&str>)
    ensures
        match *value {
            Some(s) => text is Some && text->0@ == s@,
            None => text is None,
        },
{
    match value {
        Some(s) => Some(s.as_str()),
        None => None,
    }
}

/// The trimmed `value`; a blank one is refused.
pub fn normalized_required(value: &str, label: &str) -> (res: Result<
    String,
    SubagentResolutionError,
>)
    ensures
        match res {
            Ok(name) => !blank(value@) && name@ == trimmed(value@),
            Err(error) => blank(value@) && error@ == blank_fault(label@),
        },
{
    let normalized = trim(value);
    if normalized.is_empty() {
        let mut message = label.to_owned();
        message.append(" must not be empty");
        return Err(SubagentResolutionError::new(message));
    }
    Ok(normalized.to_owned())
}

/// The trimmed `value`, if there is one; a blank one is refused.
pub fn normalized_optional(value: Option<&str>, label: &str) -> (res: Result<
    Option<String>,
    SubagentResolutionError,
>)
    ensures
        match res {
            Ok(Some(name)) => value is Some && !blank(value->0@) && name@ == trimmed(value->0@),
            Ok(None) => value is None,
            Err(error) => value is Some && blank(value->0@) && error@ == blank_fault(label@),
        },
{
    match value {
        None => Ok(None),
        Some(value) => match normalized_required(value, label) {
            Ok(name) => Ok(Some(name)),
            Err(error) => Err(error),
        },
    }
}

} // verus!
