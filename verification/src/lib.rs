//! In-process sampling facade for MyBuddy.
//!
//! The library validates a model configuration, says what a sampler is set up with
//! and what is submitted to it, maps what the sampler reports to product events,
//! compacts session histories and resolves subagent plans. It starts no process and
//! performs no I/O: the host talks to the engines and hands their answers in as
//! plain values.

pub mod catalog;
pub mod compaction;
pub mod config;
pub mod conversation;
pub mod event;
pub mod invariance;
pub mod laws;
pub mod outcome;
pub mod policy;
pub mod resolution;
pub mod sampler;
pub mod subagent;
pub mod text;

pub use catalog::{index_personas, index_roles};
pub use compaction::{compacted_history, compaction_request, CompactionError};
pub use config::{ConfigError, Effort, ModelConfig, Protocol};
pub use conversation::{
    conversation_request, AssistantItem, ConversationItem, ConversationRequest,
    ConversationToolChoice, InputItem, SamplingToolCall, Temperature, ToolCall, ToolChoice,
    ToolDefinition, ToolSpec, TurnRequest,
};
pub use event::{
    event_request_id, map_event, RuntimeEvent, SamplingChannel, SamplingEvent, SamplingFailure,
    SamplingResponse, SamplingUsage, TokenUsage, TurnHandle, TurnOutput, TurnStep,
};
pub use resolution::{
    capability_intersection, override_request, resolve_subagent, CapabilityIntersection,
    EffectiveOverrides, OverrideRequest, PersonaLayer, RoleLayer, SpawnOverrides,
};
pub use sampler::{
    sampler_config, ApiBackend, AuthScheme, EmbeddedSampler, OriginClientInfo, SamplerConfig,
    TurnSubmission, ANTHROPIC_VERSION,
};
pub use subagent::{
    capability_name, effort_name, isolation_name, normalized_optional, normalized_required,
    parse_effort, ResolvedSubagent, SubagentCapability, SubagentCatalog, SubagentIsolation,
    SubagentParentDefaults, SubagentPersonaPreset, SubagentResolutionError, SubagentRolePreset,
    SubagentSpec,
};
