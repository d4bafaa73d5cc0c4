//! Resolution of a subagent plan.
//!
//! `override_request` checks a spawn specification against the catalogue and says
//! what the resolution engine is asked; `capability_intersection` says which two
//! capability modes the engine is to intersect; `resolve_subagent` builds the plan
//! from the two answers.

use crate::catalog::{
    index_personas, index_roles, lemma_place_of, persona_named, personas_fault, position_of,
    preset_names, role_named, roles_fault,
};
use crate::config::Effort;
use crate::subagent::{
    blank_fault, capability_name, capability_text, effort_name, effort_text, given_blank,
    isolation_name, isolation_text, named_effort, normalized_optional, normalized_required,
    parse_effort, text_of, trimmed_option, ResolvedSubagent, SubagentCapability, SubagentCatalog,
    SubagentIsolation, SubagentParentDefaults, SubagentPersonaPreset, SubagentResolutionError,
    SubagentRolePreset, SubagentSpec,
};
use crate::text::{blank, trim, trimmed};
use vstd::prelude::*;

verus! {

/// What the spawn itself asks for.
#[derive(Debug, Clone, PartialEq, Eq)]
pub struct SpawnOverrides {
    pub model: Option<String>,
    pub reasoning_effort: Option<String>,
    pub persona: Option<String>,
    pub capability_mode: Option<SubagentCapability>,
    pub isolation: Option<SubagentIsolation>,
}

/// What the selected role asks for.
#[derive(Debug, Clone, PartialEq, Eq)]
pub struct RoleLayer {
    pub description: String,
    pub default_capability_mode: Option<String>,
    pub model: Option<String>,
    pub reasoning_effort: Option<String>,
    pub default_isolation: Option<String>,
}

/// What a persona asks for, by its name.
#[derive(Debug, Clone, PartialEq, Eq)]
pub struct PersonaLayer {
    pub name: String,
    pub instructions: String,
    pub model: Option<String>,
    pub reasoning_effort: Option<String>,
    pub default_isolation: Option<String>,
}

/// What the engine is asked to lay over each other.
#[derive(Debug, Clone, PartialEq, Eq)]
pub struct OverrideRequest {
    pub overrides: SpawnOverrides,
    pub role: Option<RoleLayer>,
    pub role_name: Option<String>,
    pub personas: Vec<PersonaLayer>,
}

/// What the engine answers to an `OverrideRequest`.
#[derive(Debug, Clone, PartialEq, Eq)]
pub struct EffectiveOverrides {
    pub model: Option<String>,
    pub reasoning_effort: Option<String>,
    pub capability_mode: Option<SubagentCapability>,
    pub isolation: SubagentIsolation,
    pub role_name: Option<String>,
    pub persona: Option<String>,
    pub persona_instructions: Option<String>,
    pub persona_error: Option<String>,
}

/// The two capability modes that the engine is asked to intersect.
#[derive(Debug, Clone, Copy, PartialEq, Eq)]
pub struct CapabilityIntersection {
    pub resolved: Option<SubagentCapability>,
    pub ceiling: Option<SubagentCapability>,
}

/// The role that `spec` selects from the catalogue.
pub open spec fn selected_role(spec: SubagentSpec, catalog: SubagentCatalog) -> Option<
    SubagentRolePreset,
> {
    match trimmed_option(spec.role) {
        Some(name) => role_named(catalog.roles@, name),
        None => None,
    }
}

/// The persona that `spec` selects from the catalogue.
pub open spec fn selected_persona(spec: SubagentSpec, catalog: SubagentCatalog) -> Option<
    SubagentPersonaPreset,
> {
    match trimmed_option(spec.persona) {
        Some(name) => persona_named(catalog.personas@, name),
        None => None,
    }
}

/// Why a spawn is refused before the engine is asked anything; `None` if it is
/// not. The first of several reasons counts.
pub open spec fn spawn_fault(
    spec: SubagentSpec,
    catalog: SubagentCatalog,
    parent: SubagentParentDefaults,
) -> Option<Seq<char>> {
    if blank(parent.model@) {
        Some(blank_fault("parent model"@))
    } else if roles_fault(catalog.roles@) is Some {
        roles_fault(catalog.roles@)
    } else if personas_fault(catalog.personas@) is Some {
        personas_fault(catalog.personas@)
    } else if given_blank(spec.role) {
        Some(blank_fault("role"@))
    } else if given_blank(spec.persona) {
        Some(blank_fault("persona"@))
    } else if spec.role is Some && selected_role(spec, catalog) is None {
        Some("unknown subagent role: "@ + trimmed(spec.role->0@))
    } else if spec.persona is Some && selected_persona(spec, catalog) is None {
        Some("unknown subagent persona: "@ + trimmed(spec.persona->0@))
    } else if given_blank(spec.model) {
        Some(blank_fault("subagent model"@))
    } else {
        None
    }
}

/// The name of an effort, if there is one.
pub open spec fn effort_option_text(effort: Option<Effort>) -> Option<Seq<char>> {
    match effort {
        Some(effort) => Some(effort_text(effort)),
        None => None,
    }
}

/// The name of an isolation mode, if there is one.
pub open spec fn isolation_option_text(isolation: Option<SubagentIsolation>) -> Option<Seq<char>> {
    match isolation {
        Some(isolation) => Some(isolation_text(isolation)),
        None => None,
    }
}

/// The name of a capability, if there is one.
pub open spec fn capability_option_text(capability: Option<SubagentCapability>) -> Option<
    Seq<char>,
> {
    match capability {
        Some(capability) => Some(capability_text(capability)),
        None => None,
    }
}

/// `layer` says of the role what the engine is told of it: everything but its
/// instructions.
pub open spec fn role_layer_carries(role: SubagentRolePreset, layer: RoleLayer) -> bool {
    &&& layer.description@ == role.description@
    &&& layer.default_capability_mode.deep_view() == capability_option_text(role.capability_ceiling)
    &&& layer.model.deep_view() == role.model.deep_view()
    &&& layer.reasoning_effort.deep_view() == effort_option_text(role.reasoning_effort)
    &&& layer.default_isolation.deep_view() == isolation_option_text(role.isolation)
}

/// `layer` says of the persona what the engine is told of it.
pub open spec fn persona_layer_carries(
    persona: SubagentPersonaPreset,
    layer: PersonaLayer,
) -> bool {
    &&& layer.name@ == trimmed(persona.name@)
    &&& layer.instructions@ == persona.instructions@
    &&& layer.model.deep_view() == persona.model.deep_view()
    &&& layer.reasoning_effort.deep_view() == effort_option_text(persona.reasoning_effort)
    &&& layer.default_isolation.deep_view() == isolation_option_text(persona.isolation)
}

/// `layers` holds what the engine is told of each persona, in catalogue order.
pub open spec fn persona_layers_carry(
    personas: Seq<SubagentPersonaPreset>,
    layers: Seq<PersonaLayer>,
) -> bool {
    &&& layers.len() == personas.len()
    &&& forall|i: int|
        0 <= i < layers.len() ==> persona_layer_carries(personas[i], #[trigger] layers[i])
}

/// `request` is what the engine is asked for `spec`.
pub open spec fn override_request_carries(
    spec: SubagentSpec,
    catalog: SubagentCatalog,
    request: OverrideRequest,
) -> bool {
    &&& request.overrides.model.deep_view() == trimmed_option(spec.model)
    &&& request.overrides.reasoning_effort.deep_view() == effort_option_text(spec.reasoning_effort)
    &&& request.overrides.persona.deep_view() == trimmed_option(spec.persona)
    &&& request.overrides.capability_mode == spec.capability_mode
    &&& request.overrides.isolation == spec.isolation
    &&& match (selected_role(spec, catalog), request.role) {
        (Some(role), Some(layer)) => role_layer_carries(role, layer),
        (None, None) => true,
        _ => false,
    }
    &&& request.role_name.deep_view() == trimmed_option(spec.role)
    &&& persona_layers_carry(catalog.personas@, request.personas@)
}

/// A spawn that passed its checks: the trimmed names, and where the role stands in
/// the catalogue.
struct CheckedSpawn {
    parent_model: String,
    role_name: Option<String>,
    role_at: Option<usize>,
    persona_name: Option<String>,
    persona_names: Vec<String>,
    model: Option<String>,
}

/// `checked` is what the checks found of the spawn.
spec fn checked_spawn_carries(
    spec: SubagentSpec,
    catalog: SubagentCatalog,
    parent: SubagentParentDefaults,
    checked: CheckedSpawn,
) -> bool {
    &&& checked.parent_model@ == trimmed(parent.model@)
    &&& checked.role_name.deep_view() == trimmed_option(spec.role)
    &&& checked.persona_name.deep_view() == trimmed_option(spec.persona)
    &&& checked.model.deep_view() == trimmed_option(spec.model)
    &&& match checked.role_at {
        Some(at) => at < catalog.roles@.len() && selected_role(spec, catalog) == Some(
            catalog.roles@[at as int],
        ),
        None => selected_role(spec, catalog) is None,
    }
    &&& checked.persona_names.deep_view() == preset_names(catalog.personas@)
}

fn check_spawn(
    spec: &SubagentSpec,
    catalog: &SubagentCatalog,
    parent: &SubagentParentDefaults,
) -> (res: Result<CheckedSpawn, SubagentResolutionError>)
    ensures
        match res {
            Ok(checked) => {
                &&& spawn_fault(*spec, *catalog, *parent) is None
                &&& checked_spawn_carries(*spec, *catalog, *parent, checked)
            },
            Err(error) => spawn_fault(*spec, *catalog, *parent) == Some(error@),
        },
{
    let parent_model = normalized_required(parent.model.as_str(), "parent model")?;
    let role_names = index_roles(catalog)?;
    let persona_names = index_personas(catalog)?;
    let role_name = normalized_optional(text_of(&spec.role), "role")?;
    let persona_name = normalized_optional(text_of(&spec.persona), "persona")?;
    let role_at = match &role_name {
        Some(name) => match position_of(&role_names, name.as_str()) {
            Some(at) => {
                proof {
                    lemma_place_of(preset_names(catalog.roles@), name@);
                }
                Some(at)
            },
            None => {
                let mut message = "unknown subagent role: ".to_owned();
                message.append(name.as_str());
                return Err(SubagentResolutionError::new(message));
            },
        },
        None => None,
    };
    if let Some(name) = &persona_name {
        if position_of(&persona_names, name.as_str()).is_none() {
            let mut message = "unknown subagent persona: ".to_owned();
            message.append(name.as_str());
            return Err(SubagentResolutionError::new(message));
        }
    }
    let model = normalized_optional(text_of(&spec.model), "subagent model")?;
    Ok(CheckedSpawn { parent_model, role_name, role_at, persona_name, persona_names, model })
}

fn effort_option_name(effort: Option<Effort>) -> (name: Option<String>)
    ensures
        name.deep_view() == effort_option_text(effort),
{
    match effort {
        Some(effort) => Some(effort_name(effort)),
        None => None,
    }
}

fn isolation_option_name(isolation: Option<SubagentIsolation>) -> (name: Option<String>)
    ensures
        name.deep_view() == isolation_option_text(isolation),
{
    match isolation {
        Some(isolation) => Some(isolation_name(isolation).to_owned()),
        None => None,
    }
}

fn capability_option_name(capability: Option<SubagentCapability>) -> (name: Option<String>)
    ensures
        name.deep_view() == capability_option_text(capability),
{
    match capability {
        Some(capability) => Some(capability_name(capability).to_owned()),
        None => None,
    }
}

fn role_layer(role: &SubagentRolePreset) -> (layer: RoleLayer)
    ensures
        role_layer_carries(*role, layer),
{
    RoleLayer {
        description: role.description.clone(),
        default_capability_mode: capability_option_name(role.capability_ceiling),
        model: role.model.clone(),
        reasoning_effort: effort_option_name(role.reasoning_effort),
        default_isolation: isolation_option_name(role.isolation),
    }
}

fn persona_layers(personas: &Vec<SubagentPersonaPreset>, names: Vec<String>) -> (layers: Vec<
    PersonaLayer,
>)
    requires
        names.deep_view() == preset_names(personas@),
    ensures
        persona_layers_carry(personas@, layers@),
{
    let mut layers: Vec<PersonaLayer> = Vec::new();
    let len: usize = personas.len();
    let mut at: usize = 0;
    while at < len
        invariant
            len == personas@.len(),
            at <= len,
            names.deep_view() == preset_names(personas@),
            layers@.len() == at,
            forall|i: int|
                0 <= i < at ==> persona_layer_carries(personas@[i], #[trigger] layers@[i]),
        decreases len - at,
    {
        let persona = &personas[at];
        assert(names.deep_view().len() == len);
        assert(names.deep_view()[at as int] == trimmed(persona.name@));
        layers.push(
            PersonaLayer {
                name: names[at].clone(),
                instructions: persona.instructions.clone(),
                model: persona.model.clone(),
                reasoning_effort: effort_option_name(persona.reasoning_effort),
                default_isolation: isolation_option_name(persona.isolation),
            },
        );
        at = at + 1;
    }
    layers
}

/// Checks a spawn specification and says what the engine is asked for it.
///
/// Names are read without the white space around them. A spawn that names a role
/// or a persona that the catalogue does not hold, a catalogue whose presets cannot
/// be told apart, and blank values are refused.
pub fn override_request(
    spec: &SubagentSpec,
    catalog: &SubagentCatalog,
    parent: &SubagentParentDefaults,
) -> (res: Result<OverrideRequest, SubagentResolutionError>)
    ensures
        match res {
            Ok(request) => {
                &&& spawn_fault(*spec, *catalog, *parent) is None
                &&& override_request_carries(*spec, *catalog, request)
            },
            Err(error) => spawn_fault(*spec, *catalog, *parent) == Some(error@),
        },
{
    let checked = check_spawn(spec, catalog, parent)?;
    let role = match checked.role_at {
        Some(at) => Some(role_layer(&catalog.roles[at])),
        None => None,
    };
    Ok(
        OverrideRequest {
            overrides: SpawnOverrides {
                model: checked.model,
                reasoning_effort: effort_option_name(spec.reasoning_effort),
                persona: checked.persona_name,
                capability_mode: spec.capability_mode,
                isolation: spec.isolation,
            },
            role,
            role_name: checked.role_name,
            personas: persona_layers(&catalog.personas, checked.persona_names),
        },
    )
}

/// Says which two capability modes the engine is asked to intersect: the one it
/// resolved and the catalogue's ceiling. A persona that the engine refused is
/// refused here, with the engine's words.
pub fn capability_intersection(catalog: &SubagentCatalog, effective: &EffectiveOverrides) -> (res:
    Result<CapabilityIntersection, SubagentResolutionError>)
    ensures
        match res {
            Ok(asked) => {
                &&& effective.persona_error is None
                &&& asked.resolved == effective.capability_mode
                &&& asked.ceiling == catalog.capability_ceiling
            },
            Err(error) => effective.persona_error.deep_view() == Some(error@),
        },
{
    match &effective.persona_error {
        Some(error) => Err(SubagentResolutionError::new(error.clone())),
        None => Ok(
            CapabilityIntersection {
                resolved: effective.capability_mode,
                ceiling: catalog.capability_ceiling,
            },
        ),
    }
}

/// A layer of instructions: trimmed, and empty if it is not given.
pub open spec fn instruction_layer(instructions: Option<Seq<char>>) -> Seq<char> {
    match instructions {
        Some(text) => trimmed(text),
        None => Seq::empty(),
    }
}

/// Two layers of instructions, with an empty line between them. A layer that is
/// empty leaves no trace.
pub open spec fn joined_instructions(role: Option<Seq<char>>, persona: Option<Seq<char>>) -> Seq<
    char,
> {
    let first = instruction_layer(role);
    let second = instruction_layer(persona);
    if first.len() > 0 && second.len() > 0 {
        first + "\n\n"@ + second
    } else {
        first + second
    }
}

/// The instructions of the role that `spec` selects.
pub open spec fn role_instructions(spec: SubagentSpec, catalog: SubagentCatalog) -> Option<
    Seq<char>,
> {
    match selected_role(spec, catalog) {
        Some(role) => role.instructions.deep_view(),
        None => None,
    }
}

/// The effort of a plan: the one that the engine's answer names, else the parent's.
pub open spec fn planned_effort(
    effective: EffectiveOverrides,
    parent: SubagentParentDefaults,
) -> Option<Effort> {
    match effective.reasoning_effort {
        Some(name) => match named_effort(name@) {
            Some(effort) => Some(effort),
            None => parent.reasoning_effort,
        },
        None => parent.reasoning_effort,
    }
}

/// `plan` is the plan for `spec`, given the engine's two answers.
pub open spec fn plan_carries(
    spec: SubagentSpec,
    catalog: SubagentCatalog,
    parent: SubagentParentDefaults,
    effective: EffectiveOverrides,
    capability_mode: Option<SubagentCapability>,
    plan: ResolvedSubagent,
) -> bool {
    &&& plan.model@ == match effective.model {
        Some(model) => model@,
        None => trimmed(parent.model@),
    }
    &&& plan.reasoning_effort == planned_effort(effective, parent)
    &&& plan.capability_mode == capability_mode
    &&& plan.isolation == effective.isolation
    &&& plan.role.deep_view() == effective.role_name.deep_view()
    &&& plan.persona.deep_view() == effective.persona.deep_view()
    &&& plan.instructions@ == joined_instructions(
        role_instructions(spec, catalog),
        effective.persona_instructions.deep_view(),
    )
}

/// Why no plan is made: a fault in the spawn, else the engine's refusal of the
/// persona; `None` if a plan is made.
pub open spec fn plan_fault(
    spec: SubagentSpec,
    catalog: SubagentCatalog,
    parent: SubagentParentDefaults,
    effective: EffectiveOverrides,
) -> Option<Seq<char>> {
    match spawn_fault(spec, catalog, parent) {
        Some(fault) => Some(fault),
        None => effective.persona_error.deep_view(),
    }
}

fn join_instructions(role: Option<&str>, persona: Option<&str>) -> (text: String)
    ensures
        text@ == joined_instructions(
            match role {
                Some(s) => Some(s@),
                None => None,
            },
            match persona {
                Some(s) => Some(s@),
                None => None,
            },
        ),
{
    let first = match role {
        Some(s) => trim(s),
        None => "",
    };
    let second = match persona {
        Some(s) => trim(s),
        None => "",
    };
    proof {
        reveal_strlit("");
        assert(""@ =~= Seq::<char>::empty());
    }
    let mut text = first.to_owned();
    if !first.is_empty() && !second.is_empty() {
        text.append("\n\n");
    }
    text.append(second);
    text
}

/// Builds the plan for a spawn from the engine's two answers: `effective`, its
/// answer to `override_request`, and `capability_mode`, its answer to
/// `capability_intersection`.
///
/// The engine lays the explicit spawn fields over the role and the role over the
/// persona; the parent's defaults fill what is still open.
pub fn resolve_subagent(
    spec: &SubagentSpec,
    catalog: &SubagentCatalog,
    parent: &SubagentParentDefaults,
    effective: EffectiveOverrides,
    capability_mode: Option<SubagentCapability>,
) -> (res: Result<ResolvedSubagent, SubagentResolutionError>)
    ensures
        match res {
            Ok(plan) => {
                &&& plan_fault(*spec, *catalog, *parent, effective) is None
                &&& plan_carries(*spec, *catalog, *parent, effective, capability_mode, plan)
            },
            Err(error) => plan_fault(*spec, *catalog, *parent, effective) == Some(error@),
        },
{
    let checked = check_spawn(spec, catalog, parent)?;
    if let Some(error) = effective.persona_error {
        return Err(SubagentResolutionError::new(error));
    }
    let role_text = match checked.role_at {
        Some(at) => text_of(&catalog.roles[at].instructions),
        None => None,
    };
    let instructions = join_instructions(role_text, text_of(&effective.persona_instructions));
    let reasoning_effort = match &effective.reasoning_effort {
        Some(name) => match parse_effort(name.as_str()) {
            Some(effort) => Some(effort),
            None => parent.reasoning_effort,
        },
        None => parent.reasoning_effort,
    };
    Ok(
        ResolvedSubagent {
            model: match effective.model {
                Some(model) => model,
                None => checked.parent_model,
            },
            reasoning_effort,
            capability_mode,
            isolation: effective.isolation,
            role: effective.role_name,
            persona: effective.persona,
            instructions,
        },
    )
}

} // verus!
