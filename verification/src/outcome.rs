//! What a spawn comes to, as one function of the spawn, the catalogue, the parent's
//! defaults and the engine.
//!
//! The engine is a pair of functions: what it answers to a question about overrides,
//! and what it makes of two capability modes. Nothing is said of either here.

use crate::catalog::{lemma_place_of, persona_named, place_of, preset_names};
use crate::config::Effort;
use crate::resolution::{
    capability_option_text, effort_option_text, isolation_option_text, joined_instructions,
    override_request_carries, persona_layer_carries, persona_layers_carry, plan_carries,
    plan_fault, role_instructions, selected_role, spawn_fault, EffectiveOverrides,
    OverrideRequest, PersonaLayer, RoleLayer,
};
use crate::subagent::{
    named_effort, trimmed_option, ResolvedSubagent, SubagentCapability, SubagentCatalog,
    SubagentIsolation, SubagentParentDefaults, SubagentPersonaPreset, SubagentRolePreset,
    SubagentSpec,
};
use crate::text::trimmed;
use vstd::prelude::*;

verus! {

/// What the engine is told of a role.
#[verifier::ext_equal]
pub struct RoleTold {
    pub description: Seq<char>,
    pub default_capability_mode: Option<Seq<char>>,
    pub model: Option<Seq<char>>,
    pub reasoning_effort: Option<Seq<char>>,
    pub default_isolation: Option<Seq<char>>,
}

/// What the engine is told of a persona, besides its name.
#[verifier::ext_equal]
pub struct PersonaTold {
    pub instructions: Seq<char>,
    pub model: Option<Seq<char>>,
    pub reasoning_effort: Option<Seq<char>>,
    pub default_isolation: Option<Seq<char>>,
}

/// What the engine is asked. It gets the personas by their names, in no order.
#[verifier::ext_equal]
pub struct OverrideQuestion {
    pub model: Option<Seq<char>>,
    pub reasoning_effort: Option<Seq<char>>,
    pub persona: Option<Seq<char>>,
    pub capability_mode: Option<SubagentCapability>,
    pub isolation: Option<SubagentIsolation>,
    pub role: Option<RoleTold>,
    pub role_name: Option<Seq<char>>,
    pub personas: Map<Seq<char>, PersonaTold>,
}

/// What the engine answers to an `OverrideQuestion`.
#[verifier::ext_equal]
pub struct OverrideAnswer {
    pub model: Option<Seq<char>>,
    pub reasoning_effort: Option<Seq<char>>,
    pub capability_mode: Option<SubagentCapability>,
    pub isolation: SubagentIsolation,
    pub role_name: Option<Seq<char>>,
    pub persona: Option<Seq<char>>,
    pub persona_instructions: Option<Seq<char>>,
    pub persona_error: Option<Seq<char>>,
}

/// What a `ResolvedSubagent` says.
#[verifier::ext_equal]
pub struct Plan {
    pub model: Seq<char>,
    pub reasoning_effort: Option<Effort>,
    pub capability_mode: Option<SubagentCapability>,
    pub isolation: SubagentIsolation,
    pub role: Option<Seq<char>>,
    pub persona: Option<Seq<char>>,
    pub instructions: Seq<char>,
}

/// What the engine is told of `role`.
pub open spec fn role_told(role: SubagentRolePreset) -> RoleTold {
    RoleTold {
        description: role.description@,
        default_capability_mode: capability_option_text(role.capability_ceiling),
        model: role.model.deep_view(),
        reasoning_effort: effort_option_text(role.reasoning_effort),
        default_isolation: isolation_option_text(role.isolation),
    }
}

/// What the engine is told of `persona`.
pub open spec fn persona_told(persona: SubagentPersonaPreset) -> PersonaTold {
    PersonaTold {
        instructions: persona.instructions@,
        model: persona.model.deep_view(),
        reasoning_effort: effort_option_text(persona.reasoning_effort),
        default_isolation: isolation_option_text(persona.isolation),
    }
}

/// What `layer` says.
pub open spec fn role_layer_told(layer: RoleLayer) -> RoleTold {
    RoleTold {
        description: layer.description@,
        default_capability_mode: layer.default_capability_mode.deep_view(),
        model: layer.model.deep_view(),
        reasoning_effort: layer.reasoning_effort.deep_view(),
        default_isolation: layer.default_isolation.deep_view(),
    }
}

/// What `layer` says, besides the name.
pub open spec fn persona_layer_told(layer: PersonaLayer) -> PersonaTold {
    PersonaTold {
        instructions: layer.instructions@,
        model: layer.model.deep_view(),
        reasoning_effort: layer.reasoning_effort.deep_view(),
        default_isolation: layer.default_isolation.deep_view(),
    }
}

/// The first of `layers` that goes by `name`.
pub open spec fn layer_named(layers: Seq<PersonaLayer>, name: Seq<char>) -> Option<PersonaLayer> {
    match place_of(layers.map_values(|layer: PersonaLayer| layer.name@), name) {
        Some(at) => Some(layers[at]),
        None => None,
    }
}

/// The question that `request` puts to the engine.
pub open spec fn question_of(request: OverrideRequest) -> OverrideQuestion {
    OverrideQuestion {
        model: request.overrides.model.deep_view(),
        reasoning_effort: request.overrides.reasoning_effort.deep_view(),
        persona: request.overrides.persona.deep_view(),
        capability_mode: request.overrides.capability_mode,
        isolation: request.overrides.isolation,
        role: match request.role {
            Some(layer) => Some(role_layer_told(layer)),
            None => None,
        },
        role_name: request.role_name.deep_view(),
        personas: Map::new(
            |name: Seq<char>| layer_named(request.personas@, name) is Some,
            |name: Seq<char>| persona_layer_told(layer_named(request.personas@, name)->0),
        ),
    }
}

/// The question that the engine is asked for `spec`.
pub open spec fn question_for(spec: SubagentSpec, catalog: SubagentCatalog) -> OverrideQuestion {
    OverrideQuestion {
        model: trimmed_option(spec.model),
        reasoning_effort: effort_option_text(spec.reasoning_effort),
        persona: trimmed_option(spec.persona),
        capability_mode: spec.capability_mode,
        isolation: spec.isolation,
        role: match selected_role(spec, catalog) {
            Some(role) => Some(role_told(role)),
            None => None,
        },
        role_name: trimmed_option(spec.role),
        personas: Map::new(
            |name: Seq<char>| persona_named(catalog.personas@, name) is Some,
            |name: Seq<char>| persona_told(persona_named(catalog.personas@, name)->0),
        ),
    }
}

/// What `effective` says.
pub open spec fn answer_of(effective: EffectiveOverrides) -> OverrideAnswer {
    OverrideAnswer {
        model: effective.model.deep_view(),
        reasoning_effort: effective.reasoning_effort.deep_view(),
        capability_mode: effective.capability_mode,
        isolation: effective.isolation,
        role_name: effective.role_name.deep_view(),
        persona: effective.persona.deep_view(),
        persona_instructions: effective.persona_instructions.deep_view(),
        persona_error: effective.persona_error.deep_view(),
    }
}

/// What `plan` says.
pub open spec fn plan_of(plan: ResolvedSubagent) -> Plan {
    Plan {
        model: plan.model@,
        reasoning_effort: plan.reasoning_effort,
        capability_mode: plan.capability_mode,
        isolation: plan.isolation,
        role: plan.role.deep_view(),
        persona: plan.persona.deep_view(),
        instructions: plan.instructions@,
    }
}

/// The plan for `spec`, given the engine's two answers.
pub open spec fn plan_for(
    spec: SubagentSpec,
    catalog: SubagentCatalog,
    parent: SubagentParentDefaults,
    answer: OverrideAnswer,
    capability_mode: Option<SubagentCapability>,
) -> Plan {
    Plan {
        model: match answer.model {
            Some(model) => model,
            None => trimmed(parent.model@),
        },
        reasoning_effort: match answer.reasoning_effort {
            Some(name) => match named_effort(name) {
                Some(effort) => Some(effort),
                None => parent.reasoning_effort,
            },
            None => parent.reasoning_effort,
        },
        capability_mode,
        isolation: answer.isolation,
        role: answer.role_name,
        persona: answer.persona,
        instructions: joined_instructions(
            role_instructions(spec, catalog),
            answer.persona_instructions,
        ),
    }
}

/// What a spawn comes to: a plan, or the message it is refused with. `answers` is what
/// the engine answers to a question, `intersects` what it makes of two modes.
pub open spec fn outcome(
    answers: spec_fn(OverrideQuestion) -> OverrideAnswer,
    intersects: spec_fn(Option<SubagentCapability>, Option<SubagentCapability>) -> Option<
        SubagentCapability,
    >,
    spec: SubagentSpec,
    catalog: SubagentCatalog,
    parent: SubagentParentDefaults,
) -> Result<Plan, Seq<char>> {
    match spawn_fault(spec, catalog, parent) {
        Some(fault) => Err(fault),
        None => {
            let answer = answers(question_for(spec, catalog));
            match answer.persona_error {
                Some(error) => Err(error),
                None => Ok(
                    plan_for(
                        spec,
                        catalog,
                        parent,
                        answer,
                        intersects(answer.capability_mode, catalog.capability_ceiling),
                    ),
                ),
            }
        },
    }
}

/// The layers hold a persona under a name exactly if the catalogue does, and say of it
/// what the engine is told.
pub(crate) proof fn lemma_layer_named(
    personas: Seq<SubagentPersonaPreset>,
    layers: Seq<PersonaLayer>,
    name: Seq<char>,
)
    requires
        persona_layers_carry(personas, layers),
    ensures
        match (persona_named(personas, name), layer_named(layers, name)) {
            (Some(persona), Some(layer)) => persona_layer_carries(persona, layer),
            (None, None) => true,
            _ => false,
        },
{
    let names = layers.map_values(|layer: PersonaLayer| layer.name@);
    assert forall|i: int| 0 <= i < names.len() implies #[trigger] names[i] == preset_names(
        personas,
    )[i] by {
        assert(persona_layer_carries(personas[i], layers[i]));
    }
    assert(names =~= preset_names(personas));
    lemma_place_of(names, name);
}

proof fn lemma_question(spec: SubagentSpec, catalog: SubagentCatalog, request: OverrideRequest)
    requires
        override_request_carries(spec, catalog, request),
    ensures
        question_of(request) == question_for(spec, catalog),
{
    let asked = question_of(request);
    let question = question_for(spec, catalog);
    assert forall|name: Seq<char>|
        match (
            persona_named(catalog.personas@, name),
            #[trigger] layer_named(request.personas@, name),
        ) {
            (Some(persona), Some(layer)) => persona_layer_carries(persona, layer),
            (None, None) => true,
            _ => false,
        } by {
        lemma_layer_named(catalog.personas@, request.personas@, name);
    }
    assert(asked.personas =~= question.personas);
    assert(asked =~= question);
}

/// Resolution in steps leads to the outcome: a spawn is refused with the message of
/// its fault, or else the engine is asked the request, its two answers are taken, and
/// the plan is made from them or refused. `requires` says of each step what its
/// contract says of it, and that the engine's answers are the engine's.
pub proof fn the_steps_lead_to_the_outcome(
    answers: spec_fn(OverrideQuestion) -> OverrideAnswer,
    intersects: spec_fn(Option<SubagentCapability>, Option<SubagentCapability>) -> Option<
        SubagentCapability,
    >,
    spec: SubagentSpec,
    catalog: SubagentCatalog,
    parent: SubagentParentDefaults,
    request: OverrideRequest,
    effective: EffectiveOverrides,
    capability_mode: Option<SubagentCapability>,
    plan: ResolvedSubagent,
)
    requires
        spawn_fault(spec, catalog, parent) is None ==> {
            &&& override_request_carries(spec, catalog, request)
            &&& answer_of(effective) == answers(question_of(request))
        },
        plan_fault(spec, catalog, parent, effective) is None ==> {
            &&& capability_mode == intersects(effective.capability_mode, catalog.capability_ceiling)
            &&& plan_carries(spec, catalog, parent, effective, capability_mode, plan)
        },
    ensures
        outcome(answers, intersects, spec, catalog, parent) == match plan_fault(
            spec,
            catalog,
            parent,
            effective,
        ) {
            Some(fault) => Err(fault),
            None => Ok(plan_of(plan)),
        },
{
    if spawn_fault(spec, catalog, parent) is None {
        lemma_question(spec, catalog, request);
    }
}

} // verus!
