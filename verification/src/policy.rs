//! What a plan owes to policy: the precedence of its sources, and the ceilings
//! on its capability.
//!
//! The laws take the engine's answers as parameters and say in `requires` what
//! they rely on the engine for.

use crate::catalog::{
    accepted_personas_are_unambiguous, accepted_roles_are_unambiguous, persona_named_is_the_first,
    role_named_is_the_first,
};
use crate::config::Effort;
use crate::outcome::{
    layer_named, lemma_layer_named, outcome, plan_of, OverrideAnswer, OverrideQuestion, Plan,
};
use crate::resolution::{
    isolation_option_text, joined_instructions, override_request_carries, plan_carries, plan_fault,
    role_instructions, selected_persona, selected_role, spawn_fault, CapabilityIntersection,
    EffectiveOverrides, OverrideRequest, PersonaLayer,
};
use crate::subagent::{
    capability_text, effort_names_read_back, effort_text, isolation_text, mode_names_are_distinct,
    named_effort, trimmed_option, ResolvedSubagent, SubagentCapability, SubagentCatalog,
    SubagentIsolation, SubagentParentDefaults, SubagentSpec,
};
use crate::text::trimmed;
use vstd::prelude::*;

verus! {

/// `first` if it is given, else `second`.
pub open spec fn first_given<T>(first: Option<T>, second: Option<T>) -> Option<T> {
    if first is Some {
        first
    } else {
        second
    }
}

/// The persona that `request` selects from those it holds.
pub open spec fn asked_persona(request: OverrideRequest) -> Option<PersonaLayer> {
    match request.overrides.persona {
        Some(name) => layer_named(request.personas@, name@),
        None => None,
    }
}

/// The engine's answer lays the spawn's fields over the role and the role over the
/// persona, for the model and for the effort.
pub open spec fn follows_precedence(
    request: OverrideRequest,
    effective: EffectiveOverrides,
) -> bool {
    &&& effective.model.deep_view() == first_given(
        request.overrides.model.deep_view(),
        first_given(
            match request.role {
                Some(role) => role.model.deep_view(),
                None => None,
            },
            match asked_persona(request) {
                Some(persona) => persona.model.deep_view(),
                None => None,
            },
        ),
    )
    &&& effective.reasoning_effort.deep_view() == first_given(
        request.overrides.reasoning_effort.deep_view(),
        first_given(
            match request.role {
                Some(role) => role.reasoning_effort.deep_view(),
                None => None,
            },
            match asked_persona(request) {
                Some(persona) => persona.reasoning_effort.deep_view(),
                None => None,
            },
        ),
    )
}

/// The model of a plan is the spawn's, else the role's, else the persona's, else
/// the parent's, and so is its effort, provided that the engine lays the first
/// three over each other in that order.
pub proof fn spawn_over_role_over_persona_over_parent(
    spec: SubagentSpec,
    catalog: SubagentCatalog,
    parent: SubagentParentDefaults,
    request: OverrideRequest,
    effective: EffectiveOverrides,
    capability_mode: Option<SubagentCapability>,
    plan: ResolvedSubagent,
)
    requires
        override_request_carries(spec, catalog, request),
        follows_precedence(request, effective),
        plan_carries(spec, catalog, parent, effective, capability_mode, plan),
    ensures
        Some(plan.model@) == first_given(
            trimmed_option(spec.model),
            first_given(
                match selected_role(spec, catalog) {
                    Some(role) => role.model.deep_view(),
                    None => None,
                },
                first_given(
                    match selected_persona(spec, catalog) {
                        Some(persona) => persona.model.deep_view(),
                        None => None,
                    },
                    Some(trimmed(parent.model@)),
                ),
            ),
        ),
        plan.reasoning_effort == first_given(
            spec.reasoning_effort,
            first_given(
                match selected_role(spec, catalog) {
                    Some(role) => role.reasoning_effort,
                    None => None,
                },
                first_given(
                    match selected_persona(spec, catalog) {
                        Some(persona) => persona.reasoning_effort,
                        None => None,
                    },
                    parent.reasoning_effort,
                ),
            ),
        ),
{
    if let Some(name) = request.overrides.persona {
        lemma_layer_named(catalog.personas@, request.personas@, name@);
    }
    assert forall|effort: Effort, name: Seq<char>|
        #![trigger named_effort(name), effort_text(effort)]
        named_effort(name) == Some(effort) <==> name == effort_text(effort) by {
        effort_names_read_back(effort, name);
    }
}

/// The engine's answer lays the spawn's isolation over the role's and the role's over
/// the persona's, and shares the workspace where none is given.
pub open spec fn follows_isolation_precedence(
    request: OverrideRequest,
    effective: EffectiveOverrides,
) -> bool {
    Some(isolation_text(effective.isolation)) == first_given(
        isolation_option_text(request.overrides.isolation),
        first_given(
            match request.role {
                Some(role) => role.default_isolation.deep_view(),
                None => None,
            },
            first_given(
                match asked_persona(request) {
                    Some(persona) => persona.default_isolation.deep_view(),
                    None => None,
                },
                Some(isolation_text(SubagentIsolation::Shared)),
            ),
        ),
    )
}

/// The isolation of a plan is the spawn's, else the role's, else the persona's, else
/// the shared workspace, provided that the engine lays them over each other in that
/// order.
pub proof fn isolation_is_shared_unless_it_is_asked_for(
    spec: SubagentSpec,
    catalog: SubagentCatalog,
    parent: SubagentParentDefaults,
    request: OverrideRequest,
    effective: EffectiveOverrides,
    capability_mode: Option<SubagentCapability>,
    plan: ResolvedSubagent,
)
    requires
        override_request_carries(spec, catalog, request),
        follows_isolation_precedence(request, effective),
        plan_carries(spec, catalog, parent, effective, capability_mode, plan),
    ensures
        Some(plan.isolation) == first_given(
            spec.isolation,
            first_given(
                match selected_role(spec, catalog) {
                    Some(role) => role.isolation,
                    None => None,
                },
                first_given(
                    match selected_persona(spec, catalog) {
                        Some(persona) => persona.isolation,
                        None => None,
                    },
                    Some(SubagentIsolation::Shared),
                ),
            ),
        ),
{
    if let Some(name) = request.overrides.persona {
        lemma_layer_named(catalog.personas@, request.personas@, name@);
    }
    mode_names_are_distinct(
        SubagentCapability::All,
        SubagentCapability::All,
        SubagentIsolation::Shared,
        SubagentIsolation::Worktree,
    );
}

/// The instructions of a plan are the role's, then the persona's, provided that the
/// engine gives back the instructions of the persona it was asked for.
pub proof fn role_instructions_precede_the_personas(
    spec: SubagentSpec,
    catalog: SubagentCatalog,
    parent: SubagentParentDefaults,
    request: OverrideRequest,
    effective: EffectiveOverrides,
    capability_mode: Option<SubagentCapability>,
    plan: ResolvedSubagent,
)
    requires
        override_request_carries(spec, catalog, request),
        effective.persona_instructions.deep_view() == match asked_persona(request) {
            Some(persona) => Some(persona.instructions@),
            None => None,
        },
        plan_carries(spec, catalog, parent, effective, capability_mode, plan),
    ensures
        plan.instructions@ == joined_instructions(
            role_instructions(spec, catalog),
            match selected_persona(spec, catalog) {
                Some(persona) => Some(persona.instructions@),
                None => None,
            },
        ),
{
    if let Some(name) = request.overrides.persona {
        lemma_layer_named(catalog.personas@, request.personas@, name@);
    }
}

/// A plan's capability stays within what the engine resolved, within what the spawn
/// asked for, within the role's ceiling and within the catalogue's ceiling, in any
/// sense of `within` that is transitive, provided that in that sense the engine
/// resolves to something within the spawn's mode and the role's ceiling, and
/// intersects to something within both modes it is given. The catalogue's ceiling
/// can so only reduce access and never grant it.
pub proof fn no_spawn_escalates(
    within: spec_fn(Option<SubagentCapability>, Option<SubagentCapability>) -> bool,
    spec: SubagentSpec,
    catalog: SubagentCatalog,
    parent: SubagentParentDefaults,
    request: OverrideRequest,
    effective: EffectiveOverrides,
    asked: CapabilityIntersection,
    capability_mode: Option<SubagentCapability>,
    plan: ResolvedSubagent,
)
    requires
        forall|
            a: Option<SubagentCapability>,
            b: Option<SubagentCapability>,
            c: Option<SubagentCapability>,
        | #[trigger] within(a, b) && #[trigger] within(b, c) ==> within(a, c),
        override_request_carries(spec, catalog, request),
        within(effective.capability_mode, request.overrides.capability_mode),
        forall|ceiling: SubagentCapability|
            request.role is Some && request.role->0.default_capability_mode.deep_view() == Some(
                #[trigger] capability_text(ceiling),
            ) ==> within(effective.capability_mode, Some(ceiling)),
        asked.resolved == effective.capability_mode,
        asked.ceiling == catalog.capability_ceiling,
        within(capability_mode, asked.resolved),
        within(capability_mode, asked.ceiling),
        plan_carries(spec, catalog, parent, effective, capability_mode, plan),
    ensures
        within(plan.capability_mode, effective.capability_mode),
        within(plan.capability_mode, spec.capability_mode),
        within(plan.capability_mode, catalog.capability_ceiling),
        selected_role(spec, catalog) matches Some(role) ==> (role.capability_ceiling is Some
            ==> within(plan.capability_mode, role.capability_ceiling)),
{
    if let Some(role) = selected_role(spec, catalog) {
        if let Some(ceiling) = role.capability_ceiling {
            assert(request.role->0.default_capability_mode.deep_view() == Some(
                capability_text(ceiling),
            ));
        }
    }
}

/// Two catalogues that differ in their ceilings alone refuse the same spawns for the
/// same reasons and have the engine asked the same. From one answer to that, the two
/// plans are the same but for the capability.
pub proof fn a_ceiling_changes_nothing_but_the_capability(
    spec: SubagentSpec,
    a: SubagentCatalog,
    b: SubagentCatalog,
    parent: SubagentParentDefaults,
    request: OverrideRequest,
    effective: EffectiveOverrides,
    a_mode: Option<SubagentCapability>,
    b_mode: Option<SubagentCapability>,
    a_plan: ResolvedSubagent,
    b_plan: ResolvedSubagent,
)
    requires
        a.roles@ == b.roles@,
        a.personas@ == b.personas@,
    ensures
        spawn_fault(spec, a, parent) == spawn_fault(spec, b, parent),
        override_request_carries(spec, a, request) <==> override_request_carries(spec, b, request),
        plan_fault(spec, a, parent, effective) == plan_fault(spec, b, parent, effective),
        plan_carries(spec, a, parent, effective, a_mode, a_plan) && plan_carries(
            spec,
            b,
            parent,
            effective,
            b_mode,
            b_plan,
        ) ==> plan_of(b_plan) == (Plan { capability_mode: b_mode, ..plan_of(a_plan) }),
{
}

/// A ceiling only reduces: a spawn that a catalogue without a ceiling resolves is
/// resolved under every ceiling, to the same plan but for the capability. A mode that
/// the spawn resolved to becomes one that is within it and within the ceiling. It is
/// refused, where it is, with the same message. The engine is relied on for its
/// intersections: with no ceiling the mode stays, and otherwise the result is a mode
/// within both.
pub proof fn a_ceiling_only_reduces_the_capability(
    within: spec_fn(SubagentCapability, SubagentCapability) -> bool,
    answers: spec_fn(OverrideQuestion) -> OverrideAnswer,
    intersects: spec_fn(Option<SubagentCapability>, Option<SubagentCapability>) -> Option<
        SubagentCapability,
    >,
    spec: SubagentSpec,
    uncapped: SubagentCatalog,
    capped: SubagentCatalog,
    ceiling: SubagentCapability,
    parent: SubagentParentDefaults,
)
    requires
        uncapped.roles@ == capped.roles@,
        uncapped.personas@ == capped.personas@,
        uncapped.capability_ceiling is None,
        capped.capability_ceiling == Some(ceiling),
        forall|mode: Option<SubagentCapability>| #[trigger] intersects(mode, None) == mode,
        forall|a: SubagentCapability, b: SubagentCapability|
            #[trigger] intersects(Some(a), Some(b)) matches Some(mode) && within(mode, a) && within(
                mode,
                b,
            ),
    ensures
        match (
            outcome(answers, intersects, spec, uncapped, parent),
            outcome(answers, intersects, spec, capped, parent),
        ) {
            (Ok(free), Ok(plan)) => {
                &&& plan == (Plan { capability_mode: plan.capability_mode, ..free })
                &&& free.capability_mode matches Some(had) ==> (plan.capability_mode matches Some(
                    left,
                ) && within(left, had) && within(left, ceiling))
            },
            (Err(a), Err(b)) => a == b,
            _ => false,
        },
{
}

/// A spawn fails closed: one that names a role or a persona which the catalogue
/// does not hold is refused, and never falls back to another.
pub proof fn unknown_presets_are_refused(
    spec: SubagentSpec,
    catalog: SubagentCatalog,
    parent: SubagentParentDefaults,
)
    requires
        ({
            ||| spec.role is Some && forall|i: int|
                0 <= i < catalog.roles@.len() ==> trimmed((#[trigger] catalog.roles@[i]).name@)
                    != trimmed(spec.role->0@)
            ||| spec.persona is Some && forall|i: int|
                0 <= i < catalog.personas@.len() ==> trimmed(
                    (#[trigger] catalog.personas@[i]).name@,
                ) != trimmed(spec.persona->0@)
        }),
    ensures
        spawn_fault(spec, catalog, parent) is Some,
{
    if spec.role is Some && forall|i: int|
        0 <= i < catalog.roles@.len() ==> trimmed((#[trigger] catalog.roles@[i]).name@) != trimmed(
            spec.role->0@,
        ) {
        role_named_is_the_first(
            catalog.roles@,
            trimmed(spec.role->0@),
            catalog.roles@.len() as int,
        );
    } else {
        persona_named_is_the_first(
            catalog.personas@,
            trimmed(spec.persona->0@),
            catalog.personas@.len() as int,
        );
    }
}

/// A catalogue in which two roles or two personas go by the same name makes every
/// spawn fail, whichever presets the spawn names.
pub proof fn ambiguous_catalogues_are_refused(
    spec: SubagentSpec,
    catalog: SubagentCatalog,
    parent: SubagentParentDefaults,
    i: int,
    j: int,
)
    requires
        ({
            ||| 0 <= i < j < catalog.roles@.len() && trimmed(catalog.roles@[i].name@) == trimmed(
                catalog.roles@[j].name@,
            )
            ||| 0 <= i < j < catalog.personas@.len() && trimmed(catalog.personas@[i].name@)
                == trimmed(catalog.personas@[j].name@)
        }),
    ensures
        spawn_fault(spec, catalog, parent) is Some,
{
    accepted_roles_are_unambiguous(catalog.roles@);
    accepted_personas_are_unambiguous(catalog.personas@);
}

} // verus!
