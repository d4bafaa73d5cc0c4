//! Laws of resolving a subagent.

use crate::catalog::{
    accepted_personas_are_unambiguous, accepted_roles_are_unambiguous, index_personas,
    index_roles, persona_named_is_the_first, personas_fault, role_named_is_the_first, roles_fault,
};
use crate::config::Effort;
use crate::resolution::{
    capability_intersection, override_request, persona_layer_carries, resolve_subagent,
    selected_persona, selected_role, CapabilityIntersection, EffectiveOverrides, OverrideRequest,
};
use crate::subagent::{
    capability_name, capability_text, effort_name, effort_names_read_back, effort_text,
    isolation_name, isolation_text, named_effort, normalized_optional, normalized_required,
    parse_effort, ResolvedSubagent, SubagentCapability, SubagentCatalog, SubagentIsolation,
    SubagentParentDefaults, SubagentResolutionError, SubagentSpec,
};
use crate::text::trimmed;
use vstd::prelude::*;

verus! {

/// The names of efforts, capabilities and isolation modes.
pub proof fn the_engine_knows_modes_by_name(
    effort: Effort,
    effort_known: String,
    capability: SubagentCapability,
    capability_known: &'static str,
    isolation: SubagentIsolation,
    isolation_known: &'static str,
)
    requires
        call_ensures(effort_name, (effort,), effort_known),
        call_ensures(capability_name, (capability,), capability_known),
        call_ensures(isolation_name, (isolation,), isolation_known),
    ensures
        effort_known@ == effort_text(effort) && effort_text(effort) == (match effort {
            Effort::Off => "none"@,
            Effort::Minimal => "minimal"@,
            Effort::Low => "low"@,
            Effort::Medium => "medium"@,
            Effort::High => "high"@,
            Effort::Xhigh => "xhigh"@,
            Effort::Max => "max"@,
        }),
        capability_known@ == capability_text(capability) && capability_text(capability) == (
        match capability {
            SubagentCapability::ReadOnly => "read-only"@,
            SubagentCapability::ReadWrite => "read-write"@,
            SubagentCapability::Execute => "execute"@,
            SubagentCapability::All => "all"@,
        }),
        isolation_known@ == isolation_text(isolation) && isolation_text(isolation) == (
        match isolation {
            SubagentIsolation::Shared => "none"@,
            SubagentIsolation::Worktree => "worktree"@,
        }),
{
}

/// A text is read as an effort exactly if it is the effort's name.
pub proof fn efforts_are_read_by_name(
    effort: Effort,
    name: String,
    value: &str,
    read: Option<Effort>,
)
    requires
        call_ensures(effort_name, (effort,), name),
        call_ensures(parse_effort, (value,), read),
    ensures
        read == Some(effort) <==> value@ == name@,
{
    effort_names_read_back(effort, value@);
}

/// By default a spawn asks for nothing, and a catalogue holds nothing and sets no
/// ceiling.
pub proof fn defaults_ask_for_nothing(spec: SubagentSpec, catalog: SubagentCatalog)
    requires
        call_ensures(SubagentSpec::default, (), spec),
        call_ensures(SubagentCatalog::default, (), catalog),
    ensures
        spec.role is None && spec.persona is None && spec.model is None,
        spec.reasoning_effort is None && spec.capability_mode is None && spec.isolation is None,
        catalog.roles@.len() == 0 && catalog.personas@.len() == 0,
        catalog.capability_ceiling is None,
{
}

/// A required value is accepted exactly if something is left when it is trimmed, which
/// is then the result; a refusal bears the value's label.
pub proof fn required_values_are_trimmed(
    value: &str,
    label: &str,
    res: Result<String, SubagentResolutionError>,
    message: String,
)
    requires
        call_ensures(normalized_required, (value, label), res),
        res matches Err(error) ==> call_ensures(
            SubagentResolutionError::to_string,
            (&error,),
            message,
        ),
    ensures
        res is Ok <==> trimmed(value@).len() > 0,
        res matches Ok(name) ==> name@ == trimmed(value@),
        res is Err ==> message@ == label@ + " must not be empty"@,
{
}

/// An optional value is treated as a required one if it is given, and left out if not.
pub proof fn optional_values_may_be_left_out(
    value: &str,
    label: &str,
    required: Result<String, SubagentResolutionError>,
    given: Result<Option<String>, SubagentResolutionError>,
    left_out: Result<Option<String>, SubagentResolutionError>,
)
    requires
        call_ensures(normalized_required, (value, label), required),
        call_ensures(normalized_optional, (Some(value), label), given),
        call_ensures(normalized_optional, (None, label), left_out),
    ensures
        left_out == Ok::<Option<String>, SubagentResolutionError>(None),
        match (required, given) {
            (Ok(name), Ok(Some(same))) => name@ == same@,
            (Err(error), Err(same)) => error@ == same@,
            _ => false,
        },
{
}

/// A spawn is refused for the first fault there is: a blank parent model, a fault in
/// the roles, a fault in the personas, a blank role, a blank persona, an unknown role,
/// an unknown persona, a blank model. Otherwise the engine is asked.
pub proof fn a_spawn_is_refused_for_its_first_fault(
    spec: SubagentSpec,
    catalog: SubagentCatalog,
    parent: SubagentParentDefaults,
    roles: Result<Vec<String>, SubagentResolutionError>,
    personas: Result<Vec<String>, SubagentResolutionError>,
    roles_message: String,
    personas_message: String,
    res: Result<OverrideRequest, SubagentResolutionError>,
    message: String,
)
    requires
        call_ensures(index_roles, (&catalog,), roles),
        call_ensures(index_personas, (&catalog,), personas),
        call_ensures(override_request, (&spec, &catalog, &parent), res),
        roles matches Err(error) ==> call_ensures(
            SubagentResolutionError::to_string,
            (&error,),
            roles_message,
        ),
        personas matches Err(error) ==> call_ensures(
            SubagentResolutionError::to_string,
            (&error,),
            personas_message,
        ),
        res matches Err(error) ==> call_ensures(
            SubagentResolutionError::to_string,
            (&error,),
            message,
        ),
    ensures
        if trimmed(parent.model@).len() == 0 {
            res is Err && message@ == "parent model"@ + " must not be empty"@
        } else if roles is Err {
            res is Err && message@ == roles_message@
        } else if personas is Err {
            res is Err && message@ == personas_message@
        } else if spec.role is Some && trimmed(spec.role->0@).len() == 0 {
            res is Err && message@ == "role"@ + " must not be empty"@
        } else if spec.persona is Some && trimmed(spec.persona->0@).len() == 0 {
            res is Err && message@ == "persona"@ + " must not be empty"@
        } else if spec.role is Some && forall|i: int|
            0 <= i < catalog.roles@.len() ==> trimmed((#[trigger] catalog.roles@[i]).name@)
                != trimmed(spec.role->0@) {
            res is Err && message@ == "unknown subagent role: "@ + trimmed(spec.role->0@)
        } else if spec.persona is Some && forall|i: int|
            0 <= i < catalog.personas@.len() ==> trimmed((#[trigger] catalog.personas@[i]).name@)
                != trimmed(spec.persona->0@) {
            res is Err && message@ == "unknown subagent persona: "@ + trimmed(spec.persona->0@)
        } else if spec.model is Some && trimmed(spec.model->0@).len() == 0 {
            res is Err && message@ == "subagent model"@ + " must not be empty"@
        } else {
            res is Ok
        },
{
    if roles is Ok && personas is Ok {
        if spec.role is Some {
            lemma_role_is_found_or_not(spec, catalog);
        }
        if spec.persona is Some {
            lemma_persona_is_found_or_not(spec, catalog);
        }
    }
}

proof fn lemma_role_is_found_or_not(spec: SubagentSpec, catalog: SubagentCatalog)
    requires
        spec.role is Some,
        roles_fault(catalog.roles@) is None,
    ensures
        selected_role(spec, catalog) is None <==> forall|i: int|
            0 <= i < catalog.roles@.len() ==> trimmed((#[trigger] catalog.roles@[i]).name@)
                != trimmed(spec.role->0@),
        forall|i: int|
            0 <= i < catalog.roles@.len() && trimmed((#[trigger] catalog.roles@[i]).name@)
                == trimmed(spec.role->0@) ==> selected_role(spec, catalog) == Some(
                catalog.roles@[i],
            ),
{
    let name = trimmed(spec.role->0@);
    accepted_roles_are_unambiguous(catalog.roles@);
    if forall|i: int|
        0 <= i < catalog.roles@.len() ==> trimmed((#[trigger] catalog.roles@[i]).name@) != name {
        role_named_is_the_first(catalog.roles@, name, catalog.roles@.len() as int);
    } else {
        let at = choose|i: int|
            0 <= i < catalog.roles@.len() && trimmed((#[trigger] catalog.roles@[i]).name@) == name;
        role_named_is_the_first(catalog.roles@, name, at);
    }
}

proof fn lemma_persona_is_found_or_not(spec: SubagentSpec, catalog: SubagentCatalog)
    requires
        spec.persona is Some,
        personas_fault(catalog.personas@) is None,
    ensures
        selected_persona(spec, catalog) is None <==> forall|i: int|
            0 <= i < catalog.personas@.len() ==> trimmed((#[trigger] catalog.personas@[i]).name@)
                != trimmed(spec.persona->0@),
{
    let name = trimmed(spec.persona->0@);
    accepted_personas_are_unambiguous(catalog.personas@);
    if forall|i: int|
        0 <= i < catalog.personas@.len() ==> trimmed((#[trigger] catalog.personas@[i]).name@)
            != name {
        persona_named_is_the_first(catalog.personas@, name, catalog.personas@.len() as int);
    } else {
        let at = choose|i: int|
            0 <= i < catalog.personas@.len() && trimmed((#[trigger] catalog.personas@[i]).name@)
                == name;
        persona_named_is_the_first(catalog.personas@, name, at);
    }
}

/// The engine is asked for what the spawn asks for: its model, its persona and its role
/// by their names without the white space around them, its effort by name, and its two
/// modes. What the spawn leaves open is left open.
pub proof fn the_engine_is_asked_for_what_the_spawn_asks_for(
    spec: SubagentSpec,
    catalog: SubagentCatalog,
    parent: SubagentParentDefaults,
    request: OverrideRequest,
)
    requires
        call_ensures(override_request, (&spec, &catalog, &parent), Ok(request)),
    ensures
        request.overrides.model is Some <==> spec.model is Some,
        spec.model is Some ==> request.overrides.model->0@ == trimmed(spec.model->0@),
        request.overrides.persona is Some <==> spec.persona is Some,
        spec.persona is Some ==> request.overrides.persona->0@ == trimmed(spec.persona->0@),
        request.role_name is Some <==> spec.role is Some,
        spec.role is Some ==> request.role_name->0@ == trimmed(spec.role->0@),
        request.overrides.reasoning_effort is Some <==> spec.reasoning_effort is Some,
        spec.reasoning_effort is Some ==> request.overrides.reasoning_effort->0@ == effort_text(
            spec.reasoning_effort->0,
        ),
        request.overrides.capability_mode == spec.capability_mode,
        request.overrides.isolation == spec.isolation,
{
}

/// The engine is told of the role that the spawn names what the role says, its modes
/// and its effort by name, and of no other role.
pub proof fn the_engine_is_told_of_the_named_role(
    spec: SubagentSpec,
    catalog: SubagentCatalog,
    parent: SubagentParentDefaults,
    request: OverrideRequest,
    at: int,
)
    requires
        call_ensures(override_request, (&spec, &catalog, &parent), Ok(request)),
        spec.role is Some ==> 0 <= at < catalog.roles@.len() && trimmed(catalog.roles@[at].name@)
            == trimmed(spec.role->0@),
    ensures
        request.role is Some <==> spec.role is Some,
        request.role matches Some(layer) ==> ({
            let role = catalog.roles@[at];
            &&& layer.description@ == role.description@
            &&& layer.model.deep_view() == role.model.deep_view()
            &&& layer.reasoning_effort is Some <==> role.reasoning_effort is Some
            &&& role.reasoning_effort is Some ==> layer.reasoning_effort->0@ == effort_text(
                role.reasoning_effort->0,
            )
            &&& layer.default_capability_mode is Some <==> role.capability_ceiling is Some
            &&& role.capability_ceiling is Some ==> layer.default_capability_mode->0@
                == capability_text(role.capability_ceiling->0)
            &&& layer.default_isolation is Some <==> role.isolation is Some
            &&& role.isolation is Some ==> layer.default_isolation->0@ == isolation_text(
                role.isolation->0,
            )
        }),
{
    if spec.role is Some {
        lemma_role_is_found_or_not(spec, catalog);
        assert(trimmed(catalog.roles@[at].name@) == trimmed(spec.role->0@));
    }
}

/// The engine is told of every persona of the catalogue, in order, what the persona
/// says, by its name without the white space around it.
pub proof fn the_engine_is_told_of_every_persona(
    spec: SubagentSpec,
    catalog: SubagentCatalog,
    parent: SubagentParentDefaults,
    request: OverrideRequest,
    i: int,
)
    requires
        call_ensures(override_request, (&spec, &catalog, &parent), Ok(request)),
    ensures
        request.personas@.len() == catalog.personas@.len(),
        0 <= i < catalog.personas@.len() ==> ({
            let persona = catalog.personas@[i];
            let layer = request.personas@[i];
            &&& layer.name@ == trimmed(persona.name@)
            &&& layer.instructions@ == persona.instructions@
            &&& layer.model.deep_view() == persona.model.deep_view()
            &&& layer.reasoning_effort is Some <==> persona.reasoning_effort is Some
            &&& persona.reasoning_effort is Some ==> layer.reasoning_effort->0@ == effort_text(
                persona.reasoning_effort->0,
            )
            &&& layer.default_isolation is Some <==> persona.isolation is Some
            &&& persona.isolation is Some ==> layer.default_isolation->0@ == isolation_text(
                persona.isolation->0,
            )
        }),
{
    if 0 <= i < catalog.personas@.len() {
        assert(persona_layer_carries(catalog.personas@[i], request.personas@[i]));
    }
}

/// The engine is asked to intersect the mode it resolved with the catalogue's ceiling,
/// whatever the two are, unless it refused the persona; then its words are the refusal.
pub proof fn the_resolved_mode_meets_the_ceiling(
    catalog: SubagentCatalog,
    effective: EffectiveOverrides,
    res: Result<CapabilityIntersection, SubagentResolutionError>,
    message: String,
)
    requires
        call_ensures(capability_intersection, (&catalog, &effective), res),
        res matches Err(error) ==> call_ensures(
            SubagentResolutionError::to_string,
            (&error,),
            message,
        ),
    ensures
        res is Ok <==> effective.persona_error is None,
        res matches Ok(asked) ==> asked.resolved == effective.capability_mode && asked.ceiling
            == catalog.capability_ceiling,
        res is Err ==> message@ == effective.persona_error->0@,
{
}

/// A plan is made exactly if the spawn passes its checks and the engine did not refuse
/// the persona. It is refused as the request to the engine is, else with the engine's
/// words.
pub proof fn a_plan_is_refused_as_its_request_is(
    spec: SubagentSpec,
    catalog: SubagentCatalog,
    parent: SubagentParentDefaults,
    effective: EffectiveOverrides,
    capability_mode: Option<SubagentCapability>,
    asked: Result<OverrideRequest, SubagentResolutionError>,
    asked_message: String,
    res: Result<ResolvedSubagent, SubagentResolutionError>,
    message: String,
)
    requires
        call_ensures(override_request, (&spec, &catalog, &parent), asked),
        call_ensures(
            resolve_subagent,
            (&spec, &catalog, &parent, effective, capability_mode),
            res,
        ),
        asked matches Err(error) ==> call_ensures(
            SubagentResolutionError::to_string,
            (&error,),
            asked_message,
        ),
        res matches Err(error) ==> call_ensures(
            SubagentResolutionError::to_string,
            (&error,),
            message,
        ),
    ensures
        res is Ok <==> asked is Ok && effective.persona_error is None,
        asked is Err ==> message@ == asked_message@,
        asked is Ok && effective.persona_error is Some ==> message@
            == effective.persona_error->0@,
{
}

/// A plan takes the engine's answers as they are, and the parent's model and effort
/// where the engine leaves them open or names no effort there is.
pub proof fn a_plan_takes_the_answers_and_the_parents_defaults(
    spec: SubagentSpec,
    catalog: SubagentCatalog,
    parent: SubagentParentDefaults,
    effective: EffectiveOverrides,
    capability_mode: Option<SubagentCapability>,
    plan: ResolvedSubagent,
    effort: Effort,
)
    requires
        call_ensures(
            resolve_subagent,
            (&spec, &catalog, &parent, effective, capability_mode),
            Ok(plan),
        ),
    ensures
        effective.model is Some ==> plan.model@ == effective.model->0@,
        effective.model is None ==> plan.model@ == trimmed(parent.model@),
        effective.reasoning_effort is None ==> plan.reasoning_effort == parent.reasoning_effort,
        effective.reasoning_effort is Some && effective.reasoning_effort->0@ == effort_text(effort)
            ==> plan.reasoning_effort == Some(effort),
        effective.reasoning_effort is Some && (forall|known: Effort|
            effective.reasoning_effort->0@ != #[trigger] effort_text(known))
            ==> plan.reasoning_effort == parent.reasoning_effort,
        plan.capability_mode == capability_mode,
        plan.isolation == effective.isolation,
        plan.role.deep_view() == effective.role_name.deep_view(),
        plan.persona.deep_view() == effective.persona.deep_view(),
{
    if effective.reasoning_effort is Some {
        let name = effective.reasoning_effort->0@;
        effort_names_read_back(effort, name);
        if let Some(known) = named_effort(name) {
            effort_names_read_back(known, name);
        }
    }
}

/// The instructions of a plan are the role's, then the persona's, whatever their
/// lengths: each without the white space around it, with an empty line between them.
/// Where one has nothing to say, the other stands alone, and where neither has, there
/// are none.
pub proof fn the_roles_layer_comes_first(
    spec: SubagentSpec,
    catalog: SubagentCatalog,
    parent: SubagentParentDefaults,
    effective: EffectiveOverrides,
    capability_mode: Option<SubagentCapability>,
    plan: ResolvedSubagent,
    at: int,
)
    requires
        call_ensures(
            resolve_subagent,
            (&spec, &catalog, &parent, effective, capability_mode),
            Ok(plan),
        ),
        spec.role is Some ==> 0 <= at < catalog.roles@.len() && trimmed(catalog.roles@[at].name@)
            == trimmed(spec.role->0@),
    ensures
        ({
            let text = plan.instructions@;
            let role = if spec.role is Some && catalog.roles@[at].instructions is Some {
                trimmed(catalog.roles@[at].instructions->0@)
            } else {
                Seq::empty()
            };
            let persona = if effective.persona_instructions is Some {
                trimmed(effective.persona_instructions->0@)
            } else {
                Seq::empty()
            };
            &&& role.len() > 0 && persona.len() > 0 ==> {
                &&& text == role + seq!['\n', '\n'] + persona
                &&& role.is_prefix_of(text)
                &&& persona.is_suffix_of(text)
            }
            &&& role.len() == 0 ==> text == persona
            &&& persona.len() == 0 ==> text == role
        }),
{
    if spec.role is Some {
        lemma_role_is_found_or_not(spec, catalog);
        assert(trimmed(catalog.roles@[at].name@) == trimmed(spec.role->0@));
    }
    reveal_strlit("\n\n");
    assert("\n\n"@ =~= seq!['\n', '\n']);
    let role = if spec.role is Some && catalog.roles@[at].instructions is Some {
        trimmed(catalog.roles@[at].instructions->0@)
    } else {
        Seq::empty()
    };
    let persona = if effective.persona_instructions is Some {
        trimmed(effective.persona_instructions->0@)
    } else {
        Seq::empty()
    };
    assert(role.len() == 0 ==> role + persona =~= persona);
    assert(persona.len() == 0 ==> role + persona =~= role);
}

/// A plan's instructions depend on the role that the spawn names and on the persona's
/// text alone: two plans that agree in both have the same.
pub proof fn nothing_else_is_in_the_instructions(
    a: SubagentSpec,
    b: SubagentSpec,
    catalog: SubagentCatalog,
    p: SubagentParentDefaults,
    q: SubagentParentDefaults,
    x: EffectiveOverrides,
    y: EffectiveOverrides,
    m: Option<SubagentCapability>,
    n: Option<SubagentCapability>,
    plan: ResolvedSubagent,
    other: ResolvedSubagent,
)
    requires
        call_ensures(resolve_subagent, (&a, &catalog, &p, x, m), Ok(plan)),
        call_ensures(resolve_subagent, (&b, &catalog, &q, y, n), Ok(other)),
        a.role is Some <==> b.role is Some,
        a.role is Some ==> trimmed(a.role->0@) == trimmed(b.role->0@),
        x.persona_instructions.deep_view() == y.persona_instructions.deep_view(),
    ensures
        plan.instructions@ == other.instructions@,
{
}

} // verus!
