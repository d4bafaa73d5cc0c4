//! What a spawn's outcome does not depend on: the white space around names and
//! models, the order of the presets, and the presets that are not selected.
//!
//! In the laws `a` and `b` are spawns, `c` and `d` the catalogues they are resolved
//! with, and `p` and `q` the parents' defaults.

use crate::catalog::{
    fault_at, fault_from, lemma_accepted, lemma_first_preset, lemma_place_of, persona_named,
    personas_fault, place_of, preset_named, preset_names, roles_fault, told_apart, Preset,
};
use crate::config::Effort;
use crate::outcome::{outcome, question_for, OverrideAnswer, OverrideQuestion};
use crate::resolution::{
    override_request_carries, persona_layer_carries, plan_carries, selected_persona,
    selected_role, spawn_fault, EffectiveOverrides, OverrideRequest, PersonaLayer,
};
use crate::subagent::{
    trimmed_option, ResolvedSubagent, SubagentCapability, SubagentCatalog, SubagentIsolation,
    SubagentParentDefaults, SubagentPersonaPreset, SubagentRolePreset, SubagentSpec,
};
use crate::text::trimmed;
use vstd::prelude::*;

verus! {

/// What a role says, with its name as it goes by it.
#[verifier::ext_equal]
pub struct RoleContent {
    pub name: Seq<char>,
    pub description: Seq<char>,
    pub model: Option<Seq<char>>,
    pub reasoning_effort: Option<Effort>,
    pub capability_ceiling: Option<SubagentCapability>,
    pub isolation: Option<SubagentIsolation>,
    pub instructions: Option<Seq<char>>,
}

/// What a persona says, with its name as it goes by it.
#[verifier::ext_equal]
pub struct PersonaContent {
    pub name: Seq<char>,
    pub model: Option<Seq<char>>,
    pub reasoning_effort: Option<Effort>,
    pub isolation: Option<SubagentIsolation>,
    pub instructions: Seq<char>,
}

/// A preset by what it says.
pub trait Described: Preset {
    type Content;

    /// All that the preset says. White space around its name does not count.
    spec fn content(&self) -> Self::Content;

    proof fn lemma_content(a: Self, b: Self)
        requires
            a.content() == b.content(),
        ensures
            a.called() == b.called(),
            a.lacks_instructions() == b.lacks_instructions(),
    ;
}

impl Described for SubagentRolePreset {
    type Content = RoleContent;

    open spec fn content(&self) -> RoleContent {
        RoleContent {
            name: trimmed(self.name@),
            description: self.description@,
            model: self.model.deep_view(),
            reasoning_effort: self.reasoning_effort,
            capability_ceiling: self.capability_ceiling,
            isolation: self.isolation,
            instructions: self.instructions.deep_view(),
        }
    }

    proof fn lemma_content(a: Self, b: Self) {
    }
}

impl Described for SubagentPersonaPreset {
    type Content = PersonaContent;

    open spec fn content(&self) -> PersonaContent {
        PersonaContent {
            name: trimmed(self.name@),
            model: self.model.deep_view(),
            reasoning_effort: self.reasoning_effort,
            isolation: self.isolation,
            instructions: self.instructions@,
        }
    }

    proof fn lemma_content(a: Self, b: Self) {
    }
}

/// What `presets` say, in their order.
pub open spec fn contents<P: Described>(presets: Seq<P>) -> Seq<P::Content> {
    presets.map_values(|preset: P| preset.content())
}

/// What `preset` says, if there is one.
pub open spec fn content_option<P: Described>(preset: Option<P>) -> Option<P::Content> {
    match preset {
        Some(preset) => Some(preset.content()),
        None => None,
    }
}

/// `a` and `b` ask for the same, up to white space around names and models.
pub open spec fn same_spawn(a: SubagentSpec, b: SubagentSpec) -> bool {
    &&& trimmed_option(a.role) == trimmed_option(b.role)
    &&& trimmed_option(a.persona) == trimmed_option(b.persona)
    &&& trimmed_option(a.model) == trimmed_option(b.model)
    &&& a.reasoning_effort == b.reasoning_effort
    &&& a.capability_mode == b.capability_mode
    &&& a.isolation == b.isolation
}

/// `a` and `b` are the same defaults, up to white space around the model.
pub open spec fn same_parent(a: SubagentParentDefaults, b: SubagentParentDefaults) -> bool {
    &&& trimmed(a.model@) == trimmed(b.model@)
    &&& a.reasoning_effort == b.reasoning_effort
}

/// `question` with the persona that it asks for as the only one.
pub open spec fn narrowed(question: OverrideQuestion) -> OverrideQuestion {
    OverrideQuestion {
        personas: question.personas.restrict(
            Set::new(|name: Seq<char>| question.persona == Some(name)),
        ),
        ..question
    }
}

/// The engine looks at no persona but the one it is asked for.
pub open spec fn looks_only_at_the_asked_persona(
    answers: spec_fn(OverrideQuestion) -> OverrideAnswer,
) -> bool {
    forall|a: OverrideQuestion, b: OverrideQuestion|
        narrowed(a) == narrowed(b) ==> #[trigger] answers(a) == #[trigger] answers(b)
}

proof fn lemma_same_contents<P: Described>(a: Seq<P>, b: Seq<P>)
    requires
        contents(a) == contents(b),
    ensures
        a.len() == b.len(),
        forall|i: int| 0 <= i < a.len() ==> (#[trigger] a[i]).content() == b[i].content(),
        preset_names(a) == preset_names(b),
        fault_from(a, 0) == fault_from(b, 0),
{
    assert(contents(a).len() == a.len() && contents(b).len() == b.len());
    assert forall|i: int| 0 <= i < a.len() implies (#[trigger] a[i]).content() == b[i].content()
        && a[i].called() == b[i].called() && a[i].lacks_instructions()
        == b[i].lacks_instructions() by {
        assert(contents(a)[i] == a[i].content());
        assert(contents(b)[i] == b[i].content());
        P::lemma_content(a[i], b[i]);
    }
    assert(preset_names(a) =~= preset_names(b));
    lemma_same_faults(a, b, 0);
}

proof fn lemma_same_faults<P: Described>(a: Seq<P>, b: Seq<P>, from: int)
    requires
        0 <= from,
        a.len() == b.len(),
        preset_names(a) == preset_names(b),
        forall|i: int|
            0 <= i < a.len() ==> (#[trigger] a[i]).lacks_instructions()
                == b[i].lacks_instructions(),
    ensures
        fault_from(a, from) == fault_from(b, from),
    decreases a.len() - from,
{
    if from < a.len() {
        assert(preset_names(a)[from] == a[from].called());
        assert(preset_names(b)[from] == b[from].called());
        assert(fault_at(a, from) == fault_at(b, from));
        lemma_same_faults(a, b, from + 1);
    }
}

/// What `a` holds under a name, an accepted `b` that holds at least what `a` does
/// holds under that name too.
proof fn lemma_held<P: Described>(a: Seq<P>, b: Seq<P>, name: Seq<char>)
    requires
        contents(a).to_multiset().subset_of(contents(b).to_multiset()),
        told_apart(b),
        preset_named(a, name) is Some,
    ensures
        content_option(preset_named(b, name)) == content_option(preset_named(a, name)),
{
    lemma_place_of(preset_names(a), name);
    let i = place_of(preset_names(a), name)->0;
    let said = contents(a)[i];
    contents(a).to_multiset_ensures();
    contents(b).to_multiset_ensures();
    assert(contents(a).contains(said));
    assert(contents(a).to_multiset().count(said) > 0);
    assert(contents(b).to_multiset().count(said) > 0);
    let j = choose|j: int| 0 <= j < contents(b).len() && contents(b)[j] == said;
    assert(contents(b)[j] == b[j].content());
    P::lemma_content(a[i], b[j]);
    lemma_first_preset(b, name, j);
}

/// Presets are accepted in every order if they are in one.
proof fn lemma_rearranged<P: Described>(a: Seq<P>, b: Seq<P>)
    requires
        contents(a).to_multiset() == contents(b).to_multiset(),
        told_apart(a),
    ensures
        told_apart(b),
{
    let from = contents(a);
    let to = contents(b);
    from.to_multiset_ensures();
    to.to_multiset_ensures();
    assert forall|i: int, j: int|
        0 <= i < from.len() && 0 <= j < from.len() && i != j implies from[i] != from[j] by {
        if from[i] == from[j] {
            assert(from[i] == a[i].content() && from[j] == a[j].content());
            P::lemma_content(a[i], a[j]);
            assert(a[i].called() != a[j].called());
        }
    }
    from.lemma_multiset_has_no_duplicates();
    to.lemma_multiset_has_no_duplicates_conv();
    assert forall|j: int| 0 <= j < b.len() implies exists|i: int|
        0 <= i < a.len() && #[trigger] a[i].content() == (#[trigger] b[j]).content() by {
        assert(to[j] == b[j].content());
        assert(to.contains(to[j]));
        assert(to.to_multiset().count(to[j]) > 0);
        assert(from.contains(to[j]));
        let i = choose|i: int| 0 <= i < from.len() && from[i] == to[j];
        assert(a[i].content() == b[j].content());
    }
    assert forall|j: int| 0 <= j < b.len() implies (#[trigger] b[j]).called().len() > 0
        && !b[j].lacks_instructions() by {
        let i = choose|i: int| 0 <= i < a.len() && #[trigger] a[i].content() == b[j].content();
        P::lemma_content(a[i], b[j]);
    }
    assert forall|j: int, k: int| 0 <= j < k < b.len() implies (#[trigger] b[j]).called() != (
    #[trigger] b[k]).called() by {
        let i = choose|i: int| 0 <= i < a.len() && #[trigger] a[i].content() == b[j].content();
        let l = choose|l: int| 0 <= l < a.len() && #[trigger] a[l].content() == b[k].content();
        P::lemma_content(a[i], b[j]);
        P::lemma_content(a[l], b[k]);
        assert(to[j] != to[k]);
        assert(to[j] == b[j].content() && to[k] == b[k].content());
        assert(i != l);
    }
}

proof fn lemma_selected(
    a: SubagentSpec,
    b: SubagentSpec,
    c: SubagentCatalog,
    d: SubagentCatalog,
    p: SubagentParentDefaults,
)
    requires
        same_spawn(a, b),
        contents(c.roles@).to_multiset().subset_of(contents(d.roles@).to_multiset()),
        contents(c.personas@).to_multiset().subset_of(contents(d.personas@).to_multiset()),
        told_apart(d.roles@),
        told_apart(d.personas@),
        spawn_fault(a, c, p) is None,
    ensures
        content_option(selected_role(a, c)) == content_option(selected_role(b, d)),
        content_option(selected_persona(a, c)) == content_option(selected_persona(b, d)),
{
    if let Some(name) = trimmed_option(a.role) {
        lemma_held(c.roles@, d.roles@, name);
    }
    if let Some(name) = trimmed_option(a.persona) {
        lemma_held(c.personas@, d.personas@, name);
    }
}

proof fn lemma_same_question(
    a: SubagentSpec,
    b: SubagentSpec,
    c: SubagentCatalog,
    d: SubagentCatalog,
)
    requires
        same_spawn(a, b),
        content_option(selected_role(a, c)) == content_option(selected_role(b, d)),
        forall|name: Seq<char>|
            content_option(#[trigger] persona_named(c.personas@, name)) == content_option(
                persona_named(d.personas@, name),
            ),
    ensures
        question_for(a, c) == question_for(b, d),
{
    assert(question_for(a, c).personas =~= question_for(b, d).personas);
    assert(question_for(a, c) =~= question_for(b, d));
}

/// White space around the names and the models of a spawn, of presets and of the
/// parent's defaults makes no difference: the spawn is refused for the same reason,
/// the engine is asked the same, and from the same answers the same plan is made.
pub proof fn surrounding_space_is_ignored(
    answers: spec_fn(OverrideQuestion) -> OverrideAnswer,
    intersects: spec_fn(Option<SubagentCapability>, Option<SubagentCapability>) -> Option<
        SubagentCapability,
    >,
    a: SubagentSpec,
    b: SubagentSpec,
    c: SubagentCatalog,
    d: SubagentCatalog,
    p: SubagentParentDefaults,
    q: SubagentParentDefaults,
    request: OverrideRequest,
    effective: EffectiveOverrides,
    capability_mode: Option<SubagentCapability>,
    plan: ResolvedSubagent,
)
    requires
        same_spawn(a, b),
        contents(c.roles@) == contents(d.roles@),
        contents(c.personas@) == contents(d.personas@),
        c.capability_ceiling == d.capability_ceiling,
        same_parent(p, q),
    ensures
        spawn_fault(a, c, p) == spawn_fault(b, d, q),
        content_option(selected_role(a, c)) == content_option(selected_role(b, d)),
        content_option(selected_persona(a, c)) == content_option(selected_persona(b, d)),
        override_request_carries(a, c, request) <==> override_request_carries(b, d, request),
        plan_carries(a, c, p, effective, capability_mode, plan) <==> plan_carries(
            b,
            d,
            q,
            effective,
            capability_mode,
            plan,
        ),
        outcome(answers, intersects, a, c, p) == outcome(answers, intersects, b, d, q),
{
    lemma_same_contents(c.roles@, d.roles@);
    lemma_same_contents(c.personas@, d.personas@);
    if let Some(name) = trimmed_option(a.role) {
        lemma_place_of(preset_names(c.roles@), name);
    }
    if let Some(name) = trimmed_option(a.persona) {
        lemma_place_of(preset_names(c.personas@), name);
    }
    assert forall|i: int, layer: PersonaLayer| 0 <= i < c.personas@.len() implies (
    #[trigger] persona_layer_carries(c.personas@[i], layer) <==> persona_layer_carries(
        d.personas@[i],
        layer,
    )) by {
        assert(c.personas@[i].content() == d.personas@[i].content());
    }
    assert forall|name: Seq<char>|
        content_option(#[trigger] persona_named(c.personas@, name)) == content_option(
            persona_named(d.personas@, name),
        ) by {
        lemma_place_of(preset_names(c.personas@), name);
    }
    lemma_same_question(a, b, c, d);
}

/// The order of roles and personas makes no difference. Presets in another order are
/// accepted exactly if they are in this one, and a spawn that passes its checks comes
/// to the same.
pub proof fn the_order_of_presets_is_ignored(
    answers: spec_fn(OverrideQuestion) -> OverrideAnswer,
    intersects: spec_fn(Option<SubagentCapability>, Option<SubagentCapability>) -> Option<
        SubagentCapability,
    >,
    a: SubagentSpec,
    b: SubagentSpec,
    c: SubagentCatalog,
    d: SubagentCatalog,
    p: SubagentParentDefaults,
    q: SubagentParentDefaults,
)
    requires
        same_spawn(a, b),
        contents(c.roles@).to_multiset() == contents(d.roles@).to_multiset(),
        contents(c.personas@).to_multiset() == contents(d.personas@).to_multiset(),
        c.capability_ceiling == d.capability_ceiling,
        same_parent(p, q),
    ensures
        spawn_fault(a, c, p) is None <==> spawn_fault(b, d, q) is None,
        spawn_fault(a, c, p) is None ==> {
            &&& content_option(selected_role(a, c)) == content_option(selected_role(b, d))
            &&& content_option(selected_persona(a, c)) == content_option(selected_persona(b, d))
            &&& outcome(answers, intersects, a, c, p) == outcome(answers, intersects, b, d, q)
        },
{
    if spawn_fault(a, c, p) is None {
        lemma_rearranged_spawn(a, b, c, d, p, q);
    }
    if spawn_fault(b, d, q) is None {
        lemma_rearranged_spawn(b, a, d, c, q, p);
    }
}

proof fn lemma_rearranged_spawn(
    a: SubagentSpec,
    b: SubagentSpec,
    c: SubagentCatalog,
    d: SubagentCatalog,
    p: SubagentParentDefaults,
    q: SubagentParentDefaults,
)
    requires
        same_spawn(a, b),
        contents(c.roles@).to_multiset() == contents(d.roles@).to_multiset(),
        contents(c.personas@).to_multiset() == contents(d.personas@).to_multiset(),
        same_parent(p, q),
        spawn_fault(a, c, p) is None,
    ensures
        spawn_fault(b, d, q) is None,
        content_option(selected_role(a, c)) == content_option(selected_role(b, d)),
        content_option(selected_persona(a, c)) == content_option(selected_persona(b, d)),
        question_for(a, c) == question_for(b, d),
{
    lemma_accepted(c.roles@);
    lemma_accepted(c.personas@);
    lemma_rearranged(c.roles@, d.roles@);
    lemma_rearranged(c.personas@, d.personas@);
    lemma_accepted(d.roles@);
    lemma_accepted(d.personas@);
    lemma_selected(a, b, c, d, p);
    assert forall|name: Seq<char>|
        content_option(#[trigger] persona_named(c.personas@, name)) == content_option(
            persona_named(d.personas@, name),
        ) by {
        if persona_named(c.personas@, name) is Some {
            lemma_held(c.personas@, d.personas@, name);
        } else if persona_named(d.personas@, name) is Some {
            lemma_held(d.personas@, c.personas@, name);
        }
    }
    lemma_same_question(a, b, c, d);
}

/// Presets that are not selected make no difference: a spawn that passes its checks
/// comes to the same with a catalogue that holds more, provided that the larger
/// catalogue is accepted and that the engine looks at no persona but the one it is
/// asked for.
pub proof fn unselected_presets_are_ignored(
    answers: spec_fn(OverrideQuestion) -> OverrideAnswer,
    intersects: spec_fn(Option<SubagentCapability>, Option<SubagentCapability>) -> Option<
        SubagentCapability,
    >,
    a: SubagentSpec,
    b: SubagentSpec,
    c: SubagentCatalog,
    d: SubagentCatalog,
    p: SubagentParentDefaults,
    q: SubagentParentDefaults,
)
    requires
        same_spawn(a, b),
        contents(c.roles@).to_multiset().subset_of(contents(d.roles@).to_multiset()),
        contents(c.personas@).to_multiset().subset_of(contents(d.personas@).to_multiset()),
        roles_fault(d.roles@) is None,
        personas_fault(d.personas@) is None,
        c.capability_ceiling == d.capability_ceiling,
        same_parent(p, q),
        spawn_fault(a, c, p) is None,
    ensures
        spawn_fault(b, d, q) is None,
        content_option(selected_role(a, c)) == content_option(selected_role(b, d)),
        content_option(selected_persona(a, c)) == content_option(selected_persona(b, d)),
        narrowed(question_for(a, c)) == narrowed(question_for(b, d)),
        looks_only_at_the_asked_persona(answers) ==> outcome(answers, intersects, a, c, p)
            == outcome(answers, intersects, b, d, q),
{
    lemma_accepted(d.roles@);
    lemma_accepted(d.personas@);
    lemma_selected(a, b, c, d, p);
    assert(narrowed(question_for(a, c)).personas =~= narrowed(question_for(b, d)).personas);
    assert(narrowed(question_for(a, c)) =~= narrowed(question_for(b, d)));
}

} // verus!
