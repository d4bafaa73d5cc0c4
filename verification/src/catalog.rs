//! The catalogue's rules: every preset has a name of its own, and every persona
//! has instructions. A catalogue that breaks a rule is refused.

use crate::subagent::{
    blank_fault, normalized_required, SubagentCatalog, SubagentPersonaPreset,
    SubagentResolutionError, SubagentRolePreset,
};
use crate::text::{blank, same_text, trim, trimmed};
use vstd::prelude::*;

verus! {

/// An entry of the catalogue: a role or a persona.
pub trait Preset: Sized {
    /// What messages call an entry of this kind.
    spec fn kind() -> Seq<char>;

    /// The name that the entry goes by. White space around it does not count.
    spec fn called(&self) -> Seq<char>;

    /// The entry is of a kind that must have instructions, and has none.
    spec fn lacks_instructions(&self) -> bool;

    fn kind_text() -> (kind: &'static str)
        ensures
            kind@ == Self::kind(),
    ;

    fn name_text(&self) -> (name: &str)
        ensures
            trimmed(name@) == self.called(),
    ;

    fn is_uninstructed(&self) -> (lacks: bool)
        ensures
            lacks == self.lacks_instructions(),
    ;
}

impl Preset for SubagentRolePreset {
    open spec fn kind() -> Seq<char> {
        "role"@
    }

    open spec fn called(&self) -> Seq<char> {
        trimmed(self.name@)
    }

    open spec fn lacks_instructions(&self) -> bool {
        false
    }

    fn kind_text() -> (kind: &'static str) {
        "role"
    }

    fn name_text(&self) -> (name: &str) {
        self.name.as_str()
    }

    fn is_uninstructed(&self) -> (lacks: bool) {
        false
    }
}

impl Preset for SubagentPersonaPreset {
    open spec fn kind() -> Seq<char> {
        "persona"@
    }

    open spec fn called(&self) -> Seq<char> {
        trimmed(self.name@)
    }

    open spec fn lacks_instructions(&self) -> bool {
        blank(self.instructions@)
    }

    fn kind_text() -> (kind: &'static str) {
        "persona"
    }

    fn name_text(&self) -> (name: &str) {
        self.name.as_str()
    }

    fn is_uninstructed(&self) -> (lacks: bool) {
        trim(self.instructions.as_str()).is_empty()
    }
}

/// The names that `presets` go by.
pub open spec fn preset_names<P: Preset>(presets: Seq<P>) -> Seq<Seq<char>> {
    presets.map_values(|preset: P| preset.called())
}

/// Where `name` first stands in `names`.
pub open spec fn place_of(names: Seq<Seq<char>>, name: Seq<char>) -> Option<int>
    decreases names.len(),
{
    if names.len() == 0 {
        None
    } else {
        match place_of(names.drop_last(), name) {
            Some(at) => Some(at),
            None => if names.last() == name {
                Some(names.len() - 1)
            } else {
                None
            },
        }
    }
}

/// The first of `presets` that goes by `name`.
pub open spec fn preset_named<P: Preset>(presets: Seq<P>, name: Seq<char>) -> Option<P> {
    match place_of(preset_names(presets), name) {
        Some(at) => Some(presets[at]),
        None => None,
    }
}

/// The first role of `roles` that goes by `name`. White space around a role's
/// name does not count.
pub open spec fn role_named(roles: Seq<SubagentRolePreset>, name: Seq<char>) -> Option<
    SubagentRolePreset,
> {
    preset_named(roles, name)
}

/// The first persona of `personas` that goes by `name`. White space around a
/// persona's name does not count.
pub open spec fn persona_named(personas: Seq<SubagentPersonaPreset>, name: Seq<char>) -> Option<
    SubagentPersonaPreset,
> {
    preset_named(personas, name)
}

/// What is wrong with the preset at place `at`, after those before it.
pub open spec fn fault_at<P: Preset>(presets: Seq<P>, at: int) -> Option<Seq<char>> {
    let name = presets[at].called();
    if name.len() == 0 {
        Some(blank_fault("subagent "@ + P::kind() + " name"@))
    } else if presets[at].lacks_instructions() {
        Some("subagent "@ + P::kind() + " "@ + name + " has empty instructions"@)
    } else if preset_names(presets).take(at).contains(name) {
        Some("duplicate subagent "@ + P::kind() + ": "@ + name)
    } else {
        None
    }
}

/// The first fault among `presets` from place `from` on.
pub open spec fn fault_from<P: Preset>(presets: Seq<P>, from: int) -> Option<Seq<char>>
    decreases presets.len() - from,
{
    if from >= presets.len() {
        None
    } else if fault_at(presets, from) is Some {
        fault_at(presets, from)
    } else {
        fault_from(presets, from + 1)
    }
}

/// The first fault in `roles`; `None` if they can be told apart by name.
pub open spec fn roles_fault(roles: Seq<SubagentRolePreset>) -> Option<Seq<char>> {
    fault_from(roles, 0)
}

/// The first fault in `personas`; `None` if they can be told apart by name and
/// all have instructions.
pub open spec fn personas_fault(personas: Seq<SubagentPersonaPreset>) -> Option<Seq<char>> {
    fault_from(personas, 0)
}

/// `presets` all have a name, of their own, and the instructions they must have.
pub open spec fn told_apart<P: Preset>(presets: Seq<P>) -> bool {
    &&& forall|i: int|
        0 <= i < presets.len() ==> (#[trigger] presets[i]).called().len() > 0
            && !presets[i].lacks_instructions()
    &&& forall|i: int, j: int|
        0 <= i < j < presets.len() ==> (#[trigger] presets[i]).called() != (
        #[trigger] presets[j]).called()
}

pub(crate) proof fn lemma_place_of(names: Seq<Seq<char>>, name: Seq<char>)
    ensures
        match place_of(names, name) {
            Some(at) => {
                &&& 0 <= at < names.len()
                &&& names[at] == name
                &&& forall|i: int| 0 <= i < at ==> #[trigger] names[i] != name
            },
            None => forall|i: int| 0 <= i < names.len() ==> #[trigger] names[i] != name,
        },
    decreases names.len(),
{
    if names.len() > 0 {
        let rest = names.drop_last();
        lemma_place_of(rest, name);
        assert forall|i: int| 0 <= i < rest.len() implies #[trigger] names[i] == rest[i] by {}
    }
}

pub(crate) proof fn lemma_first_preset<P: Preset>(presets: Seq<P>, name: Seq<char>, at: int)
    requires
        0 <= at <= presets.len(),
        at < presets.len() ==> presets[at].called() == name,
        forall|i: int| 0 <= i < at ==> (#[trigger] presets[i]).called() != name,
    ensures
        preset_named(presets, name) == if at < presets.len() {
            Some(presets[at])
        } else {
            None
        },
{
    let names = preset_names(presets);
    lemma_place_of(names, name);
    assert forall|i: int| 0 <= i < at implies #[trigger] names[i] != name by {
        assert(presets[i].called() != name);
    }
    if at < presets.len() {
        assert(names[at] == name);
    }
}

/// Presets are accepted exactly if they can be told apart and have the instructions
/// they must have.
pub(crate) proof fn lemma_accepted<P: Preset>(presets: Seq<P>)
    ensures
        fault_from(presets, 0) is None <==> told_apart(presets),
{
    let names = preset_names(presets);
    lemma_no_fault_from(presets, 0);
    if fault_from(presets, 0) is None {
        assert forall|i: int, j: int| 0 <= i < j < presets.len() implies (
        #[trigger] presets[i]).called() != (#[trigger] presets[j]).called() by {
            assert(fault_at(presets, j) is None);
            assert(names.take(j)[i] == presets[i].called());
        }
        assert forall|i: int| 0 <= i < presets.len() implies (#[trigger] presets[i]).called().len()
            > 0 && !presets[i].lacks_instructions() by {
            assert(fault_at(presets, i) is None);
        }
    }
    if told_apart(presets) {
        assert forall|i: int| 0 <= i < presets.len() implies #[trigger] fault_at(presets, i)
            is None by {
            assert forall|j: int| 0 <= j < i implies #[trigger] names.take(i)[j]
                != presets[i].called() by {
                assert(presets[j].called() != presets[i].called());
            }
        }
    }
}

proof fn lemma_no_fault_from<P: Preset>(presets: Seq<P>, from: int)
    ensures
        fault_from(presets, from) is None <==> forall|i: int|
            from <= i < presets.len() ==> #[trigger] fault_at(presets, i) is None,
    decreases presets.len() - from,
{
    if from < presets.len() {
        lemma_no_fault_from(presets, from + 1);
        if fault_from(presets, from) is None {
            assert forall|i: int| from <= i < presets.len() implies #[trigger] fault_at(presets, i)
                is None by {
                assert(i == from || from + 1 <= i);
            }
        }
    }
}

/// The role by a name is the first one that has it.
pub proof fn role_named_is_the_first(roles: Seq<SubagentRolePreset>, name: Seq<char>, at: int)
    requires
        0 <= at <= roles.len(),
        at < roles.len() ==> trimmed(roles[at].name@) == name,
        forall|i: int| 0 <= i < at ==> trimmed((#[trigger] roles[i]).name@) != name,
    ensures
        role_named(roles, name) == if at < roles.len() {
            Some(roles[at])
        } else {
            None
        },
{
    lemma_first_preset(roles, name, at);
}

/// The persona by a name is the first one that has it.
pub proof fn persona_named_is_the_first(
    personas: Seq<SubagentPersonaPreset>,
    name: Seq<char>,
    at: int,
)
    requires
        0 <= at <= personas.len(),
        at < personas.len() ==> trimmed(personas[at].name@) == name,
        forall|i: int| 0 <= i < at ==> trimmed((#[trigger] personas[i]).name@) != name,
    ensures
        persona_named(personas, name) == if at < personas.len() {
            Some(personas[at])
        } else {
            None
        },
{
    lemma_first_preset(personas, name, at);
}

/// Roles are accepted exactly if they all have names and no two have the same.
pub proof fn accepted_roles_are_unambiguous(roles: Seq<SubagentRolePreset>)
    ensures
        roles_fault(roles) is None <==> {
            &&& forall|i: int| 0 <= i < roles.len() ==> !blank((#[trigger] roles[i]).name@)
            &&& forall|i: int, j: int|
                0 <= i < j < roles.len() ==> trimmed((#[trigger] roles[i]).name@) != trimmed(
                    (#[trigger] roles[j]).name@,
                )
        },
{
    lemma_accepted(roles);
}

/// Personas are accepted exactly if they all have names and instructions and no two
/// have the same name.
pub proof fn accepted_personas_are_unambiguous(personas: Seq<SubagentPersonaPreset>)
    ensures
        personas_fault(personas) is None <==> {
            &&& forall|i: int|
                0 <= i < personas.len() ==> !blank((#[trigger] personas[i]).name@) && !blank(
                    personas[i].instructions@,
                )
            &&& forall|i: int, j: int|
                0 <= i < j < personas.len() ==> trimmed((#[trigger] personas[i]).name@) != trimmed(
                    (#[trigger] personas[j]).name@,
                )
        },
{
    lemma_accepted(personas);
}

/// Where `name` first stands in `names`.
pub fn position_of(names: &Vec<String>, name: &str) -> (at: Option<usize>)
    ensures
        match at {
            Some(at) => place_of(names.deep_view(), name@) == Some(at as int),
            None => place_of(names.deep_view(), name@) is None,
        },
{
    let ghost texts = names.deep_view();
    let len: usize = names.len();
    let mut at: usize = 0;
    while at < len
        invariant
            texts == names.deep_view(),
            len == texts.len(),
            at <= len,
            forall|i: int| 0 <= i < at ==> #[trigger] texts[i] != name@,
        decreases len - at,
    {
        assert(texts[at as int] == names@[at as int]@);
        if same_text(names[at].as_str(), name) {
            proof {
                lemma_place_of(texts, name@);
            }
            return Some(at);
        }
        at = at + 1;
    }
    proof {
        lemma_place_of(texts, name@);
    }
    None
}

fn index<P: Preset>(presets: &Vec<P>) -> (res: Result<Vec<String>, SubagentResolutionError>)
    ensures
        match res {
            Ok(names) => {
                &&& fault_from(presets@, 0) is None
                &&& names.deep_view() == preset_names(presets@)
            },
            Err(error) => fault_from(presets@, 0) == Some(error@),
        },
{
    let mut label = "subagent ".to_owned();
    label.append(P::kind_text());
    label.append(" name");
    let mut names: Vec<String> = Vec::new();
    let len: usize = presets.len();
    let mut at: usize = 0;
    while at < len
        invariant
            len == presets@.len(),
            at <= len,
            label@ == "subagent "@ + P::kind() + " name"@,
            names.deep_view() == preset_names(presets@).take(at as int),
            fault_from(presets@, at as int) == fault_from(presets@, 0),
        decreases len - at,
    {
        let name = normalized_required(presets[at].name_text(), label.as_str())?;
        if presets[at].is_uninstructed() {
            let mut message = "subagent ".to_owned();
            message.append(P::kind_text());
            message.append(" ");
            message.append(name.as_str());
            message.append(" has empty instructions");
            return Err(SubagentResolutionError::new(message));
        }
        proof {
            lemma_place_of(names.deep_view(), name@);
        }
        if position_of(&names, name.as_str()).is_some() {
            let mut message = "duplicate subagent ".to_owned();
            message.append(P::kind_text());
            message.append(": ");
            message.append(name.as_str());
            return Err(SubagentResolutionError::new(message));
        }
        names.push(name);
        at = at + 1;
    }
    Ok(names)
}

/// The names of the catalogue's roles, each at its role's place, or the first
/// fault in the roles.
pub fn index_roles(catalog: &SubagentCatalog) -> (res: Result<
    Vec<String>,
    SubagentResolutionError,
>)
    ensures
        match res {
            Ok(names) => {
                &&& roles_fault(catalog.roles@) is None
                &&& names.deep_view() == preset_names(catalog.roles@)
            },
            Err(error) => roles_fault(catalog.roles@) == Some(error@),
        },
{
    index(&catalog.roles)
}

/// The names of the catalogue's personas, each at its persona's place, or the
/// first fault in the personas.
pub fn index_personas(catalog: &SubagentCatalog) -> (res: Result<
    Vec<String>,
    SubagentResolutionError,
>)
    ensures
        match res {
            Ok(names) => {
                &&& personas_fault(catalog.personas@) is None
                &&& names.deep_view() == preset_names(catalog.personas@)
            },
            Err(error) => personas_fault(catalog.personas@) == Some(error@),
        },
{
    index(&catalog.personas)
}

} // verus!
