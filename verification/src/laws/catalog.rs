//! Laws of the catalogue.

use crate::catalog::{
    accepted_personas_are_unambiguous, accepted_roles_are_unambiguous, fault_at, fault_from,
    index_personas, index_roles, lemma_place_of, position_of, preset_names, Preset,
};
use crate::subagent::{SubagentCatalog, SubagentResolutionError};
use crate::text::trimmed;
use vstd::prelude::*;

verus! {

/// The position of a name is the first place at which it stands.
pub proof fn a_position_is_the_first_place(names: Vec<String>, name: &str, at: Option<usize>)
    requires
        call_ensures(position_of, (&names, name), at),
    ensures
        at matches Some(at) ==> at < names@.len() && names@[at as int]@ == name@,
        forall|i: int|
            0 <= i < (match at {
                Some(at) => at as int,
                None => names@.len() as int,
            }) ==> (#[trigger] names@[i])@ != name@,
{
    let texts = names.deep_view();
    lemma_place_of(texts, name@);
    assert(texts.len() == names@.len());
    assert forall|i: int|
        0 <= i < (match at {
            Some(at) => at as int,
            None => names@.len() as int,
        }) implies (#[trigger] names@[i])@ != name@ by {
        assert(texts[i] == names@[i]@);
    }
    if let Some(at) = at {
        assert(texts[at as int] == names@[at as int]@);
    }
}

/// The index of roles names each role at its place, without the white space around the
/// name. There is one exactly if no name is blank and none occurs twice.
pub proof fn roles_are_indexed_by_name(
    catalog: SubagentCatalog,
    res: Result<Vec<String>, SubagentResolutionError>,
)
    requires
        call_ensures(index_roles, (&catalog,), res),
    ensures
        res is Ok <==> {
            &&& forall|i: int|
                0 <= i < catalog.roles@.len() ==> trimmed(
                    (#[trigger] catalog.roles@[i]).name@,
                ).len() > 0
            &&& forall|i: int, j: int|
                0 <= i < j < catalog.roles@.len() ==> trimmed((#[trigger] catalog.roles@[i]).name@)
                    != trimmed((#[trigger] catalog.roles@[j]).name@)
        },
        res matches Ok(names) ==> {
            &&& names@.len() == catalog.roles@.len()
            &&& forall|i: int|
                0 <= i < names@.len() ==> (#[trigger] names@[i])@ == trimmed(
                    catalog.roles@[i].name@,
                )
        },
{
    accepted_roles_are_unambiguous(catalog.roles@);
    if let Ok(names) = res {
        let texts = names.deep_view();
        assert(texts.len() == names@.len());
        assert forall|i: int| 0 <= i < names@.len() implies (#[trigger] names@[i])@ == trimmed(
            catalog.roles@[i].name@,
        ) by {
            assert(texts[i] == names@[i]@);
            assert(preset_names(catalog.roles@)[i] == trimmed(catalog.roles@[i].name@));
        }
    }
}

/// The index of personas names each persona at its place, without the white space
/// around the name. There is one exactly if no name and no instructions are blank and
/// no name occurs twice.
pub proof fn personas_are_indexed_by_name(
    catalog: SubagentCatalog,
    res: Result<Vec<String>, SubagentResolutionError>,
)
    requires
        call_ensures(index_personas, (&catalog,), res),
    ensures
        res is Ok <==> {
            &&& forall|i: int|
                0 <= i < catalog.personas@.len() ==> trimmed(
                    (#[trigger] catalog.personas@[i]).name@,
                ).len() > 0 && trimmed(catalog.personas@[i].instructions@).len() > 0
            &&& forall|i: int, j: int|
                0 <= i < j < catalog.personas@.len() ==> trimmed(
                    (#[trigger] catalog.personas@[i]).name@,
                ) != trimmed((#[trigger] catalog.personas@[j]).name@)
        },
        res matches Ok(names) ==> {
            &&& names@.len() == catalog.personas@.len()
            &&& forall|i: int|
                0 <= i < names@.len() ==> (#[trigger] names@[i])@ == trimmed(
                    catalog.personas@[i].name@,
                )
        },
{
    accepted_personas_are_unambiguous(catalog.personas@);
    if let Ok(names) = res {
        let texts = names.deep_view();
        assert(texts.len() == names@.len());
        assert forall|i: int| 0 <= i < names@.len() implies (#[trigger] names@[i])@ == trimmed(
            catalog.personas@[i].name@,
        ) by {
            assert(texts[i] == names@[i]@);
            assert(preset_names(catalog.personas@)[i] == trimmed(catalog.personas@[i].name@));
        }
    }
}

proof fn lemma_fault_from<P: Preset>(presets: Seq<P>, from: int, at: int)
    requires
        0 <= from <= at < presets.len(),
        forall|i: int| from <= i < at ==> #[trigger] fault_at(presets, i) is None,
        fault_at(presets, at) is Some,
    ensures
        fault_from(presets, from) == fault_at(presets, at),
    decreases at - from,
{
    if from < at {
        assert(fault_at(presets, from) is None);
        lemma_fault_from(presets, from + 1, at);
    }
}

proof fn lemma_faultless_before<P: Preset>(presets: Seq<P>, at: int)
    requires
        0 <= at <= presets.len(),
        forall|i: int|
            0 <= i < at ==> (#[trigger] presets[i]).called().len() > 0
                && !presets[i].lacks_instructions(),
        forall|i: int, j: int|
            0 <= i < j < at ==> (#[trigger] presets[i]).called() != (
            #[trigger] presets[j]).called(),
    ensures
        forall|i: int| 0 <= i < at ==> #[trigger] fault_at(presets, i) is None,
{
    let names = preset_names(presets);
    assert forall|i: int| 0 <= i < at implies #[trigger] fault_at(presets, i) is None by {
        assert forall|j: int| 0 <= j < i implies #[trigger] names.take(i)[j]
            != presets[i].called() by {
            assert(presets[j].called() != presets[i].called());
        }
    }
}

/// The first role whose name is blank or was taken is named: by what it is, or by the
/// name that was taken. Roles after it make no difference.
pub proof fn the_first_faulty_role_is_named(
    catalog: SubagentCatalog,
    at: int,
    error: SubagentResolutionError,
    message: String,
)
    requires
        0 <= at < catalog.roles@.len(),
        forall|i: int|
            0 <= i < at ==> trimmed((#[trigger] catalog.roles@[i]).name@).len() > 0,
        forall|i: int, j: int|
            0 <= i < j < at ==> trimmed((#[trigger] catalog.roles@[i]).name@) != trimmed(
                (#[trigger] catalog.roles@[j]).name@,
            ),
        trimmed(catalog.roles@[at].name@).len() == 0 || exists|i: int|
            0 <= i < at && trimmed((#[trigger] catalog.roles@[i]).name@) == trimmed(
                catalog.roles@[at].name@,
            ),
        call_ensures(index_roles, (&catalog,), Err(error)),
        call_ensures(SubagentResolutionError::to_string, (&error,), message),
    ensures
        message@ == (if trimmed(catalog.roles@[at].name@).len() == 0 {
            "subagent role name must not be empty"@
        } else {
            "duplicate subagent role: "@ + trimmed(catalog.roles@[at].name@)
        }),
{
    let names = preset_names(catalog.roles@);
    let name = trimmed(catalog.roles@[at].name@);
    lemma_faultless_before(catalog.roles@, at);
    if name.len() > 0 {
        let i = choose|i: int|
            0 <= i < at && trimmed((#[trigger] catalog.roles@[i]).name@) == name;
        assert(names.take(at)[i] == name);
    }
    lemma_fault_from(catalog.roles@, 0, at);
    reveal_strlit("subagent ");
    reveal_strlit("role");
    reveal_strlit(" name");
    reveal_strlit(" must not be empty");
    reveal_strlit("subagent role name must not be empty");
    assert("subagent "@ + "role"@ + " name"@ + " must not be empty"@
        =~= "subagent role name must not be empty"@);
    reveal_strlit("duplicate subagent ");
    reveal_strlit(": ");
    reveal_strlit("duplicate subagent role: ");
    assert("duplicate subagent "@ + "role"@ + ": "@ =~= "duplicate subagent role: "@);
}

/// The first persona whose name is blank, that has no instructions or whose name was
/// taken is named, in that order of faults. Personas after it make no difference.
pub proof fn the_first_faulty_persona_is_named(
    catalog: SubagentCatalog,
    at: int,
    error: SubagentResolutionError,
    message: String,
)
    requires
        0 <= at < catalog.personas@.len(),
        forall|i: int|
            0 <= i < at ==> trimmed((#[trigger] catalog.personas@[i]).name@).len() > 0 && trimmed(
                catalog.personas@[i].instructions@,
            ).len() > 0,
        forall|i: int, j: int|
            0 <= i < j < at ==> trimmed((#[trigger] catalog.personas@[i]).name@) != trimmed(
                (#[trigger] catalog.personas@[j]).name@,
            ),
        trimmed(catalog.personas@[at].name@).len() == 0 || trimmed(
            catalog.personas@[at].instructions@,
        ).len() == 0 || exists|i: int|
            0 <= i < at && trimmed((#[trigger] catalog.personas@[i]).name@) == trimmed(
                catalog.personas@[at].name@,
            ),
        call_ensures(index_personas, (&catalog,), Err(error)),
        call_ensures(SubagentResolutionError::to_string, (&error,), message),
    ensures
        message@ == (if trimmed(catalog.personas@[at].name@).len() == 0 {
            "subagent persona name must not be empty"@
        } else if trimmed(catalog.personas@[at].instructions@).len() == 0 {
            "subagent persona "@ + trimmed(catalog.personas@[at].name@)
                + " has empty instructions"@
        } else {
            "duplicate subagent persona: "@ + trimmed(catalog.personas@[at].name@)
        }),
{
    let names = preset_names(catalog.personas@);
    let name = trimmed(catalog.personas@[at].name@);
    lemma_faultless_before(catalog.personas@, at);
    if name.len() > 0 && trimmed(catalog.personas@[at].instructions@).len() > 0 {
        let i = choose|i: int|
            0 <= i < at && trimmed((#[trigger] catalog.personas@[i]).name@) == name;
        assert(names.take(at)[i] == name);
    }
    lemma_fault_from(catalog.personas@, 0, at);
    reveal_strlit("subagent ");
    reveal_strlit("persona");
    reveal_strlit(" name");
    reveal_strlit(" must not be empty");
    reveal_strlit("subagent persona name must not be empty");
    assert("subagent "@ + "persona"@ + " name"@ + " must not be empty"@
        =~= "subagent persona name must not be empty"@);
    reveal_strlit(" ");
    reveal_strlit("subagent persona ");
    assert("subagent "@ + "persona"@ + " "@ =~= "subagent persona "@);
    reveal_strlit("duplicate subagent ");
    reveal_strlit(": ");
    reveal_strlit("duplicate subagent persona: ");
    assert("duplicate subagent "@ + "persona"@ + ": "@ =~= "duplicate subagent persona: "@);
}

/// Roles say nothing of personas, and personas nothing of roles: each index depends on
/// its own presets alone.
pub proof fn the_two_indexes_are_independent(
    a: SubagentCatalog,
    b: SubagentCatalog,
    x: Result<Vec<String>, SubagentResolutionError>,
    y: Result<Vec<String>, SubagentResolutionError>,
    v: Result<Vec<String>, SubagentResolutionError>,
    w: Result<Vec<String>, SubagentResolutionError>,
)
    requires
        call_ensures(index_roles, (&a,), x),
        call_ensures(index_roles, (&b,), y),
        call_ensures(index_personas, (&a,), v),
        call_ensures(index_personas, (&b,), w),
    ensures
        a.roles@ == b.roles@ ==> match (x, y) {
            (Ok(m), Ok(n)) => m.deep_view() == n.deep_view(),
            (Err(e), Err(f)) => e@ == f@,
            _ => false,
        },
        a.personas@ == b.personas@ ==> match (v, w) {
            (Ok(m), Ok(n)) => m.deep_view() == n.deep_view(),
            (Err(e), Err(f)) => e@ == f@,
            _ => false,
        },
{
}

} // verus!
