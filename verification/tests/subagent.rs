use mybuddy_runtime::{
    capability_intersection, capability_name, effort_name, index_personas, index_roles,
    isolation_name, normalized_optional, normalized_required, override_request, parse_effort,
    resolve_subagent, CapabilityIntersection, EffectiveOverrides, Effort, OverrideRequest,
    PersonaLayer, ResolvedSubagent, RoleLayer, SpawnOverrides, SubagentCapability,
    SubagentCatalog, SubagentIsolation, SubagentParentDefaults, SubagentPersonaPreset,
    SubagentResolutionError, SubagentRolePreset, SubagentSpec,
};

fn parent_defaults() -> SubagentParentDefaults {
    SubagentParentDefaults {
        model: "user-selected-model".into(),
        reasoning_effort: Some(Effort::Medium),
    }
}

fn capability_by_name(name: &str) -> Option<SubagentCapability> {
    [
        SubagentCapability::ReadOnly,
        SubagentCapability::ReadWrite,
        SubagentCapability::Execute,
        SubagentCapability::All,
    ]
    .into_iter()
    .find(|capability| capability_name(*capability) == name)
}

/// An engine that lays spawn over role over persona.
fn layered(request: &OverrideRequest) -> EffectiveOverrides {
    let persona = request.overrides.persona.as_ref().and_then(|name| {
        request
            .personas
            .iter()
            .find(|persona| &persona.name == name)
    });
    let role = request.role.as_ref();
    let isolation = request
        .overrides
        .isolation
        .map(isolation_name)
        .or(role.and_then(|role| role.default_isolation.as_deref()))
        .or(persona.and_then(|persona| persona.default_isolation.as_deref()));
    EffectiveOverrides {
        model: request
            .overrides
            .model
            .clone()
            .or(role.and_then(|role| role.model.clone()))
            .or(persona.and_then(|persona| persona.model.clone())),
        reasoning_effort: request
            .overrides
            .reasoning_effort
            .clone()
            .or(role.and_then(|role| role.reasoning_effort.clone()))
            .or(persona.and_then(|persona| persona.reasoning_effort.clone())),
        capability_mode: narrower(
            request.overrides.capability_mode,
            role.and_then(|role| role.default_capability_mode.as_deref())
                .and_then(capability_by_name),
        ),
        isolation: if isolation == Some("worktree") {
            SubagentIsolation::Worktree
        } else {
            SubagentIsolation::Shared
        },
        role_name: request.role_name.clone(),
        persona: request.overrides.persona.clone(),
        persona_instructions: persona.map(|persona| persona.instructions.clone()),
        persona_error: None,
    }
}

fn rank(capability: SubagentCapability) -> u8 {
    match capability {
        SubagentCapability::ReadOnly => 0,
        SubagentCapability::ReadWrite => 1,
        SubagentCapability::Execute => 2,
        SubagentCapability::All => 3,
    }
}

fn narrower(
    a: Option<SubagentCapability>,
    b: Option<SubagentCapability>,
) -> Option<SubagentCapability> {
    match (a, b) {
        (Some(a), Some(b)) => Some(if rank(a) <= rank(b) { a } else { b }),
        (a, None) => a,
        (None, b) => b,
    }
}

fn resolve(
    spec: &SubagentSpec,
    catalog: &SubagentCatalog,
    parent: &SubagentParentDefaults,
) -> Result<ResolvedSubagent, SubagentResolutionError> {
    let effective = layered(&override_request(spec, catalog, parent)?);
    let asked = capability_intersection(catalog, &effective)?;
    let mode = narrower(asked.resolved, asked.ceiling);
    resolve_subagent(spec, catalog, parent, effective, mode)
}

fn role(name: &str) -> SubagentRolePreset {
    SubagentRolePreset {
        name: name.into(),
        description: String::new(),
        model: None,
        reasoning_effort: None,
        capability_ceiling: None,
        isolation: None,
        instructions: None,
    }
}

fn persona(name: &str) -> SubagentPersonaPreset {
    SubagentPersonaPreset {
        name: name.into(),
        model: None,
        reasoning_effort: None,
        isolation: None,
        instructions: "Be brief.".into(),
    }
}

fn silent_answer() -> EffectiveOverrides {
    EffectiveOverrides {
        model: None,
        reasoning_effort: None,
        capability_mode: None,
        isolation: SubagentIsolation::Shared,
        role_name: None,
        persona: None,
        persona_instructions: None,
        persona_error: None,
    }
}

fn research_catalog() -> SubagentCatalog {
    SubagentCatalog {
        roles: vec![SubagentRolePreset {
            name: "research".into(),
            description: "Research a bounded question".into(),
            model: Some("role-model".into()),
            reasoning_effort: Some(Effort::High),
            capability_ceiling: Some(SubagentCapability::All),
            isolation: Some(SubagentIsolation::Worktree),
            instructions: Some("Collect evidence before concluding.".into()),
        }],
        personas: vec![SubagentPersonaPreset {
            name: "concise".into(),
            model: Some("persona-model".into()),
            reasoning_effort: Some(Effort::Low),
            isolation: Some(SubagentIsolation::Shared),
            instructions: "State the answer first.".into(),
        }],
        capability_ceiling: Some(SubagentCapability::ReadOnly),
    }
}

#[test]
fn subagent_resolution_uses_grok_precedence_and_policy_ceiling() {
    let catalog = research_catalog();
    let plan = resolve(
        &SubagentSpec {
            role: Some("research".into()),
            persona: Some("concise".into()),
            model: Some("explicit-model".into()),
            reasoning_effort: Some(Effort::Max),
            capability_mode: Some(SubagentCapability::All),
            isolation: None,
        },
        &catalog,
        &parent_defaults(),
    )
    .expect("valid plan");

    assert_eq!(plan.model, "explicit-model");
    assert_eq!(plan.reasoning_effort, Some(Effort::Max));
    assert_eq!(plan.capability_mode, Some(SubagentCapability::ReadOnly));
    assert_eq!(plan.isolation, SubagentIsolation::Worktree);
    assert_eq!(plan.role.as_deref(), Some("research"));
    assert_eq!(plan.persona.as_deref(), Some("concise"));
    assert_eq!(
        plan.instructions,
        "Collect evidence before concluding.\n\nState the answer first."
    );
}

#[test]
fn subagent_resolution_inherits_the_selected_provider_model() {
    let plan = resolve(
        &SubagentSpec::default(),
        &SubagentCatalog::default(),
        &parent_defaults(),
    )
    .expect("empty catalogue is valid");

    assert_eq!(plan.model, "user-selected-model");
    assert_eq!(plan.reasoning_effort, Some(Effort::Medium));
    assert_eq!(plan.capability_mode, None);
    assert_eq!(plan.isolation, SubagentIsolation::Shared);
    assert!(plan.instructions.is_empty());
}

#[test]
fn subagent_resolution_fails_closed_for_unknown_or_duplicate_presets() {
    let unknown = resolve(
        &SubagentSpec {
            role: Some("missing".into()),
            ..SubagentSpec::default()
        },
        &SubagentCatalog::default(),
        &parent_defaults(),
    )
    .expect_err("unknown roles must not silently fall back");
    assert!(unknown.to_string().contains("unknown subagent role"));

    let duplicate = resolve(
        &SubagentSpec::default(),
        &SubagentCatalog {
            roles: vec![
                SubagentRolePreset {
                    name: "review".into(),
                    description: String::new(),
                    model: None,
                    reasoning_effort: None,
                    capability_ceiling: None,
                    isolation: None,
                    instructions: None,
                },
                SubagentRolePreset {
                    name: "review".into(),
                    description: String::new(),
                    model: None,
                    reasoning_effort: None,
                    capability_ceiling: None,
                    isolation: None,
                    instructions: None,
                },
            ],
            ..SubagentCatalog::default()
        },
        &parent_defaults(),
    )
    .expect_err("duplicate names make policy ambiguous");
    assert!(duplicate.to_string().contains("duplicate subagent role"));
}

#[test]
fn precedence_falls_from_role_to_persona_to_parent() {
    let mut catalog = research_catalog();
    let spec = SubagentSpec {
        role: Some("research".into()),
        persona: Some("concise".into()),
        ..SubagentSpec::default()
    };
    let plan = resolve(&spec, &catalog, &parent_defaults()).expect("valid plan");
    assert_eq!(plan.model, "role-model");
    assert_eq!(plan.reasoning_effort, Some(Effort::High));
    catalog.roles[0].model = None;
    catalog.roles[0].reasoning_effort = None;
    let plan = resolve(&spec, &catalog, &parent_defaults()).expect("valid plan");
    assert_eq!(plan.model, "persona-model");
    assert_eq!(plan.reasoning_effort, Some(Effort::Low));
    catalog.personas[0].model = None;
    catalog.personas[0].reasoning_effort = None;
    let plan = resolve(&spec, &catalog, &parent_defaults()).expect("valid plan");
    assert_eq!(plan.model, "user-selected-model");
    assert_eq!(plan.reasoning_effort, Some(Effort::Medium));
}

#[test]
fn isolation_falls_from_spawn_to_role_to_persona_to_shared() {
    let mut catalog = research_catalog();
    catalog.personas[0].isolation = Some(SubagentIsolation::Worktree);
    let mut spec = SubagentSpec {
        role: Some("research".into()),
        persona: Some("concise".into()),
        isolation: Some(SubagentIsolation::Shared),
        ..SubagentSpec::default()
    };
    let isolation = |spec: &SubagentSpec, catalog: &SubagentCatalog| {
        resolve(spec, catalog, &parent_defaults())
            .expect("valid plan")
            .isolation
    };
    assert_eq!(isolation(&spec, &catalog), SubagentIsolation::Shared);
    spec.isolation = None;
    assert_eq!(isolation(&spec, &catalog), SubagentIsolation::Worktree);
    catalog.roles[0].isolation = Some(SubagentIsolation::Shared);
    assert_eq!(isolation(&spec, &catalog), SubagentIsolation::Shared);
    catalog.roles[0].isolation = None;
    assert_eq!(isolation(&spec, &catalog), SubagentIsolation::Worktree);
    catalog.personas[0].isolation = None;
    assert_eq!(isolation(&spec, &catalog), SubagentIsolation::Shared);
}

#[test]
fn a_ceiling_reduces_the_capability_and_nothing_else() {
    let mut catalog = research_catalog();
    catalog.capability_ceiling = None;
    let spec = SubagentSpec {
        role: Some("research".into()),
        persona: Some("concise".into()),
        capability_mode: Some(SubagentCapability::Execute),
        ..SubagentSpec::default()
    };
    let free = resolve(&spec, &catalog, &parent_defaults()).expect("valid plan");
    assert_eq!(free.capability_mode, Some(SubagentCapability::Execute));
    for (ceiling, left) in [
        (SubagentCapability::ReadOnly, SubagentCapability::ReadOnly),
        (SubagentCapability::ReadWrite, SubagentCapability::ReadWrite),
        (SubagentCapability::Execute, SubagentCapability::Execute),
        (SubagentCapability::All, SubagentCapability::Execute),
    ] {
        catalog.capability_ceiling = Some(ceiling);
        assert_eq!(
            resolve(&spec, &catalog, &parent_defaults()).expect("valid plan"),
            ResolvedSubagent {
                capability_mode: Some(left),
                ..free.clone()
            }
        );
    }
    let unknown = SubagentSpec {
        role: Some("missing".into()),
        ..SubagentSpec::default()
    };
    let capped = refusal(&unknown, &catalog, &parent_defaults());
    catalog.capability_ceiling = None;
    assert_eq!(refusal(&unknown, &catalog, &parent_defaults()), capped);
}

#[test]
fn plans_depend_on_neither_padding_nor_order_nor_unselected_presets() {
    let mut catalog = research_catalog();
    catalog.roles.push(role("build"));
    catalog.personas.push(persona("plain"));
    let spec = SubagentSpec {
        role: Some("research".into()),
        persona: Some("concise".into()),
        model: Some("explicit-model".into()),
        ..SubagentSpec::default()
    };
    let parent = parent_defaults();
    let plan = resolve(&spec, &catalog, &parent).expect("valid plan");
    assert_eq!(plan, resolve(&spec, &catalog, &parent).expect("valid plan"));

    let padded_spec = SubagentSpec {
        role: Some("\tresearch".into()),
        persona: Some(" concise ".into()),
        model: Some("explicit-model\u{2003}".into()),
        ..SubagentSpec::default()
    };
    let mut padded = catalog.clone();
    padded.roles[0].name = " research ".into();
    padded.roles[1].name = "build\n".into();
    padded.personas[0].name = "concise\u{a0}".into();
    let padded_parent = SubagentParentDefaults {
        model: "  user-selected-model\r\n".into(),
        ..parent_defaults()
    };
    assert_eq!(
        plan,
        resolve(&padded_spec, &padded, &padded_parent).expect("valid plan")
    );

    padded.roles.reverse();
    padded.personas.reverse();
    assert_eq!(
        plan,
        resolve(&padded_spec, &padded, &padded_parent).expect("valid plan")
    );

    padded.roles.insert(0, role("other"));
    padded.personas.insert(1, persona("another"));
    assert_eq!(
        plan,
        resolve(&padded_spec, &padded, &padded_parent).expect("valid plan")
    );
}

#[test]
fn the_engine_is_asked_for_what_the_spawn_names() {
    let mut catalog = research_catalog();
    catalog.personas.push(persona(" plain "));
    let request = override_request(
        &SubagentSpec {
            role: Some(" research\n".into()),
            persona: Some("concise".into()),
            model: Some("\texplicit-model ".into()),
            reasoning_effort: Some(Effort::Off),
            capability_mode: Some(SubagentCapability::Execute),
            isolation: Some(SubagentIsolation::Shared),
        },
        &catalog,
        &parent_defaults(),
    )
    .expect("valid spawn");
    assert_eq!(
        request,
        OverrideRequest {
            overrides: SpawnOverrides {
                model: Some("explicit-model".into()),
                reasoning_effort: Some("none".into()),
                persona: Some("concise".into()),
                capability_mode: Some(SubagentCapability::Execute),
                isolation: Some(SubagentIsolation::Shared),
            },
            role: Some(RoleLayer {
                description: "Research a bounded question".into(),
                default_capability_mode: Some("all".into()),
                model: Some("role-model".into()),
                reasoning_effort: Some("high".into()),
                default_isolation: Some("worktree".into()),
            }),
            role_name: Some("research".into()),
            personas: vec![
                PersonaLayer {
                    name: "concise".into(),
                    instructions: "State the answer first.".into(),
                    model: Some("persona-model".into()),
                    reasoning_effort: Some("low".into()),
                    default_isolation: Some("none".into()),
                },
                PersonaLayer {
                    name: "plain".into(),
                    instructions: "Be brief.".into(),
                    model: None,
                    reasoning_effort: None,
                    default_isolation: None,
                },
            ],
        }
    );
}

fn refusal(
    spec: &SubagentSpec,
    catalog: &SubagentCatalog,
    parent: &SubagentParentDefaults,
) -> String {
    let early = override_request(spec, catalog, parent)
        .expect_err("the spawn is refused")
        .to_string();
    let late = resolve_subagent(spec, catalog, parent, silent_answer(), None)
        .expect_err("the plan is refused")
        .to_string();
    assert_eq!(early, late);
    early
}

#[test]
fn faults_are_named_in_order() {
    let mut parent = parent_defaults();
    parent.model = " ".into();
    let mut catalog = SubagentCatalog {
        roles: vec![role("a"), role(" "), role("a")],
        personas: vec![persona("p"), persona(""), persona(" p")],
        capability_ceiling: None,
    };
    let mut spec = SubagentSpec {
        role: Some("".into()),
        persona: Some("\n".into()),
        model: Some(" ".into()),
        ..SubagentSpec::default()
    };
    assert_eq!(refusal(&spec, &catalog, &parent), "parent model must not be empty");
    let parent = parent_defaults();
    assert_eq!(refusal(&spec, &catalog, &parent), "subagent role name must not be empty");
    catalog.roles[1].name = "\u{a0}a".into();
    assert_eq!(refusal(&spec, &catalog, &parent), "duplicate subagent role: a");
    catalog.roles.truncate(1);
    assert_eq!(refusal(&spec, &catalog, &parent), "subagent persona name must not be empty");
    catalog.personas[1].name = " q".into();
    catalog.personas[1].instructions = "\t".into();
    assert_eq!(
        refusal(&spec, &catalog, &parent),
        "subagent persona q has empty instructions"
    );
    catalog.personas[1].instructions = "x".into();
    assert_eq!(refusal(&spec, &catalog, &parent), "duplicate subagent persona: p");
    catalog.personas.truncate(2);
    assert_eq!(refusal(&spec, &catalog, &parent), "role must not be empty");
    spec.role = Some(" b ".into());
    assert_eq!(refusal(&spec, &catalog, &parent), "persona must not be empty");
    spec.persona = Some("r".into());
    assert_eq!(refusal(&spec, &catalog, &parent), "unknown subagent role: b");
    spec.role = Some(" a ".into());
    assert_eq!(refusal(&spec, &catalog, &parent), "unknown subagent persona: r");
    spec.persona = Some("q".into());
    assert_eq!(refusal(&spec, &catalog, &parent), "subagent model must not be empty");
    spec.model = None;
    assert!(override_request(&spec, &catalog, &parent).is_ok());
}

#[test]
fn a_persona_that_the_engine_refuses_is_refused() {
    let catalog = SubagentCatalog::default();
    let effective = EffectiveOverrides {
        persona_error: Some("persona is broken".into()),
        ..silent_answer()
    };
    assert_eq!(
        capability_intersection(&catalog, &effective)
            .expect_err("refused")
            .to_string(),
        "persona is broken"
    );
    assert_eq!(
        resolve_subagent(
            &SubagentSpec::default(),
            &catalog,
            &parent_defaults(),
            effective,
            None
        )
        .expect_err("refused")
        .to_string(),
        "persona is broken"
    );
}

#[test]
fn the_intersection_is_asked_for_the_resolved_mode_and_the_ceiling() {
    let effective = EffectiveOverrides {
        capability_mode: Some(SubagentCapability::Execute),
        ..silent_answer()
    };
    assert_eq!(
        capability_intersection(&research_catalog(), &effective).expect("no error"),
        CapabilityIntersection {
            resolved: Some(SubagentCapability::Execute),
            ceiling: Some(SubagentCapability::ReadOnly),
        }
    );
}

#[test]
fn a_plan_takes_the_answers_as_they_are() {
    let plan = resolve_subagent(
        &SubagentSpec::default(),
        &SubagentCatalog::default(),
        &SubagentParentDefaults {
            model: "  padded ".into(),
            reasoning_effort: Some(Effort::Low),
        },
        EffectiveOverrides {
            model: None,
            reasoning_effort: Some("extreme".into()),
            capability_mode: Some(SubagentCapability::All),
            isolation: SubagentIsolation::Worktree,
            role_name: Some("r".into()),
            persona: Some("p".into()),
            persona_instructions: Some("  Speak.  ".into()),
            persona_error: None,
        },
        Some(SubagentCapability::ReadWrite),
    )
    .expect("valid plan");
    assert_eq!(
        plan,
        ResolvedSubagent {
            model: "padded".into(),
            reasoning_effort: Some(Effort::Low),
            capability_mode: Some(SubagentCapability::ReadWrite),
            isolation: SubagentIsolation::Worktree,
            role: Some("r".into()),
            persona: Some("p".into()),
            instructions: "Speak.".into(),
        }
    );
}

#[test]
fn empty_instruction_layers_leave_no_trace() {
    let mut catalog = research_catalog();
    let spec = SubagentSpec {
        role: Some("research".into()),
        ..SubagentSpec::default()
    };
    let plan = resolve(&spec, &catalog, &parent_defaults()).expect("valid plan");
    assert_eq!(plan.instructions, "Collect evidence before concluding.");
    catalog.roles[0].instructions = Some("\n \n".into());
    let plan = resolve(&spec, &catalog, &parent_defaults()).expect("valid plan");
    assert_eq!(plan.instructions, "");
}

#[test]
fn effort_names_are_read_back() {
    let names = [
        (Effort::Off, "none"),
        (Effort::Minimal, "minimal"),
        (Effort::Low, "low"),
        (Effort::Medium, "medium"),
        (Effort::High, "high"),
        (Effort::Xhigh, "xhigh"),
        (Effort::Max, "max"),
    ];
    for (effort, name) in names {
        assert_eq!(effort_name(effort), name);
        assert_eq!(parse_effort(name), Some(effort));
    }
    for name in ["", "None", "HIGH", "max ", "ultra"] {
        assert_eq!(parse_effort(name), None);
    }
}

#[test]
fn capabilities_and_isolation_modes_have_names() {
    assert_eq!(capability_name(SubagentCapability::ReadOnly), "read-only");
    assert_eq!(capability_name(SubagentCapability::ReadWrite), "read-write");
    assert_eq!(capability_name(SubagentCapability::Execute), "execute");
    assert_eq!(capability_name(SubagentCapability::All), "all");
    assert_eq!(isolation_name(SubagentIsolation::Shared), "none");
    assert_eq!(isolation_name(SubagentIsolation::Worktree), "worktree");
}

#[test]
fn catalogues_are_indexed_by_trimmed_names() {
    let catalog = SubagentCatalog {
        roles: vec![role(" a"), role("b\t")],
        personas: vec![persona("p "), persona("q")],
        capability_ceiling: None,
    };
    assert_eq!(index_roles(&catalog).expect("roles"), ["a", "b"]);
    assert_eq!(index_personas(&catalog).expect("personas"), ["p", "q"]);
}

#[test]
fn values_are_normalized() {
    assert_eq!(normalized_required(" x ", "label").expect("given"), "x");
    assert_eq!(
        normalized_required(" ", "label").expect_err("blank").to_string(),
        "label must not be empty"
    );
    assert_eq!(normalized_optional(None, "label").expect("absent"), None);
    assert_eq!(
        normalized_optional(Some("x "), "label").expect("given"),
        Some("x".to_string())
    );
    assert_eq!(
        normalized_optional(Some(""), "label").expect_err("blank").to_string(),
        "label must not be empty"
    );
}
