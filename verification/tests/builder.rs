use capabilities::{
    ClientCapabilities, ClientCapabilitiesBuilder, ElicitationCapability,
    ExperimentalCapabilities, FormElicitationCapability, JsonObject, PromptsCapability,
    ResourcesCapability, RootsCapabilities, ServerCapabilities, ServerCapabilitiesBuilder,
    TaskRequestMap, TasksCapability, ToolsCapability, UrlElicitationCapability,
};

fn sample_object(key: &str, flag: bool) -> JsonObject {
    let mut object = JsonObject::new();
    object.insert(key.to_string(), serde_json::Value::Bool(flag));
    object
}

fn sample_experimental() -> ExperimentalCapabilities {
    let mut map = ExperimentalCapabilities::new();
    map.insert("tracing".to_string(), sample_object("verbose", true));
    map.insert("preview".to_string(), JsonObject::new());
    map
}

fn sample_tasks() -> TasksCapability {
    let mut requests = TaskRequestMap::new();
    requests.insert("tools.call".to_string(), true);
    requests.insert("sampling.createMessage".to_string(), false);
    TasksCapability { requests: Some(requests), list: Some(true), cancel: None }
}

#[test]
fn test_builder() {
    let builder = <ServerCapabilitiesBuilder>::default()
        .enable_logging()
        .enable_experimental()
        .enable_prompts()
        .enable_resources()
        .enable_tools()
        .enable_tool_list_changed();
    assert_eq!(builder.logging, Some(JsonObject::default()));
    assert_eq!(builder.prompts, Some(PromptsCapability::default()));
    assert_eq!(builder.resources, Some(ResourcesCapability::default()));
    assert_eq!(
        builder.tools,
        Some(ToolsCapability {
            list_changed: Some(true),
        })
    );
    assert_eq!(
        builder.experimental,
        Some(ExperimentalCapabilities::default())
    );
    let client_builder = <ClientCapabilitiesBuilder>::default()
        .enable_experimental()
        .enable_roots()
        .enable_roots_list_changed()
        .enable_sampling();
    assert_eq!(
        client_builder.experimental,
        Some(ExperimentalCapabilities::default())
    );
    assert_eq!(
        client_builder.roots,
        Some(RootsCapabilities {
            list_changed: Some(true),
        })
    );
}

#[test]
fn server_scenario_builds_expected_record() {
    let record = ServerCapabilities::builder()
        .enable_logging()
        .enable_experimental()
        .enable_prompts()
        .enable_resources()
        .enable_tools()
        .enable_tool_list_changed()
        .build();
    assert_eq!(
        record,
        ServerCapabilities {
            experimental: Some(ExperimentalCapabilities::new()),
            logging: Some(JsonObject::new()),
            completions: None,
            prompts: Some(PromptsCapability { list_changed: None }),
            resources: Some(ResourcesCapability { subscribe: None, list_changed: None }),
            tools: Some(ToolsCapability { list_changed: Some(true) }),
            tasks: None,
        }
    );
}

#[test]
fn client_form_only_scenario() {
    let record = <ClientCapabilitiesBuilder>::default().enable_elicitation_form_only().build();
    assert_eq!(
        record.elicitation,
        Some(ElicitationCapability {
            form: Some(FormElicitationCapability { schema_validation: None }),
            url: None,
            schema_validation: None,
        })
    );
    assert_eq!(record.experimental, None);
    assert_eq!(record.roots, None);
    assert_eq!(record.sampling, None);
    assert_eq!(record.tasks, None);
}

#[test]
fn fresh_server_builder_builds_default() {
    let built = ServerCapabilities::builder().build();
    assert_eq!(built, ServerCapabilities::default());
    assert_eq!(
        built,
        ServerCapabilities {
            experimental: None,
            logging: None,
            completions: None,
            prompts: None,
            resources: None,
            tools: None,
            tasks: None,
        }
    );
    assert_eq!(<ServerCapabilitiesBuilder>::default().build(), built);
}

#[test]
fn fresh_client_builder_builds_default() {
    let built = ClientCapabilities::builder().build();
    assert_eq!(built, ClientCapabilities::default());
    assert_eq!(
        built,
        ClientCapabilities {
            experimental: None,
            roots: None,
            sampling: None,
            elicitation: None,
            tasks: None,
        }
    );
    assert_eq!(<ClientCapabilitiesBuilder>::default().build(), built);
}

#[test]
fn server_enable_sets_exactly_the_enabled_fields() {
    let record = ServerCapabilities::builder().enable_completions().enable_tasks().build();
    assert_eq!(record.completions, Some(JsonObject::new()));
    assert_eq!(
        record.tasks,
        Some(TasksCapability { requests: None, list: None, cancel: None })
    );
    assert_eq!(record.experimental, None);
    assert_eq!(record.logging, None);
    assert_eq!(record.prompts, None);
    assert_eq!(record.resources, None);
    assert_eq!(record.tools, None);
}

#[test]
fn server_enable_each_field_gives_its_default() {
    let record = ServerCapabilities::builder()
        .enable_experimental()
        .enable_logging()
        .enable_completions()
        .enable_prompts()
        .enable_resources()
        .enable_tools()
        .enable_tasks()
        .build();
    assert_eq!(record.experimental, Some(ExperimentalCapabilities::default()));
    assert_eq!(record.experimental.as_ref().map(|m| m.len()), Some(0));
    assert_eq!(record.logging, Some(JsonObject::default()));
    assert_eq!(record.logging.as_ref().map(|o| o.len()), Some(0));
    assert_eq!(record.completions, Some(JsonObject::default()));
    assert_eq!(record.completions.as_ref().map(|o| o.len()), Some(0));
    assert_eq!(record.prompts, Some(PromptsCapability::default()));
    assert_eq!(record.resources, Some(ResourcesCapability::default()));
    assert_eq!(record.tools, Some(ToolsCapability::default()));
    assert_eq!(record.tasks, Some(TasksCapability::default()));
}

#[test]
fn client_enable_each_field_gives_its_default() {
    let record = ClientCapabilities::builder()
        .enable_experimental()
        .enable_roots()
        .enable_sampling()
        .enable_elicitation()
        .enable_tasks()
        .build();
    assert_eq!(record.experimental, Some(ExperimentalCapabilities::default()));
    assert_eq!(record.roots, Some(RootsCapabilities { list_changed: None }));
    assert_eq!(record.sampling, Some(JsonObject::default()));
    assert_eq!(record.sampling.as_ref().map(|o| o.is_empty()), Some(true));
    assert_eq!(
        record.elicitation,
        Some(ElicitationCapability { form: None, url: None, schema_validation: None })
    );
    assert_eq!(
        record.tasks,
        Some(TasksCapability { requests: None, list: None, cancel: None })
    );
}

#[test]
fn server_enable_with_keeps_the_value_given() {
    let record = ServerCapabilities::builder()
        .enable_experimental_with(sample_experimental())
        .enable_logging_with(sample_object("level", true))
        .enable_completions_with(sample_object("fuzzy", false))
        .enable_prompts_with(PromptsCapability { list_changed: Some(false) })
        .enable_resources_with(ResourcesCapability {
            subscribe: Some(false),
            list_changed: Some(true),
        })
        .enable_tools_with(ToolsCapability { list_changed: Some(true) })
        .enable_tasks_with(sample_tasks())
        .build();
    assert_eq!(record.experimental, Some(sample_experimental()));
    assert_eq!(record.logging, Some(sample_object("level", true)));
    assert_eq!(record.completions, Some(sample_object("fuzzy", false)));
    assert_eq!(record.prompts, Some(PromptsCapability { list_changed: Some(false) }));
    assert_eq!(
        record.resources,
        Some(ResourcesCapability { subscribe: Some(false), list_changed: Some(true) })
    );
    assert_eq!(record.tools, Some(ToolsCapability { list_changed: Some(true) }));
    assert_eq!(record.tasks, Some(sample_tasks()));
    assert_ne!(record.logging, Some(JsonObject::new()));
}

#[test]
fn client_enable_with_keeps_the_value_given() {
    let record = ClientCapabilities::builder()
        .enable_experimental_with(sample_experimental())
        .enable_roots_with(RootsCapabilities { list_changed: Some(false) })
        .enable_sampling_with(sample_object("tools", true))
        .enable_elicitation_with(ElicitationCapability::url_only())
        .enable_tasks_with(sample_tasks())
        .build();
    assert_eq!(record.experimental, Some(sample_experimental()));
    assert_eq!(record.roots, Some(RootsCapabilities { list_changed: Some(false) }));
    assert_eq!(record.sampling, Some(sample_object("tools", true)));
    assert_eq!(
        record.elicitation,
        Some(ElicitationCapability {
            form: None,
            url: Some(UrlElicitationCapability {}),
            schema_validation: None,
        })
    );
    assert_eq!(record.tasks, Some(sample_tasks()));
}

#[test]
fn server_enable_order_does_not_matter() {
    let one = ServerCapabilities::builder().enable_logging().enable_tools().build();
    let other = ServerCapabilities::builder().enable_tools().enable_logging().build();
    assert_eq!(one, other);
    let one = ServerCapabilities::builder()
        .enable_tasks_with(sample_tasks())
        .enable_experimental_with(sample_experimental())
        .enable_prompts()
        .build();
    let other = ServerCapabilities::builder()
        .enable_prompts()
        .enable_experimental_with(sample_experimental())
        .enable_tasks_with(sample_tasks())
        .build();
    assert_eq!(one, other);
}

#[test]
fn client_enable_order_does_not_matter() {
    let one = ClientCapabilities::builder()
        .enable_sampling_with(sample_object("context", true))
        .enable_elicitation_both()
        .enable_roots()
        .build();
    let other = ClientCapabilities::builder()
        .enable_roots()
        .enable_elicitation_both()
        .enable_sampling_with(sample_object("context", true))
        .build();
    assert_eq!(one, other);
}

#[test]
fn resources_sub_flags_are_independent() {
    let subscribed = ServerCapabilities::builder().enable_resources().enable_resources_subscribe();
    assert_eq!(
        subscribed.resources,
        Some(ResourcesCapability { subscribe: Some(true), list_changed: None })
    );
    let both = subscribed.enable_resources_list_changed().build();
    assert_eq!(
        both.resources,
        Some(ResourcesCapability { subscribe: Some(true), list_changed: Some(true) })
    );
    let listed = ServerCapabilities::builder()
        .enable_resources()
        .enable_resources_list_changed()
        .build();
    assert_eq!(
        listed.resources,
        Some(ResourcesCapability { subscribe: None, list_changed: Some(true) })
    );
    let kept = ServerCapabilities::builder()
        .enable_resources_with(ResourcesCapability { subscribe: Some(false), list_changed: None })
        .enable_resources_list_changed()
        .build();
    assert_eq!(
        kept.resources,
        Some(ResourcesCapability { subscribe: Some(false), list_changed: Some(true) })
    );
}

#[test]
fn server_refinements_leave_other_capabilities_alone() {
    let record = ServerCapabilities::builder()
        .enable_prompts()
        .enable_tools()
        .enable_logging_with(sample_object("level", false))
        .enable_prompts_list_changed()
        .build();
    assert_eq!(record.prompts, Some(PromptsCapability { list_changed: Some(true) }));
    assert_eq!(record.tools, Some(ToolsCapability { list_changed: None }));
    assert_eq!(record.logging, Some(sample_object("level", false)));
    assert_eq!(record.resources, None);
    assert_eq!(record.experimental, None);
    assert_eq!(record.completions, None);
    assert_eq!(record.tasks, None);
}

#[test]
fn refinement_on_a_hand_made_builder_without_the_capability_changes_nothing() {
    let builder = ServerCapabilities::builder().enable_tools();
    let emptied = ServerCapabilitiesBuilder { tools: None, ..builder };
    let record = emptied.enable_tool_list_changed().build();
    assert_eq!(record, ServerCapabilities::default());
}

#[test]
fn client_elicitation_refinements() {
    let both = ClientCapabilities::builder()
        .enable_elicitation_form_only()
        .enable_elicitation_url_mode()
        .build();
    assert_eq!(both.elicitation, Some(ElicitationCapability::both()));
    assert_eq!(
        both,
        ClientCapabilities::builder().enable_elicitation_both().build()
    );
    let flagged = ClientCapabilities::builder()
        .enable_elicitation()
        .enable_elicitation_schema_validation()
        .build();
    assert_eq!(
        flagged.elicitation,
        Some(ElicitationCapability { form: None, url: None, schema_validation: Some(true) })
    );
    let all = ClientCapabilities::builder()
        .enable_elicitation_form_only()
        .enable_elicitation_schema_validation()
        .enable_elicitation_url_mode()
        .build();
    assert_eq!(
        all.elicitation,
        Some(ElicitationCapability {
            form: Some(FormElicitationCapability { schema_validation: None }),
            url: Some(UrlElicitationCapability {}),
            schema_validation: Some(true),
        })
    );
}

#[test]
fn records_come_from_builders() {
    let builder = ServerCapabilities::builder().enable_tools().enable_tool_list_changed();
    let record: ServerCapabilities = builder.into();
    assert_eq!(
        record,
        ServerCapabilities {
            tools: Some(ToolsCapability { list_changed: Some(true) }),
            ..ServerCapabilities::default()
        }
    );
    let record = ClientCapabilities::from(ClientCapabilities::builder().enable_sampling());
    assert_eq!(
        record,
        ClientCapabilities { sampling: Some(JsonObject::new()), ..ClientCapabilities::default() }
    );
}
