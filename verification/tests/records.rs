use capabilities::{
    ElicitationCapability, FormElicitationCapability, PromptsCapability, ResourcesCapability,
    RootsCapabilities, TasksCapability, ToolsCapability, UrlElicitationCapability,
};

#[test]
fn sub_capabilities_default_to_all_absent() {
    assert_eq!(PromptsCapability::default(), PromptsCapability { list_changed: None });
    assert_eq!(
        ResourcesCapability::default(),
        ResourcesCapability { subscribe: None, list_changed: None }
    );
    assert_eq!(ToolsCapability::default(), ToolsCapability { list_changed: None });
    assert_eq!(RootsCapabilities::default(), RootsCapabilities { list_changed: None });
    assert_eq!(
        TasksCapability::default(),
        TasksCapability { requests: None, list: None, cancel: None }
    );
    assert_eq!(
        FormElicitationCapability::default(),
        FormElicitationCapability { schema_validation: None }
    );
    assert_eq!(UrlElicitationCapability::default(), UrlElicitationCapability {});
    assert_eq!(
        ElicitationCapability::default(),
        ElicitationCapability { form: None, url: None, schema_validation: None }
    );
}

#[test]
fn elicitation_form_only() {
    let capability = ElicitationCapability::form_only();
    assert_eq!(
        capability,
        ElicitationCapability {
            form: Some(FormElicitationCapability { schema_validation: None }),
            url: None,
            schema_validation: None,
        }
    );
    assert!(capability.supports_form());
    assert!(!capability.supports_url());
}

#[test]
fn elicitation_url_only() {
    let capability = ElicitationCapability::url_only();
    assert_eq!(
        capability,
        ElicitationCapability {
            form: None,
            url: Some(UrlElicitationCapability {}),
            schema_validation: None,
        }
    );
    assert!(!capability.supports_form());
    assert!(capability.supports_url());
}

#[test]
fn elicitation_both() {
    let capability = ElicitationCapability::both();
    assert_eq!(
        capability,
        ElicitationCapability {
            form: Some(FormElicitationCapability { schema_validation: None }),
            url: Some(UrlElicitationCapability {}),
            schema_validation: None,
        }
    );
    assert!(capability.supports_form());
    assert!(capability.supports_url());
}

#[test]
fn elicitation_default_supports_no_mode() {
    let capability = ElicitationCapability::default();
    assert!(!capability.supports_form());
    assert!(!capability.supports_url());
    let deprecated_only =
        ElicitationCapability { form: None, url: None, schema_validation: Some(true) };
    assert!(!deprecated_only.supports_form());
}

#[test]
fn records_can_be_cloned() {
    let capability = ResourcesCapability { subscribe: Some(true), list_changed: None };
    assert_eq!(capability.clone(), capability);
    let elicitation = ElicitationCapability::both();
    assert_eq!(elicitation.clone(), elicitation);
}
