//! The capabilities that a record can advertise, and their sub-flags.
//!
//! Every sub-flag is optional and absent by default. A sub-flag only means
//! something inside a capability that is itself present in a record.
use std::collections::BTreeMap;
use vstd::prelude::*;

verus! {

/// Support for prompts.
#[derive(Debug, Clone, PartialEq)]
pub struct PromptsCapability {
    /// Whether changes to the list of prompts are announced.
    pub list_changed: Option<bool>,
}

impl PromptsCapability {
    /// The capability with no sub-flag set: its default value.
    pub open spec fn unset() -> Self {
        PromptsCapability { list_changed: None }
    }

    /// This capability with `list_changed` set to true.
    pub open spec fn with_list_changed(self) -> Self {
        PromptsCapability { list_changed: Some(true) }
    }
}

impl Default for PromptsCapability {
    fn default() -> (r: Self)
        ensures
            r == Self::unset(),
    {
        PromptsCapability { list_changed: None }
    }
}

/// Support for resources, with two sub-flags that are set independently.
#[derive(Debug, Clone, PartialEq)]
pub struct ResourcesCapability {
    /// Whether a client can subscribe to changes of a single resource.
    pub subscribe: Option<bool>,
    /// Whether changes to the list of resources are announced.
    pub list_changed: Option<bool>,
}

impl ResourcesCapability {
    /// The capability with no sub-flag set: its default value.
    pub open spec fn unset() -> Self {
        ResourcesCapability { subscribe: None, list_changed: None }
    }

    /// This capability with `subscribe` set to true and `list_changed` as it was.
    pub open spec fn with_subscribe(self) -> Self {
        ResourcesCapability { subscribe: Some(true), list_changed: self.list_changed }
    }

    /// This capability with `list_changed` set to true and `subscribe` as it was.
    pub open spec fn with_list_changed(self) -> Self {
        ResourcesCapability { subscribe: self.subscribe, list_changed: Some(true) }
    }
}

impl Default for ResourcesCapability {
    fn default() -> (r: Self)
        ensures
            r == Self::unset(),
    {
        ResourcesCapability { subscribe: None, list_changed: None }
    }
}

/// Support for tools.
#[derive(Debug, Clone, PartialEq)]
pub struct ToolsCapability {
    /// Whether changes to the list of tools are announced.
    pub list_changed: Option<bool>,
}

impl ToolsCapability {
    /// The capability with no sub-flag set: its default value.
    pub open spec fn unset() -> Self {
        ToolsCapability { list_changed: None }
    }

    /// This capability with `list_changed` set to true.
    pub open spec fn with_list_changed(self) -> Self {
        ToolsCapability { list_changed: Some(true) }
    }
}

impl Default for ToolsCapability {
    fn default() -> (r: Self)
        ensures
            r == Self::unset(),
    {
        ToolsCapability { list_changed: None }
    }
}

/// Support for roots. Deprecated: roots have left the protocol, and the type
/// is kept so that older peers can still be understood.
#[derive(Debug, Clone, PartialEq)]
pub struct RootsCapabilities {
    /// Whether changes to the list of roots are announced.
    pub list_changed: Option<bool>,
}

impl RootsCapabilities {
    /// The capability with no sub-flag set: its default value.
    pub open spec fn unset() -> Self {
        RootsCapabilities { list_changed: None }
    }

    /// This capability with `list_changed` set to true.
    pub open spec fn with_list_changed(self) -> Self {
        RootsCapabilities { list_changed: Some(true) }
    }
}

impl Default for RootsCapabilities {
    fn default() -> (r: Self)
        ensures
            r == Self::unset(),
    {
        RootsCapabilities { list_changed: None }
    }
}

/// Per-request task support: request category (such as `tools.call`) to
/// whether tasks are supported for it.
pub type TaskRequestMap = BTreeMap<String, bool>;

/// Support for tasks.
#[derive(Debug, Clone, PartialEq)]
pub struct TasksCapability {
    /// Task support by request category.
    pub requests: Option<TaskRequestMap>,
    /// Whether listing tasks is supported.
    pub list: Option<bool>,
    /// Whether cancelling a task is supported.
    pub cancel: Option<bool>,
}

/// What a [`TasksCapability`] says: the request map by its contents.
pub struct TasksCapabilityView {
    pub requests: Option<Map<String, bool>>,
    pub list: Option<bool>,
    pub cancel: Option<bool>,
}

impl TasksCapabilityView {
    /// The capability with nothing set: the view of the default value.
    pub open spec fn unset() -> Self {
        TasksCapabilityView { requests: None, list: None, cancel: None }
    }
}

impl View for TasksCapability {
    type V = TasksCapabilityView;

    open spec fn view(&self) -> TasksCapabilityView {
        TasksCapabilityView {
            requests: match self.requests {
                Some(m) => Some(m@),
                None => None,
            },
            list: self.list,
            cancel: self.cancel,
        }
    }
}

impl Default for TasksCapability {
    fn default() -> (r: Self)
        ensures
            r@ == TasksCapabilityView::unset(),
    {
        TasksCapability { requests: None, list: None, cancel: None }
    }
}

/// The view of an optional tasks capability.
pub open spec fn optional_tasks_view(t: Option<TasksCapability>) -> Option<TasksCapabilityView> {
    match t {
        Some(tasks) => Some(tasks@),
        None => None,
    }
}

/// Settings of form mode elicitation, where the client collects the data in-band.
#[derive(Debug, Clone, PartialEq)]
pub struct FormElicitationCapability {
    /// Whether the client validates form input against the requested schema.
    pub schema_validation: Option<bool>,
}

impl FormElicitationCapability {
    /// The settings with nothing set: their default value.
    pub open spec fn unset() -> Self {
        FormElicitationCapability { schema_validation: None }
    }
}

impl Default for FormElicitationCapability {
    fn default() -> (r: Self)
        ensures
            r == Self::unset(),
    {
        FormElicitationCapability { schema_validation: None }
    }
}

/// Settings of URL mode elicitation, where the data is collected out-of-band.
/// There is none yet: that the value is present says that the mode is supported.
#[derive(Debug, Clone, PartialEq)]
pub struct UrlElicitationCapability {}

impl Default for UrlElicitationCapability {
    fn default() -> (r: Self)
        ensures
            r == (UrlElicitationCapability {}),
    {
        UrlElicitationCapability {}
    }
}

/// Support for elicitation: a server may ask the user for input through the client.
///
/// There are two modes, each supported exactly if its settings are present:
/// form mode (`form`) and URL mode (`url`).
#[derive(Debug, Clone, PartialEq)]
pub struct ElicitationCapability {
    /// Form mode settings; present if form mode is supported.
    pub form: Option<FormElicitationCapability>,
    /// URL mode settings; present if URL mode is supported.
    pub url: Option<UrlElicitationCapability>,
    /// Deprecated in favour of `form.schema_validation`, and kept for peers
    /// that still send it. Which of the two wins when both are present is left open.
    pub schema_validation: Option<bool>,
}

impl ElicitationCapability {
    /// The capability with no mode and no flag set: its default value.
    pub open spec fn unset() -> Self {
        ElicitationCapability { form: None, url: None, schema_validation: None }
    }

    /// Form mode with default settings, and nothing else.
    pub open spec fn spec_form_only() -> Self {
        ElicitationCapability {
            form: Some(FormElicitationCapability::unset()),
            url: None,
            schema_validation: None,
        }
    }

    /// URL mode, and nothing else.
    pub open spec fn spec_url_only() -> Self {
        ElicitationCapability {
            form: None,
            url: Some(UrlElicitationCapability {}),
            schema_validation: None,
        }
    }

    /// Both modes, form mode with default settings.
    pub open spec fn spec_both() -> Self {
        ElicitationCapability {
            form: Some(FormElicitationCapability::unset()),
            url: Some(UrlElicitationCapability {}),
            schema_validation: None,
        }
    }

    /// This capability with URL mode supported and the rest as it was.
    pub open spec fn with_url_mode(self) -> Self {
        ElicitationCapability {
            form: self.form,
            url: Some(UrlElicitationCapability {}),
            schema_validation: self.schema_validation,
        }
    }

    /// This capability with the deprecated `schema_validation` flag set to
    /// true and the rest as it was.
    pub open spec fn with_schema_validation(self) -> Self {
        ElicitationCapability { form: self.form, url: self.url, schema_validation: Some(true) }
    }

    /// An elicitation capability that supports form mode only.
    #[verifier::when_used_as_spec(spec_form_only)]
    pub fn form_only() -> (r: Self)
        ensures
            r == Self::spec_form_only(),
    {
        ElicitationCapability {
            form: Some(FormElicitationCapability::default()),
            url: None,
            schema_validation: None,
        }
    }

    /// An elicitation capability that supports URL mode only.
    #[verifier::when_used_as_spec(spec_url_only)]
    pub fn url_only() -> (r: Self)
        ensures
            r == Self::spec_url_only(),
    {
        ElicitationCapability {
            form: None,
            url: Some(UrlElicitationCapability::default()),
            schema_validation: None,
        }
    }

    /// An elicitation capability that supports both form and URL mode.
    #[verifier::when_used_as_spec(spec_both)]
    pub fn both() -> (r: Self)
        ensures
            r == Self::spec_both(),
    {
        ElicitationCapability {
            form: Some(FormElicitationCapability::default()),
            url: Some(UrlElicitationCapability::default()),
            schema_validation: None,
        }
    }

    /// Whether form mode is supported.
    pub fn supports_form(&self) -> (r: bool)
        ensures
            r == (self.form is Some),
    {
        self.form.is_some()
    }

    /// Whether URL mode is supported.
    pub fn supports_url(&self) -> (r: bool)
        ensures
            r == (self.url is Some),
    {
        self.url.is_some()
    }
}

impl Default for ElicitationCapability {
    fn default() -> (r: Self)
        ensures
            r == Self::unset(),
    {
        ElicitationCapability { form: None, url: None, schema_validation: None }
    }
}

} // verus!
