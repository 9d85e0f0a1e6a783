//! The capabilities that a server advertises, and what they mean.
use crate::capability::{
    optional_tasks_view, PromptsCapability, ResourcesCapability, TasksCapability,
    TasksCapabilityView, ToolsCapability,
};
use crate::json::{
    optional_experimental_entries, optional_object_entries, ExperimentalCapabilities,
    ExperimentalView, JsonObject, ObjectView,
};
use vstd::prelude::*;

verus! {

/// What a server advertises. Each capability is advertised exactly if its
/// field is present, even where the value says nothing more.
#[derive(Debug, Clone, PartialEq)]
pub struct ServerCapabilities {
    pub experimental: Option<ExperimentalCapabilities>,
    pub logging: Option<JsonObject>,
    pub completions: Option<JsonObject>,
    pub prompts: Option<PromptsCapability>,
    pub resources: Option<ResourcesCapability>,
    pub tools: Option<ToolsCapability>,
    pub tasks: Option<TasksCapability>,
}

/// The capabilities of a server, by name.
pub enum ServerCapabilityKind {
    Experimental,
    Logging,
    Completions,
    Prompts,
    Resources,
    Tools,
    Tasks,
}

/// One capability of a server together with its value.
pub enum ServerCapability {
    Experimental(ExperimentalView),
    Logging(ObjectView),
    Completions(ObjectView),
    Prompts(PromptsCapability),
    Resources(ResourcesCapability),
    Tools(ToolsCapability),
    Tasks(TasksCapabilityView),
}

impl ServerCapability {
    /// Which capability this is.
    pub open spec fn kind(self) -> ServerCapabilityKind {
        match self {
            ServerCapability::Experimental(_) => ServerCapabilityKind::Experimental,
            ServerCapability::Logging(_) => ServerCapabilityKind::Logging,
            ServerCapability::Completions(_) => ServerCapabilityKind::Completions,
            ServerCapability::Prompts(_) => ServerCapabilityKind::Prompts,
            ServerCapability::Resources(_) => ServerCapabilityKind::Resources,
            ServerCapability::Tools(_) => ServerCapabilityKind::Tools,
            ServerCapability::Tasks(_) => ServerCapabilityKind::Tasks,
        }
    }
}

/// The value of a [`ServerCapabilities`] record, and of a builder on the way
/// to one: which capabilities are present, and with what contents. Two
/// records say the same exactly if their views are equal.
pub struct ServerCapabilitiesView {
    pub experimental: Option<ExperimentalView>,
    pub logging: Option<ObjectView>,
    pub completions: Option<ObjectView>,
    pub prompts: Option<PromptsCapability>,
    pub resources: Option<ResourcesCapability>,
    pub tools: Option<ToolsCapability>,
    pub tasks: Option<TasksCapabilityView>,
}

impl ServerCapabilitiesView {
    /// The record in which every capability is absent.
    pub open spec fn absent() -> Self {
        ServerCapabilitiesView {
            experimental: None,
            logging: None,
            completions: None,
            prompts: None,
            resources: None,
            tools: None,
            tasks: None,
        }
    }

    /// The capability `kind` as this record holds it, if it is present.
    pub open spec fn capability(self, kind: ServerCapabilityKind) -> Option<ServerCapability> {
        match kind {
            ServerCapabilityKind::Experimental => match self.experimental {
                Some(v) => Some(ServerCapability::Experimental(v)),
                None => None,
            },
            ServerCapabilityKind::Logging => match self.logging {
                Some(v) => Some(ServerCapability::Logging(v)),
                None => None,
            },
            ServerCapabilityKind::Completions => match self.completions {
                Some(v) => Some(ServerCapability::Completions(v)),
                None => None,
            },
            ServerCapabilityKind::Prompts => match self.prompts {
                Some(v) => Some(ServerCapability::Prompts(v)),
                None => None,
            },
            ServerCapabilityKind::Resources => match self.resources {
                Some(v) => Some(ServerCapability::Resources(v)),
                None => None,
            },
            ServerCapabilityKind::Tools => match self.tools {
                Some(v) => Some(ServerCapability::Tools(v)),
                None => None,
            },
            ServerCapabilityKind::Tasks => match self.tasks {
                Some(v) => Some(ServerCapability::Tasks(v)),
                None => None,
            },
        }
    }

    /// Whether the capability `kind` is present.
    pub open spec fn advertises(self, kind: ServerCapabilityKind) -> bool {
        self.capability(kind) is Some
    }

    /// This record with the capability `c` present and holding the value of
    /// `c`; every other capability is as it was.
    pub open spec fn enable(self, c: ServerCapability) -> Self {
        match c {
            ServerCapability::Experimental(v) => ServerCapabilitiesView {
                experimental: Some(v),
                ..self
            },
            ServerCapability::Logging(v) => ServerCapabilitiesView { logging: Some(v), ..self },
            ServerCapability::Completions(v) => ServerCapabilitiesView {
                completions: Some(v),
                ..self
            },
            ServerCapability::Prompts(v) => ServerCapabilitiesView { prompts: Some(v), ..self },
            ServerCapability::Resources(v) => ServerCapabilitiesView { resources: Some(v), ..self },
            ServerCapability::Tools(v) => ServerCapabilitiesView { tools: Some(v), ..self },
            ServerCapability::Tasks(v) => ServerCapabilitiesView { tasks: Some(v), ..self },
        }
    }

    /// This record after enabling the capabilities of `cs` one after the
    /// other, the first one first.
    pub open spec fn enable_all(self, cs: Seq<ServerCapability>) -> Self
        decreases cs.len(),
    {
        if cs.len() == 0 {
            self
        } else {
            self.enable_all(cs.drop_last()).enable(cs.last())
        }
    }

    /// This record with `list_changed` set in the prompts capability, if
    /// that capability is present; unchanged if it is absent.
    pub open spec fn prompts_list_changed(self) -> Self {
        ServerCapabilitiesView {
            prompts: match self.prompts {
                Some(c) => Some(c.with_list_changed()),
                None => None,
            },
            ..self
        }
    }

    /// This record with `list_changed` set in the resources capability, if
    /// that capability is present; unchanged if it is absent.
    pub open spec fn resources_list_changed(self) -> Self {
        ServerCapabilitiesView {
            resources: match self.resources {
                Some(c) => Some(c.with_list_changed()),
                None => None,
            },
            ..self
        }
    }

    /// This record with `subscribe` set in the resources capability, if that
    /// capability is present; unchanged if it is absent.
    pub open spec fn resources_subscribe(self) -> Self {
        ServerCapabilitiesView {
            resources: match self.resources {
                Some(c) => Some(c.with_subscribe()),
                None => None,
            },
            ..self
        }
    }

    /// This record with `list_changed` set in the tools capability, if that
    /// capability is present; unchanged if it is absent.
    pub open spec fn tool_list_changed(self) -> Self {
        ServerCapabilitiesView {
            tools: match self.tools {
                Some(c) => Some(c.with_list_changed()),
                None => None,
            },
            ..self
        }
    }
}

impl View for ServerCapabilities {
    type V = ServerCapabilitiesView;

    open spec fn view(&self) -> ServerCapabilitiesView {
        ServerCapabilitiesView {
            experimental: optional_experimental_entries(self.experimental),
            logging: optional_object_entries(self.logging),
            completions: optional_object_entries(self.completions),
            prompts: self.prompts,
            resources: self.resources,
            tools: self.tools,
            tasks: optional_tasks_view(self.tasks),
        }
    }
}

impl ServerCapabilities {
    /// The record in which every capability is absent: the default.
    pub open spec fn absent() -> Self {
        ServerCapabilities {
            experimental: None,
            logging: None,
            completions: None,
            prompts: None,
            resources: None,
            tools: None,
            tasks: None,
        }
    }
}

impl Default for ServerCapabilities {
    /// The record that advertises nothing.
    fn default() -> (r: Self)
        ensures
            r == Self::absent(),
            r@ == ServerCapabilitiesView::absent(),
    {
        ServerCapabilities {
            experimental: None,
            logging: None,
            completions: None,
            prompts: None,
            resources: None,
            tools: None,
            tasks: None,
        }
    }
}

/// Enabling a capability makes it present with the value given.
pub proof fn lemma_server_enable_reads_back(v: ServerCapabilitiesView, c: ServerCapability)
    ensures
        v.enable(c).capability(c.kind()) == Some(c),
        v.enable(c).advertises(c.kind()),
{
}

/// Enabling a capability changes no other capability: neither whether it is
/// present nor its value.
pub proof fn lemma_server_enable_leaves_others(
    v: ServerCapabilitiesView,
    c: ServerCapability,
    kind: ServerCapabilityKind,
)
    requires
        kind != c.kind(),
    ensures
        v.enable(c).capability(kind) == v.capability(kind),
        v.enable(c).advertises(kind) == v.advertises(kind),
{
}

/// Two different capabilities can be enabled in either order: the record is
/// the same.
pub proof fn lemma_server_enable_commutes(
    v: ServerCapabilitiesView,
    a: ServerCapability,
    b: ServerCapability,
)
    requires
        a.kind() != b.kind(),
    ensures
        v.enable(a).enable(b) == v.enable(b).enable(a),
{
}

/// After any sequence of enable operations, a capability is present exactly
/// if it was present before or the sequence enabled it. From the record in
/// which all are absent, exactly the capabilities enabled are present.
pub proof fn lemma_server_enable_all_presence(
    v: ServerCapabilitiesView,
    cs: Seq<ServerCapability>,
    kind: ServerCapabilityKind,
)
    ensures
        v.enable_all(cs).advertises(kind) <==> (v.advertises(kind) || exists|i: int|
            0 <= i < cs.len() && (#[trigger] cs[i]).kind() == kind),
        ServerCapabilitiesView::absent().enable_all(cs).advertises(kind) <==> exists|i: int|
            0 <= i < cs.len() && (#[trigger] cs[i]).kind() == kind,
    decreases cs.len(),
{
    if cs.len() > 0 {
        let front = cs.drop_last();
        lemma_server_enable_all_presence(v, front, kind);
        lemma_server_enable_all_presence(ServerCapabilitiesView::absent(), front, kind);
        if cs.last().kind() == kind {
            assert(cs[cs.len() - 1].kind() == kind);
        } else if exists|i: int| 0 <= i < front.len() && (#[trigger] front[i]).kind() == kind {
            let i = choose|i: int| 0 <= i < front.len() && (#[trigger] front[i]).kind() == kind;
            assert(cs[i].kind() == kind);
        } else {
            assert forall|i: int| 0 <= i < cs.len() implies (#[trigger] cs[i]).kind() != kind by {
                if i < front.len() {
                    assert(front[i].kind() != kind);
                }
            }
        }
    }
}

/// After any sequence of enable operations, a capability that the sequence
/// enabled holds the value that was given last for it.
pub proof fn lemma_server_enable_all_value(
    v: ServerCapabilitiesView,
    cs: Seq<ServerCapability>,
    i: int,
)
    requires
        0 <= i < cs.len(),
        forall|j: int| i < j < cs.len() ==> (#[trigger] cs[j]).kind() != cs[i].kind(),
    ensures
        v.enable_all(cs).capability(cs[i].kind()) == Some(cs[i]),
    decreases cs.len(),
{
    if i < cs.len() - 1 {
        let front = cs.drop_last();
        assert(front[i] == cs[i]);
        assert forall|j: int| i < j < front.len() implies (#[trigger] front[j]).kind()
            != front[i].kind() by {
            assert(cs[j].kind() != cs[i].kind());
        }
        lemma_server_enable_all_value(v, front, i);
        assert(cs[cs.len() - 1].kind() != cs[i].kind());
    }
}

/// The record in which all capabilities are absent advertises nothing.
pub proof fn lemma_server_absent_advertises_nothing(kind: ServerCapabilityKind)
    ensures
        !ServerCapabilitiesView::absent().advertises(kind),
        ServerCapabilitiesView::absent().enable_all(Seq::empty())
            == ServerCapabilitiesView::absent(),
{
}

/// Setting a sub-flag neither adds nor removes a capability, and leaves
/// every capability but its own as it was.
pub proof fn lemma_server_refinements_keep_presence(
    v: ServerCapabilitiesView,
    kind: ServerCapabilityKind,
)
    ensures
        v.prompts_list_changed().advertises(kind) == v.advertises(kind),
        v.resources_list_changed().advertises(kind) == v.advertises(kind),
        v.resources_subscribe().advertises(kind) == v.advertises(kind),
        v.tool_list_changed().advertises(kind) == v.advertises(kind),
        kind != ServerCapabilityKind::Prompts ==> v.prompts_list_changed().capability(kind)
            == v.capability(kind),
        kind != ServerCapabilityKind::Resources ==> v.resources_list_changed().capability(kind)
            == v.capability(kind),
        kind != ServerCapabilityKind::Resources ==> v.resources_subscribe().capability(kind)
            == v.capability(kind),
        kind != ServerCapabilityKind::Tools ==> v.tool_list_changed().capability(kind)
            == v.capability(kind),
{
}

/// The two sub-flags of the resources capability do not touch each other.
/// Right after the capability is enabled with its default value, setting
/// `subscribe` gives `subscribe` true and `list_changed` absent. Setting
/// `list_changed` on any record keeps `subscribe` as it was, and the other
/// way round; the two can be set in either order.
pub proof fn lemma_server_resources_flags_independent(v: ServerCapabilitiesView)
    ensures
        v.enable(
            ServerCapability::Resources(ResourcesCapability::unset()),
        ).resources_subscribe().resources == Some(
            ResourcesCapability { subscribe: Some(true), list_changed: None },
        ),
        v.resources is Some ==> {
            &&& v.resources_list_changed().resources->0.subscribe == v.resources->0.subscribe
            &&& v.resources_list_changed().resources->0.list_changed == Some(true)
            &&& v.resources_subscribe().resources->0.list_changed == v.resources->0.list_changed
            &&& v.resources_subscribe().resources->0.subscribe == Some(true)
        },
        v.resources is None ==> v.resources_list_changed() == v && v.resources_subscribe() == v,
        v.resources_subscribe().resources_list_changed()
            == v.resources_list_changed().resources_subscribe(),
{
}

} // verus!
