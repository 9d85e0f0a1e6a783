//! The typestate builder of [`ServerCapabilities`].
//!
//! The builder's type carries one tag per capability, `false` until the
//! capability is enabled and `true` from then on. `enable_<capability>` and
//! `enable_<capability>_with` exist only where the tag reads `false`, and flip
//! it; the methods that set a sub-flag exist only where the tag of their
//! capability reads `true`. Nothing disables a capability again.
use crate::capability::{
    PromptsCapability, ResourcesCapability, TasksCapability, TasksCapabilityView, ToolsCapability,
};
use crate::json::{
    default_experimental, default_object, experimental_entries, object_entries,
    ExperimentalCapabilities, ExperimentalView, JsonObject, ObjectView,
};
use crate::server::{
    ServerCapabilities, ServerCapabilitiesView, ServerCapability, ServerCapabilityKind,
};
use std::marker::PhantomData;
use vstd::prelude::*;

verus! {

/// The tags of a [`ServerCapabilitiesBuilder`]: for each capability, whether
/// it has been enabled.
#[derive(Default, Clone, Copy, Debug)]
pub struct ServerCapabilitiesBuilderState<
    const EXPERIMENTAL: bool,
    const LOGGING: bool,
    const COMPLETIONS: bool,
    const PROMPTS: bool,
    const RESOURCES: bool,
    const TOOLS: bool,
    const TASKS: bool,
>;

/// A [`ServerCapabilities`] record under construction. `S` holds the tags;
/// a new builder has all of them `false`.
#[derive(Debug)]
pub struct ServerCapabilitiesBuilder<
    S = ServerCapabilitiesBuilderState<false, false, false, false, false, false, false>,
> {
    pub experimental: Option<ExperimentalCapabilities>,
    pub logging: Option<JsonObject>,
    pub completions: Option<JsonObject>,
    pub prompts: Option<PromptsCapability>,
    pub resources: Option<ResourcesCapability>,
    pub tools: Option<ToolsCapability>,
    pub tasks: Option<TasksCapability>,
    pub state: PhantomData<S>,
}

impl<S> View for ServerCapabilitiesBuilder<S> {
    type V = ServerCapabilitiesView;

    /// A builder is worth the record that it would build.
    open spec fn view(&self) -> ServerCapabilitiesView {
        self.built()@
    }
}

impl<S: Default> Default for ServerCapabilitiesBuilder<S> {
    /// A builder in which every capability is absent.
    fn default() -> (r: Self)
        ensures
            r@ == ServerCapabilitiesView::absent(),
    {
        ServerCapabilitiesBuilder {
            experimental: None,
            logging: None,
            completions: None,
            prompts: None,
            resources: None,
            tools: None,
            tasks: None,
            state: PhantomData,
        }
    }
}

impl ServerCapabilities {
    /// Creates a new [`ServerCapabilities`] builder, with nothing enabled.
    pub fn builder() -> (r: ServerCapabilitiesBuilder)
        ensures
            r@ == ServerCapabilitiesView::absent(),
            r.wf(),
    {
        <ServerCapabilitiesBuilder>::default()
    }
}

impl<S> ServerCapabilitiesBuilder<S> {
    /// The record that [`build`](Self::build) returns: each capability as the
    /// builder holds it.
    pub open spec fn built(self) -> ServerCapabilities {
        ServerCapabilities {
            experimental: self.experimental,
            logging: self.logging,
            completions: self.completions,
            prompts: self.prompts,
            resources: self.resources,
            tools: self.tools,
            tasks: self.tasks,
        }
    }

    /// Finishes the record. Whatever has been enabled is present in it with
    /// the value it was given, and everything else is absent. This is
    /// possible in every state of the builder and never fails.
    pub fn build(self) -> (r: ServerCapabilities)
        ensures
            r == self.built(),
            r@ == self@,
    {
        ServerCapabilities {
            experimental: self.experimental,
            logging: self.logging,
            completions: self.completions,
            prompts: self.prompts,
            resources: self.resources,
            tools: self.tools,
            tasks: self.tasks,
        }
    }

    /// Before anything is enabled, the builder builds the record in which
    /// every capability is absent: the default of [`ServerCapabilities`].
    pub proof fn lemma_fresh_builder_builds_default(self)
        requires
            self@ == ServerCapabilitiesView::absent(),
        ensures
            self.built() == ServerCapabilities::absent(),
    {
    }
}

impl<S> From<ServerCapabilitiesBuilder<S>> for ServerCapabilities {
    /// The same as [`ServerCapabilitiesBuilder::build`].
    fn from(builder: ServerCapabilitiesBuilder<S>) -> (r: Self) {
        builder.build()
    }
}

impl<S> vstd::std_specs::convert::FromSpecImpl<ServerCapabilitiesBuilder<S>> for ServerCapabilities {
    open spec fn obeys_from_spec() -> bool {
        true
    }

    open spec fn from_spec(builder: ServerCapabilitiesBuilder<S>) -> Self {
        builder.built()
    }
}

impl<
    const EXPERIMENTAL: bool,
    const LOGGING: bool,
    const COMPLETIONS: bool,
    const PROMPTS: bool,
    const RESOURCES: bool,
    const TOOLS: bool,
    const TASKS: bool,
> ServerCapabilitiesBuilder<
    ServerCapabilitiesBuilderState<
        EXPERIMENTAL,
        LOGGING,
        COMPLETIONS,
        PROMPTS,
        RESOURCES,
        TOOLS,
        TASKS,
    >,
> {
    /// The tag of the capability `kind` in this builder's type.
    pub open spec fn tag(kind: ServerCapabilityKind) -> bool {
        match kind {
            ServerCapabilityKind::Experimental => EXPERIMENTAL,
            ServerCapabilityKind::Logging => LOGGING,
            ServerCapabilityKind::Completions => COMPLETIONS,
            ServerCapabilityKind::Prompts => PROMPTS,
            ServerCapabilityKind::Resources => RESOURCES,
            ServerCapabilityKind::Tools => TOOLS,
            ServerCapabilityKind::Tasks => TASKS,
        }
    }

    /// The builder is well-formed: a capability is present exactly if its tag
    /// reads `true`. A new builder is well-formed and every method keeps it
    /// so; only a builder put together field by field can fail to be.
    pub open spec fn wf(self) -> bool {
        &&& self@.advertises(ServerCapabilityKind::Experimental) == EXPERIMENTAL
        &&& self@.advertises(ServerCapabilityKind::Logging) == LOGGING
        &&& self@.advertises(ServerCapabilityKind::Completions) == COMPLETIONS
        &&& self@.advertises(ServerCapabilityKind::Prompts) == PROMPTS
        &&& self@.advertises(ServerCapabilityKind::Resources) == RESOURCES
        &&& self@.advertises(ServerCapabilityKind::Tools) == TOOLS
        &&& self@.advertises(ServerCapabilityKind::Tasks) == TASKS
    }

    /// The record built from a well-formed builder has exactly those
    /// capabilities present whose tag reads `true`, and all others absent.
    pub proof fn lemma_built_matches_tags(self, kind: ServerCapabilityKind)
        requires
            self.wf(),
        ensures
            self.built()@.advertises(kind) == Self::tag(kind),
    {
    }
}

impl<
    const LOGGING: bool,
    const COMPLETIONS: bool,
    const PROMPTS: bool,
    const RESOURCES: bool,
    const TOOLS: bool,
    const TASKS: bool,
> ServerCapabilitiesBuilder<
    ServerCapabilitiesBuilderState<false, LOGGING, COMPLETIONS, PROMPTS, RESOURCES, TOOLS, TASKS>,
> {
    /// Enables `experimental` with an empty map, the default value of its
    /// type.
    pub fn enable_experimental(self) -> (r: ServerCapabilitiesBuilder<
        ServerCapabilitiesBuilderState<true, LOGGING, COMPLETIONS, PROMPTS, RESOURCES, TOOLS, TASKS>,
    >)
        ensures
            r@ == self@.enable(ServerCapability::Experimental(ExperimentalView::empty())),
            r.built() == (ServerCapabilities { experimental: r.experimental, ..self.built() }),
            self.wf() ==> r.wf(),
    {
        ServerCapabilitiesBuilder {
            experimental: Some(default_experimental()),
            logging: self.logging,
            completions: self.completions,
            prompts: self.prompts,
            resources: self.resources,
            tools: self.tools,
            tasks: self.tasks,
            state: PhantomData,
        }
    }

    /// Enables `experimental` with the map given.
    pub fn enable_experimental_with(
        self,
        experimental: ExperimentalCapabilities,
    ) -> (r: ServerCapabilitiesBuilder<
        ServerCapabilitiesBuilderState<true, LOGGING, COMPLETIONS, PROMPTS, RESOURCES, TOOLS, TASKS>,
    >)
        ensures
            r@ == self@.enable(ServerCapability::Experimental(experimental_entries(experimental))),
            r.built() == (ServerCapabilities { experimental: Some(experimental), ..self.built() }),
            self.wf() ==> r.wf(),
    {
        ServerCapabilitiesBuilder {
            experimental: Some(experimental),
            logging: self.logging,
            completions: self.completions,
            prompts: self.prompts,
            resources: self.resources,
            tools: self.tools,
            tasks: self.tasks,
            state: PhantomData,
        }
    }
}

impl<
    const EXPERIMENTAL: bool,
    const COMPLETIONS: bool,
    const PROMPTS: bool,
    const RESOURCES: bool,
    const TOOLS: bool,
    const TASKS: bool,
> ServerCapabilitiesBuilder<
    ServerCapabilitiesBuilderState<
        EXPERIMENTAL,
        false,
        COMPLETIONS,
        PROMPTS,
        RESOURCES,
        TOOLS,
        TASKS,
    >,
> {
    /// Enables `logging` with an empty options object, the default value of
    /// its type.
    pub fn enable_logging(self) -> (r: ServerCapabilitiesBuilder<
        ServerCapabilitiesBuilderState<
            EXPERIMENTAL,
            true,
            COMPLETIONS,
            PROMPTS,
            RESOURCES,
            TOOLS,
            TASKS,
        >,
    >)
        ensures
            r@ == self@.enable(ServerCapability::Logging(ObjectView::empty())),
            r.built() == (ServerCapabilities { logging: r.logging, ..self.built() }),
            self.wf() ==> r.wf(),
    {
        ServerCapabilitiesBuilder {
            experimental: self.experimental,
            logging: Some(default_object()),
            completions: self.completions,
            prompts: self.prompts,
            resources: self.resources,
            tools: self.tools,
            tasks: self.tasks,
            state: PhantomData,
        }
    }

    /// Enables `logging` with the options given.
    pub fn enable_logging_with(
        self,
        logging: JsonObject,
    ) -> (r: ServerCapabilitiesBuilder<
        ServerCapabilitiesBuilderState<
            EXPERIMENTAL,
            true,
            COMPLETIONS,
            PROMPTS,
            RESOURCES,
            TOOLS,
            TASKS,
        >,
    >)
        ensures
            r@ == self@.enable(ServerCapability::Logging(object_entries(logging))),
            r.built() == (ServerCapabilities { logging: Some(logging), ..self.built() }),
            self.wf() ==> r.wf(),
    {
        ServerCapabilitiesBuilder {
            experimental: self.experimental,
            logging: Some(logging),
            completions: self.completions,
            prompts: self.prompts,
            resources: self.resources,
            tools: self.tools,
            tasks: self.tasks,
            state: PhantomData,
        }
    }
}

impl<
    const EXPERIMENTAL: bool,
    const LOGGING: bool,
    const PROMPTS: bool,
    const RESOURCES: bool,
    const TOOLS: bool,
    const TASKS: bool,
> ServerCapabilitiesBuilder<
    ServerCapabilitiesBuilderState<EXPERIMENTAL, LOGGING, false, PROMPTS, RESOURCES, TOOLS, TASKS>,
> {
    /// Enables `completions` with an empty options object, the default value
    /// of its type.
    pub fn enable_completions(self) -> (r: ServerCapabilitiesBuilder<
        ServerCapabilitiesBuilderState<
            EXPERIMENTAL,
            LOGGING,
            true,
            PROMPTS,
            RESOURCES,
            TOOLS,
            TASKS,
        >,
    >)
        ensures
            r@ == self@.enable(ServerCapability::Completions(ObjectView::empty())),
            r.built() == (ServerCapabilities { completions: r.completions, ..self.built() }),
            self.wf() ==> r.wf(),
    {
        ServerCapabilitiesBuilder {
            experimental: self.experimental,
            logging: self.logging,
            completions: Some(default_object()),
            prompts: self.prompts,
            resources: self.resources,
            tools: self.tools,
            tasks: self.tasks,
            state: PhantomData,
        }
    }

    /// Enables `completions` with the options given.
    pub fn enable_completions_with(
        self,
        completions: JsonObject,
    ) -> (r: ServerCapabilitiesBuilder<
        ServerCapabilitiesBuilderState<
            EXPERIMENTAL,
            LOGGING,
            true,
            PROMPTS,
            RESOURCES,
            TOOLS,
            TASKS,
        >,
    >)
        ensures
            r@ == self@.enable(ServerCapability::Completions(object_entries(completions))),
            r.built() == (ServerCapabilities { completions: Some(completions), ..self.built() }),
            self.wf() ==> r.wf(),
    {
        ServerCapabilitiesBuilder {
            experimental: self.experimental,
            logging: self.logging,
            completions: Some(completions),
            prompts: self.prompts,
            resources: self.resources,
            tools: self.tools,
            tasks: self.tasks,
            state: PhantomData,
        }
    }
}

impl<
    const EXPERIMENTAL: bool,
    const LOGGING: bool,
    const COMPLETIONS: bool,
    const RESOURCES: bool,
    const TOOLS: bool,
    const TASKS: bool,
> ServerCapabilitiesBuilder<
    ServerCapabilitiesBuilderState<
        EXPERIMENTAL,
        LOGGING,
        COMPLETIONS,
        false,
        RESOURCES,
        TOOLS,
        TASKS,
    >,
> {
    /// Enables `prompts` with no sub-flag set, the default value of its type.
    pub fn enable_prompts(self) -> (r: ServerCapabilitiesBuilder<
        ServerCapabilitiesBuilderState<
            EXPERIMENTAL,
            LOGGING,
            COMPLETIONS,
            true,
            RESOURCES,
            TOOLS,
            TASKS,
        >,
    >)
        ensures
            r@ == self@.enable(ServerCapability::Prompts(PromptsCapability::unset())),
            r.built() == (ServerCapabilities { prompts: r.prompts, ..self.built() }),
            self.wf() ==> r.wf(),
    {
        ServerCapabilitiesBuilder {
            experimental: self.experimental,
            logging: self.logging,
            completions: self.completions,
            prompts: Some(PromptsCapability::default()),
            resources: self.resources,
            tools: self.tools,
            tasks: self.tasks,
            state: PhantomData,
        }
    }

    /// Enables `prompts` with the value given.
    pub fn enable_prompts_with(
        self,
        prompts: PromptsCapability,
    ) -> (r: ServerCapabilitiesBuilder<
        ServerCapabilitiesBuilderState<
            EXPERIMENTAL,
            LOGGING,
            COMPLETIONS,
            true,
            RESOURCES,
            TOOLS,
            TASKS,
        >,
    >)
        ensures
            r@ == self@.enable(ServerCapability::Prompts(prompts)),
            r.built() == (ServerCapabilities { prompts: Some(prompts), ..self.built() }),
            self.wf() ==> r.wf(),
    {
        ServerCapabilitiesBuilder {
            experimental: self.experimental,
            logging: self.logging,
            completions: self.completions,
            prompts: Some(prompts),
            resources: self.resources,
            tools: self.tools,
            tasks: self.tasks,
            state: PhantomData,
        }
    }
}

impl<
    const EXPERIMENTAL: bool,
    const LOGGING: bool,
    const COMPLETIONS: bool,
    const PROMPTS: bool,
    const TOOLS: bool,
    const TASKS: bool,
> ServerCapabilitiesBuilder<
    ServerCapabilitiesBuilderState<EXPERIMENTAL, LOGGING, COMPLETIONS, PROMPTS, false, TOOLS, TASKS>,
> {
    /// Enables `resources` with no sub-flag set, the default value of its
    /// type.
    pub fn enable_resources(self) -> (r: ServerCapabilitiesBuilder<
        ServerCapabilitiesBuilderState<
            EXPERIMENTAL,
            LOGGING,
            COMPLETIONS,
            PROMPTS,
            true,
            TOOLS,
            TASKS,
        >,
    >)
        ensures
            r@ == self@.enable(ServerCapability::Resources(ResourcesCapability::unset())),
            r.built() == (ServerCapabilities { resources: r.resources, ..self.built() }),
            self.wf() ==> r.wf(),
    {
        ServerCapabilitiesBuilder {
            experimental: self.experimental,
            logging: self.logging,
            completions: self.completions,
            prompts: self.prompts,
            resources: Some(ResourcesCapability::default()),
            tools: self.tools,
            tasks: self.tasks,
            state: PhantomData,
        }
    }

    /// Enables `resources` with the value given.
    pub fn enable_resources_with(
        self,
        resources: ResourcesCapability,
    ) -> (r: ServerCapabilitiesBuilder<
        ServerCapabilitiesBuilderState<
            EXPERIMENTAL,
            LOGGING,
            COMPLETIONS,
            PROMPTS,
            true,
            TOOLS,
            TASKS,
        >,
    >)
        ensures
            r@ == self@.enable(ServerCapability::Resources(resources)),
            r.built() == (ServerCapabilities { resources: Some(resources), ..self.built() }),
            self.wf() ==> r.wf(),
    {
        ServerCapabilitiesBuilder {
            experimental: self.experimental,
            logging: self.logging,
            completions: self.completions,
            prompts: self.prompts,
            resources: Some(resources),
            tools: self.tools,
            tasks: self.tasks,
            state: PhantomData,
        }
    }
}

impl<
    const EXPERIMENTAL: bool,
    const LOGGING: bool,
    const COMPLETIONS: bool,
    const PROMPTS: bool,
    const RESOURCES: bool,
    const TASKS: bool,
> ServerCapabilitiesBuilder<
    ServerCapabilitiesBuilderState<
        EXPERIMENTAL,
        LOGGING,
        COMPLETIONS,
        PROMPTS,
        RESOURCES,
        false,
        TASKS,
    >,
> {
    /// Enables `tools` with no sub-flag set, the default value of its type.
    pub fn enable_tools(self) -> (r: ServerCapabilitiesBuilder<
        ServerCapabilitiesBuilderState<
            EXPERIMENTAL,
            LOGGING,
            COMPLETIONS,
            PROMPTS,
            RESOURCES,
            true,
            TASKS,
        >,
    >)
        ensures
            r@ == self@.enable(ServerCapability::Tools(ToolsCapability::unset())),
            r.built() == (ServerCapabilities { tools: r.tools, ..self.built() }),
            self.wf() ==> r.wf(),
    {
        ServerCapabilitiesBuilder {
            experimental: self.experimental,
            logging: self.logging,
            completions: self.completions,
            prompts: self.prompts,
            resources: self.resources,
            tools: Some(ToolsCapability::default()),
            tasks: self.tasks,
            state: PhantomData,
        }
    }

    /// Enables `tools` with the value given.
    pub fn enable_tools_with(
        self,
        tools: ToolsCapability,
    ) -> (r: ServerCapabilitiesBuilder<
        ServerCapabilitiesBuilderState<
            EXPERIMENTAL,
            LOGGING,
            COMPLETIONS,
            PROMPTS,
            RESOURCES,
            true,
            TASKS,
        >,
    >)
        ensures
            r@ == self@.enable(ServerCapability::Tools(tools)),
            r.built() == (ServerCapabilities { tools: Some(tools), ..self.built() }),
            self.wf() ==> r.wf(),
    {
        ServerCapabilitiesBuilder {
            experimental: self.experimental,
            logging: self.logging,
            completions: self.completions,
            prompts: self.prompts,
            resources: self.resources,
            tools: Some(tools),
            tasks: self.tasks,
            state: PhantomData,
        }
    }
}

impl<
    const EXPERIMENTAL: bool,
    const LOGGING: bool,
    const COMPLETIONS: bool,
    const PROMPTS: bool,
    const RESOURCES: bool,
    const TOOLS: bool,
> ServerCapabilitiesBuilder<
    ServerCapabilitiesBuilderState<
        EXPERIMENTAL,
        LOGGING,
        COMPLETIONS,
        PROMPTS,
        RESOURCES,
        TOOLS,
        false,
    >,
> {
    /// Enables `tasks` with nothing set, the default value of its type.
    pub fn enable_tasks(self) -> (r: ServerCapabilitiesBuilder<
        ServerCapabilitiesBuilderState<
            EXPERIMENTAL,
            LOGGING,
            COMPLETIONS,
            PROMPTS,
            RESOURCES,
            TOOLS,
            true,
        >,
    >)
        ensures
            r@ == self@.enable(ServerCapability::Tasks(TasksCapabilityView::unset())),
            r.built() == (ServerCapabilities { tasks: r.tasks, ..self.built() }),
            self.wf() ==> r.wf(),
    {
        ServerCapabilitiesBuilder {
            experimental: self.experimental,
            logging: self.logging,
            completions: self.completions,
            prompts: self.prompts,
            resources: self.resources,
            tools: self.tools,
            tasks: Some(TasksCapability::default()),
            state: PhantomData,
        }
    }

    /// Enables `tasks` with the value given.
    pub fn enable_tasks_with(
        self,
        tasks: TasksCapability,
    ) -> (r: ServerCapabilitiesBuilder<
        ServerCapabilitiesBuilderState<
            EXPERIMENTAL,
            LOGGING,
            COMPLETIONS,
            PROMPTS,
            RESOURCES,
            TOOLS,
            true,
        >,
    >)
        ensures
            r@ == self@.enable(ServerCapability::Tasks(tasks@)),
            r.built() == (ServerCapabilities { tasks: Some(tasks), ..self.built() }),
            self.wf() ==> r.wf(),
    {
        ServerCapabilitiesBuilder {
            experimental: self.experimental,
            logging: self.logging,
            completions: self.completions,
            prompts: self.prompts,
            resources: self.resources,
            tools: self.tools,
            tasks: Some(tasks),
            state: PhantomData,
        }
    }
}

impl<
    const EXPERIMENTAL: bool,
    const LOGGING: bool,
    const COMPLETIONS: bool,
    const PROMPTS: bool,
    const RESOURCES: bool,
    const TASKS: bool,
> ServerCapabilitiesBuilder<
    ServerCapabilitiesBuilderState<
        EXPERIMENTAL,
        LOGGING,
        COMPLETIONS,
        PROMPTS,
        RESOURCES,
        true,
        TASKS,
    >,
> {
    /// Sets `list_changed` in the tools capability: changes to the list of
    /// tools will be announced.
    pub fn enable_tool_list_changed(self) -> (r: Self)
        ensures
            r@ == self@.tool_list_changed(),
            r.built() == (ServerCapabilities { tools: r.tools, ..self.built() }),
            self.wf() ==> r.wf(),
            self.wf() ==> r@.tools == Some(ToolsCapability { list_changed: Some(true) }),
    {
        let mut builder = self;
        if let Some(c) = builder.tools.as_mut() {
            c.list_changed = Some(true);
        }
        builder
    }
}

impl<
    const EXPERIMENTAL: bool,
    const LOGGING: bool,
    const COMPLETIONS: bool,
    const RESOURCES: bool,
    const TOOLS: bool,
    const TASKS: bool,
> ServerCapabilitiesBuilder<
    ServerCapabilitiesBuilderState<
        EXPERIMENTAL,
        LOGGING,
        COMPLETIONS,
        true,
        RESOURCES,
        TOOLS,
        TASKS,
    >,
> {
    /// Sets `list_changed` in the prompts capability: changes to the list of
    /// prompts will be announced.
    pub fn enable_prompts_list_changed(self) -> (r: Self)
        ensures
            r@ == self@.prompts_list_changed(),
            r.built() == (ServerCapabilities { prompts: r.prompts, ..self.built() }),
            self.wf() ==> r.wf(),
            self.wf() ==> r@.prompts == Some(PromptsCapability { list_changed: Some(true) }),
    {
        let mut builder = self;
        if let Some(c) = builder.prompts.as_mut() {
            c.list_changed = Some(true);
        }
        builder
    }
}

impl<
    const EXPERIMENTAL: bool,
    const LOGGING: bool,
    const COMPLETIONS: bool,
    const PROMPTS: bool,
    const TOOLS: bool,
    const TASKS: bool,
> ServerCapabilitiesBuilder<
    ServerCapabilitiesBuilderState<EXPERIMENTAL, LOGGING, COMPLETIONS, PROMPTS, true, TOOLS, TASKS>,
> {
    /// Sets `list_changed` in the resources capability and leaves `subscribe`
    /// as it is.
    pub fn enable_resources_list_changed(self) -> (r: Self)
        ensures
            r@ == self@.resources_list_changed(),
            r.built() == (ServerCapabilities { resources: r.resources, ..self.built() }),
            self.wf() ==> r.wf(),
            self.wf() ==> r@.resources == Some(
                ResourcesCapability {
                    subscribe: self@.resources->0.subscribe,
                    list_changed: Some(true),
                },
            ),
    {
        let mut builder = self;
        if let Some(c) = builder.resources.as_mut() {
            c.list_changed = Some(true);
        }
        builder
    }

    /// Sets `subscribe` in the resources capability and leaves `list_changed`
    /// as it is.
    pub fn enable_resources_subscribe(self) -> (r: Self)
        ensures
            r@ == self@.resources_subscribe(),
            r.built() == (ServerCapabilities { resources: r.resources, ..self.built() }),
            self.wf() ==> r.wf(),
            self.wf() ==> r@.resources == Some(
                ResourcesCapability {
                    subscribe: Some(true),
                    list_changed: self@.resources->0.list_changed,
                },
            ),
    {
        let mut builder = self;
        if let Some(c) = builder.resources.as_mut() {
            c.subscribe = Some(true);
        }
        builder
    }
}

} // verus!
