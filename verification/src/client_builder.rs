//! The typestate builder of [`ClientCapabilities`].
//!
//! The builder's type carries one tag per capability, `false` until the
//! capability is enabled and `true` from then on. `enable_<capability>` and
//! `enable_<capability>_with` exist only where the tag reads `false`, and flip
//! it; the methods that set a sub-flag exist only where the tag of their
//! capability reads `true`. Nothing disables a capability again.
use crate::capability::{
    ElicitationCapability, RootsCapabilities, TasksCapability, TasksCapabilityView,
    UrlElicitationCapability,
};
use crate::json::{
    default_experimental, default_object, experimental_entries, object_entries,
    ExperimentalCapabilities, ExperimentalView, JsonObject, ObjectView,
};
use crate::client::{
    ClientCapabilities, ClientCapabilitiesView, ClientCapability, ClientCapabilityKind,
};
use std::marker::PhantomData;
use vstd::prelude::*;

verus! {

/// The tags of a [`ClientCapabilitiesBuilder`]: for each capability, whether
/// it has been enabled.
#[derive(Default, Clone, Copy, Debug)]
pub struct ClientCapabilitiesBuilderState<
    const EXPERIMENTAL: bool,
    const ROOTS: bool,
    const SAMPLING: bool,
    const ELICITATION: bool,
    const TASKS: bool,
>;

/// A [`ClientCapabilities`] record under construction. `S` holds the tags;
/// a new builder has all of them `false`.
#[derive(Debug)]
pub struct ClientCapabilitiesBuilder<
    S = ClientCapabilitiesBuilderState<false, false, false, false, false>,
> {
    pub experimental: Option<ExperimentalCapabilities>,
    pub roots: Option<RootsCapabilities>,
    pub sampling: Option<JsonObject>,
    pub elicitation: Option<ElicitationCapability>,
    pub tasks: Option<TasksCapability>,
    pub state: PhantomData<S>,
}

impl<S> View for ClientCapabilitiesBuilder<S> {
    type V = ClientCapabilitiesView;

    /// A builder is worth the record that it would build.
    open spec fn view(&self) -> ClientCapabilitiesView {
        self.built()@
    }
}

impl<S: Default> Default for ClientCapabilitiesBuilder<S> {
    /// A builder in which every capability is absent.
    fn default() -> (r: Self)
        ensures
            r@ == ClientCapabilitiesView::absent(),
    {
        ClientCapabilitiesBuilder {
            experimental: None,
            roots: None,
            sampling: None,
            elicitation: None,
            tasks: None,
            state: PhantomData,
        }
    }
}

impl ClientCapabilities {
    /// Creates a new [`ClientCapabilities`] builder, with nothing enabled.
    pub fn builder() -> (r: ClientCapabilitiesBuilder)
        ensures
            r@ == ClientCapabilitiesView::absent(),
            r.wf(),
    {
        <ClientCapabilitiesBuilder>::default()
    }
}

impl<S> ClientCapabilitiesBuilder<S> {
    /// The record that [`build`](Self::build) returns: each capability as the
    /// builder holds it.
    pub open spec fn built(self) -> ClientCapabilities {
        ClientCapabilities {
            experimental: self.experimental,
            roots: self.roots,
            sampling: self.sampling,
            elicitation: self.elicitation,
            tasks: self.tasks,
        }
    }

    /// Finishes the record. Whatever has been enabled is present in it with
    /// the value it was given, and everything else is absent. This is
    /// possible in every state of the builder and never fails.
    pub fn build(self) -> (r: ClientCapabilities)
        ensures
            r == self.built(),
            r@ == self@,
    {
        ClientCapabilities {
            experimental: self.experimental,
            roots: self.roots,
            sampling: self.sampling,
            elicitation: self.elicitation,
            tasks: self.tasks,
        }
    }

    /// Before anything is enabled, the builder builds the record in which
    /// every capability is absent: the default of [`ClientCapabilities`].
    pub proof fn lemma_fresh_builder_builds_default(self)
        requires
            self@ == ClientCapabilitiesView::absent(),
        ensures
            self.built() == ClientCapabilities::absent(),
    {
    }
}

impl<S> From<ClientCapabilitiesBuilder<S>> for ClientCapabilities {
    /// The same as [`ClientCapabilitiesBuilder::build`].
    fn from(builder: ClientCapabilitiesBuilder<S>) -> (r: Self) {
        builder.build()
    }
}

impl<S> vstd::std_specs::convert::FromSpecImpl<ClientCapabilitiesBuilder<S>> for ClientCapabilities {
    open spec fn obeys_from_spec() -> bool {
        true
    }

    open spec fn from_spec(builder: ClientCapabilitiesBuilder<S>) -> Self {
        builder.built()
    }
}

impl<
    const EXPERIMENTAL: bool,
    const ROOTS: bool,
    const SAMPLING: bool,
    const ELICITATION: bool,
    const TASKS: bool,
> ClientCapabilitiesBuilder<
    ClientCapabilitiesBuilderState<EXPERIMENTAL, ROOTS, SAMPLING, ELICITATION, TASKS>,
> {
    /// The tag of the capability `kind` in this builder's type.
    pub open spec fn tag(kind: ClientCapabilityKind) -> bool {
        match kind {
            ClientCapabilityKind::Experimental => EXPERIMENTAL,
            ClientCapabilityKind::Roots => ROOTS,
            ClientCapabilityKind::Sampling => SAMPLING,
            ClientCapabilityKind::Elicitation => ELICITATION,
            ClientCapabilityKind::Tasks => TASKS,
        }
    }

    /// The builder is well-formed: a capability is present exactly if its tag
    /// reads `true`. A new builder is well-formed and every method keeps it
    /// so; only a builder put together field by field can fail to be.
    pub open spec fn wf(self) -> bool {
        &&& self@.advertises(ClientCapabilityKind::Experimental) == EXPERIMENTAL
        &&& self@.advertises(ClientCapabilityKind::Roots) == ROOTS
        &&& self@.advertises(ClientCapabilityKind::Sampling) == SAMPLING
        &&& self@.advertises(ClientCapabilityKind::Elicitation) == ELICITATION
        &&& self@.advertises(ClientCapabilityKind::Tasks) == TASKS
    }

    /// The record built from a well-formed builder has exactly those
    /// capabilities present whose tag reads `true`, and all others absent.
    pub proof fn lemma_built_matches_tags(self, kind: ClientCapabilityKind)
        requires
            self.wf(),
        ensures
            self.built()@.advertises(kind) == Self::tag(kind),
    {
    }
}

impl<
    const ROOTS: bool,
    const SAMPLING: bool,
    const ELICITATION: bool,
    const TASKS: bool,
> ClientCapabilitiesBuilder<
    ClientCapabilitiesBuilderState<false, ROOTS, SAMPLING, ELICITATION, TASKS>,
> {
    /// Enables `experimental` with an empty map, the default value of its
    /// type.
    pub fn enable_experimental(self) -> (r: ClientCapabilitiesBuilder<
        ClientCapabilitiesBuilderState<true, ROOTS, SAMPLING, ELICITATION, TASKS>,
    >)
        ensures
            r@ == self@.enable(ClientCapability::Experimental(ExperimentalView::empty())),
            r.built() == (ClientCapabilities { experimental: r.experimental, ..self.built() }),
            self.wf() ==> r.wf(),
    {
        ClientCapabilitiesBuilder {
            experimental: Some(default_experimental()),
            roots: self.roots,
            sampling: self.sampling,
            elicitation: self.elicitation,
            tasks: self.tasks,
            state: PhantomData,
        }
    }

    /// Enables `experimental` with the map given.
    pub fn enable_experimental_with(
        self,
        experimental: ExperimentalCapabilities,
    ) -> (r: ClientCapabilitiesBuilder<
        ClientCapabilitiesBuilderState<true, ROOTS, SAMPLING, ELICITATION, TASKS>,
    >)
        ensures
            r@ == self@.enable(ClientCapability::Experimental(experimental_entries(experimental))),
            r.built() == (ClientCapabilities { experimental: Some(experimental), ..self.built() }),
            self.wf() ==> r.wf(),
    {
        ClientCapabilitiesBuilder {
            experimental: Some(experimental),
            roots: self.roots,
            sampling: self.sampling,
            elicitation: self.elicitation,
            tasks: self.tasks,
            state: PhantomData,
        }
    }
}

impl<
    const EXPERIMENTAL: bool,
    const SAMPLING: bool,
    const ELICITATION: bool,
    const TASKS: bool,
> ClientCapabilitiesBuilder<
    ClientCapabilitiesBuilderState<EXPERIMENTAL, false, SAMPLING, ELICITATION, TASKS>,
> {
    /// Enables `roots` with no sub-flag set, the default value of its type.
    /// Deprecated with the capability.
    pub fn enable_roots(self) -> (r: ClientCapabilitiesBuilder<
        ClientCapabilitiesBuilderState<EXPERIMENTAL, true, SAMPLING, ELICITATION, TASKS>,
    >)
        ensures
            r@ == self@.enable(ClientCapability::Roots(RootsCapabilities::unset())),
            r.built() == (ClientCapabilities { roots: r.roots, ..self.built() }),
            self.wf() ==> r.wf(),
    {
        ClientCapabilitiesBuilder {
            experimental: self.experimental,
            roots: Some(RootsCapabilities::default()),
            sampling: self.sampling,
            elicitation: self.elicitation,
            tasks: self.tasks,
            state: PhantomData,
        }
    }

    /// Enables `roots` with the value given. Deprecated with the capability.
    pub fn enable_roots_with(
        self,
        roots: RootsCapabilities,
    ) -> (r: ClientCapabilitiesBuilder<
        ClientCapabilitiesBuilderState<EXPERIMENTAL, true, SAMPLING, ELICITATION, TASKS>,
    >)
        ensures
            r@ == self@.enable(ClientCapability::Roots(roots)),
            r.built() == (ClientCapabilities { roots: Some(roots), ..self.built() }),
            self.wf() ==> r.wf(),
    {
        ClientCapabilitiesBuilder {
            experimental: self.experimental,
            roots: Some(roots),
            sampling: self.sampling,
            elicitation: self.elicitation,
            tasks: self.tasks,
            state: PhantomData,
        }
    }
}

impl<
    const EXPERIMENTAL: bool,
    const ROOTS: bool,
    const ELICITATION: bool,
    const TASKS: bool,
> ClientCapabilitiesBuilder<
    ClientCapabilitiesBuilderState<EXPERIMENTAL, ROOTS, false, ELICITATION, TASKS>,
> {
    /// Enables `sampling` with an empty options object, the default value of
    /// its type.
    pub fn enable_sampling(self) -> (r: ClientCapabilitiesBuilder<
        ClientCapabilitiesBuilderState<EXPERIMENTAL, ROOTS, true, ELICITATION, TASKS>,
    >)
        ensures
            r@ == self@.enable(ClientCapability::Sampling(ObjectView::empty())),
            r.built() == (ClientCapabilities { sampling: r.sampling, ..self.built() }),
            self.wf() ==> r.wf(),
    {
        ClientCapabilitiesBuilder {
            experimental: self.experimental,
            roots: self.roots,
            sampling: Some(default_object()),
            elicitation: self.elicitation,
            tasks: self.tasks,
            state: PhantomData,
        }
    }

    /// Enables `sampling` with the options given.
    pub fn enable_sampling_with(
        self,
        sampling: JsonObject,
    ) -> (r: ClientCapabilitiesBuilder<
        ClientCapabilitiesBuilderState<EXPERIMENTAL, ROOTS, true, ELICITATION, TASKS>,
    >)
        ensures
            r@ == self@.enable(ClientCapability::Sampling(object_entries(sampling))),
            r.built() == (ClientCapabilities { sampling: Some(sampling), ..self.built() }),
            self.wf() ==> r.wf(),
    {
        ClientCapabilitiesBuilder {
            experimental: self.experimental,
            roots: self.roots,
            sampling: Some(sampling),
            elicitation: self.elicitation,
            tasks: self.tasks,
            state: PhantomData,
        }
    }
}

impl<
    const EXPERIMENTAL: bool,
    const ROOTS: bool,
    const SAMPLING: bool,
    const TASKS: bool,
> ClientCapabilitiesBuilder<
    ClientCapabilitiesBuilderState<EXPERIMENTAL, ROOTS, SAMPLING, false, TASKS>,
> {
    /// Enables `elicitation` with no mode and no flag set, the default value
    /// of its type.
    pub fn enable_elicitation(self) -> (r: ClientCapabilitiesBuilder<
        ClientCapabilitiesBuilderState<EXPERIMENTAL, ROOTS, SAMPLING, true, TASKS>,
    >)
        ensures
            r@ == self@.enable(ClientCapability::Elicitation(ElicitationCapability::unset())),
            r.built() == (ClientCapabilities { elicitation: r.elicitation, ..self.built() }),
            self.wf() ==> r.wf(),
    {
        ClientCapabilitiesBuilder {
            experimental: self.experimental,
            roots: self.roots,
            sampling: self.sampling,
            elicitation: Some(ElicitationCapability::default()),
            tasks: self.tasks,
            state: PhantomData,
        }
    }

    /// Enables `elicitation` with the value given, such as
    /// [`ElicitationCapability::url_only`].
    pub fn enable_elicitation_with(
        self,
        elicitation: ElicitationCapability,
    ) -> (r: ClientCapabilitiesBuilder<
        ClientCapabilitiesBuilderState<EXPERIMENTAL, ROOTS, SAMPLING, true, TASKS>,
    >)
        ensures
            r@ == self@.enable(ClientCapability::Elicitation(elicitation)),
            r.built() == (ClientCapabilities { elicitation: Some(elicitation), ..self.built() }),
            self.wf() ==> r.wf(),
    {
        ClientCapabilitiesBuilder {
            experimental: self.experimental,
            roots: self.roots,
            sampling: self.sampling,
            elicitation: Some(elicitation),
            tasks: self.tasks,
            state: PhantomData,
        }
    }
}

impl<
    const EXPERIMENTAL: bool,
    const ROOTS: bool,
    const SAMPLING: bool,
    const ELICITATION: bool,
> ClientCapabilitiesBuilder<
    ClientCapabilitiesBuilderState<EXPERIMENTAL, ROOTS, SAMPLING, ELICITATION, false>,
> {
    /// Enables `tasks` with nothing set, the default value of its type.
    pub fn enable_tasks(self) -> (r: ClientCapabilitiesBuilder<
        ClientCapabilitiesBuilderState<EXPERIMENTAL, ROOTS, SAMPLING, ELICITATION, true>,
    >)
        ensures
            r@ == self@.enable(ClientCapability::Tasks(TasksCapabilityView::unset())),
            r.built() == (ClientCapabilities { tasks: r.tasks, ..self.built() }),
            self.wf() ==> r.wf(),
    {
        ClientCapabilitiesBuilder {
            experimental: self.experimental,
            roots: self.roots,
            sampling: self.sampling,
            elicitation: self.elicitation,
            tasks: Some(TasksCapability::default()),
            state: PhantomData,
        }
    }

    /// Enables `tasks` with the value given.
    pub fn enable_tasks_with(
        self,
        tasks: TasksCapability,
    ) -> (r: ClientCapabilitiesBuilder<
        ClientCapabilitiesBuilderState<EXPERIMENTAL, ROOTS, SAMPLING, ELICITATION, true>,
    >)
        ensures
            r@ == self@.enable(ClientCapability::Tasks(tasks@)),
            r.built() == (ClientCapabilities { tasks: Some(tasks), ..self.built() }),
            self.wf() ==> r.wf(),
    {
        ClientCapabilitiesBuilder {
            experimental: self.experimental,
            roots: self.roots,
            sampling: self.sampling,
            elicitation: self.elicitation,
            tasks: Some(tasks),
            state: PhantomData,
        }
    }
}

impl<
    const EXPERIMENTAL: bool,
    const SAMPLING: bool,
    const ELICITATION: bool,
    const TASKS: bool,
> ClientCapabilitiesBuilder<
    ClientCapabilitiesBuilderState<EXPERIMENTAL, true, SAMPLING, ELICITATION, TASKS>,
> {
    /// Sets `list_changed` in the roots capability: changes to the list of
    /// roots will be announced. Deprecated with the capability.
    pub fn enable_roots_list_changed(self) -> (r: Self)
        ensures
            r@ == self@.roots_list_changed(),
            r.built() == (ClientCapabilities { roots: r.roots, ..self.built() }),
            self.wf() ==> r.wf(),
            self.wf() ==> r@.roots == Some(RootsCapabilities { list_changed: Some(true) }),
    {
        let mut builder = self;
        if let Some(c) = builder.roots.as_mut() {
            c.list_changed = Some(true);
        }
        builder
    }
}

impl<
    const EXPERIMENTAL: bool,
    const ROOTS: bool,
    const SAMPLING: bool,
    const TASKS: bool,
> ClientCapabilitiesBuilder<
    ClientCapabilitiesBuilderState<EXPERIMENTAL, ROOTS, SAMPLING, true, TASKS>,
> {
    /// Turns URL mode on in the elicitation capability and leaves the rest of
    /// it as it is. After `enable_elicitation_form_only` this gives both
    /// modes.
    pub fn enable_elicitation_url_mode(self) -> (r: Self)
        ensures
            r@ == self@.elicitation_url_mode(),
            r.built() == (ClientCapabilities { elicitation: r.elicitation, ..self.built() }),
            self.wf() ==> r.wf(),
            self.wf() ==> r@.elicitation == Some(self@.elicitation->0.with_url_mode()),
    {
        let mut builder = self;
        if let Some(c) = builder.elicitation.as_mut() {
            c.url = Some(UrlElicitationCapability::default());
        }
        builder
    }

    /// Sets the deprecated `schema_validation` flag of the elicitation
    /// capability and leaves the rest of it as it is. The flag has moved into
    /// the form mode settings.
    pub fn enable_elicitation_schema_validation(self) -> (r: Self)
        ensures
            r@ == self@.elicitation_schema_validation(),
            r.built() == (ClientCapabilities { elicitation: r.elicitation, ..self.built() }),
            self.wf() ==> r.wf(),
            self.wf() ==> r@.elicitation == Some(self@.elicitation->0.with_schema_validation()),
    {
        let mut builder = self;
        if let Some(c) = builder.elicitation.as_mut() {
            c.schema_validation = Some(true);
        }
        builder
    }
}

impl<
    const EXPERIMENTAL: bool,
    const ROOTS: bool,
    const SAMPLING: bool,
    const TASKS: bool,
> ClientCapabilitiesBuilder<
    ClientCapabilitiesBuilderState<EXPERIMENTAL, ROOTS, SAMPLING, false, TASKS>,
> {
    /// Enables `elicitation` with form mode only. URL mode can be added with
    /// `enable_elicitation_url_mode`.
    pub fn enable_elicitation_form_only(self) -> (r: ClientCapabilitiesBuilder<
        ClientCapabilitiesBuilderState<EXPERIMENTAL, ROOTS, SAMPLING, true, TASKS>,
    >)
        ensures
            r@ == self@.enable(
                ClientCapability::Elicitation(ElicitationCapability::spec_form_only()),
            ),
            r.built() == (ClientCapabilities {
                elicitation: Some(ElicitationCapability::spec_form_only()),
                ..self.built()
            }),
            self.wf() ==> r.wf(),
    {
        ClientCapabilitiesBuilder {
            experimental: self.experimental,
            roots: self.roots,
            sampling: self.sampling,
            elicitation: Some(ElicitationCapability::form_only()),
            tasks: self.tasks,
            state: PhantomData,
        }
    }

    /// Enables `elicitation` with both form and URL mode.
    pub fn enable_elicitation_both(self) -> (r: ClientCapabilitiesBuilder<
        ClientCapabilitiesBuilderState<EXPERIMENTAL, ROOTS, SAMPLING, true, TASKS>,
    >)
        ensures
            r@ == self@.enable(
                ClientCapability::Elicitation(ElicitationCapability::spec_both()),
            ),
            r.built() == (ClientCapabilities {
                elicitation: Some(ElicitationCapability::spec_both()),
                ..self.built()
            }),
            self.wf() ==> r.wf(),
    {
        ClientCapabilitiesBuilder {
            experimental: self.experimental,
            roots: self.roots,
            sampling: self.sampling,
            elicitation: Some(ElicitationCapability::both()),
            tasks: self.tasks,
            state: PhantomData,
        }
    }
}

} // verus!
