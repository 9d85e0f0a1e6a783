//! The capabilities that a client advertises, and what they mean.
use crate::capability::{
    optional_tasks_view, ElicitationCapability, RootsCapabilities, TasksCapability,
    TasksCapabilityView,
};
use crate::json::{
    optional_experimental_entries, optional_object_entries, ExperimentalCapabilities,
    ExperimentalView, JsonObject, ObjectView,
};
use vstd::prelude::*;

verus! {

/// What a client advertises. Each capability is advertised exactly if its
/// field is present, even where the value says nothing more.
#[derive(Debug, Clone, PartialEq)]
pub struct ClientCapabilities {
    pub experimental: Option<ExperimentalCapabilities>,
    /// Deprecated: roots have left the protocol.
    pub roots: Option<RootsCapabilities>,
    pub sampling: Option<JsonObject>,
    /// Whether the client handles requests of a server for input from the user.
    pub elicitation: Option<ElicitationCapability>,
    pub tasks: Option<TasksCapability>,
}

/// The capabilities of a client, by name.
pub enum ClientCapabilityKind {
    Experimental,
    Roots,
    Sampling,
    Elicitation,
    Tasks,
}

/// One capability of a client together with its value.
pub enum ClientCapability {
    Experimental(ExperimentalView),
    Roots(RootsCapabilities),
    Sampling(ObjectView),
    Elicitation(ElicitationCapability),
    Tasks(TasksCapabilityView),
}

impl ClientCapability {
    /// Which capability this is.
    pub open spec fn kind(self) -> ClientCapabilityKind {
        match self {
            ClientCapability::Experimental(_) => ClientCapabilityKind::Experimental,
            ClientCapability::Roots(_) => ClientCapabilityKind::Roots,
            ClientCapability::Sampling(_) => ClientCapabilityKind::Sampling,
            ClientCapability::Elicitation(_) => ClientCapabilityKind::Elicitation,
            ClientCapability::Tasks(_) => ClientCapabilityKind::Tasks,
        }
    }
}

/// The value of a [`ClientCapabilities`] record, and of a builder on the way
/// to one: which capabilities are present, and with what contents. Two
/// records say the same exactly if their views are equal.
pub struct ClientCapabilitiesView {
    pub experimental: Option<ExperimentalView>,
    pub roots: Option<RootsCapabilities>,
    pub sampling: Option<ObjectView>,
    pub elicitation: Option<ElicitationCapability>,
    pub tasks: Option<TasksCapabilityView>,
}

impl ClientCapabilitiesView {
    /// The record in which every capability is absent.
    pub open spec fn absent() -> Self {
        ClientCapabilitiesView {
            experimental: None,
            roots: None,
            sampling: None,
            elicitation: None,
            tasks: None,
        }
    }

    /// The capability `kind` as this record holds it, if it is present.
    pub open spec fn capability(self, kind: ClientCapabilityKind) -> Option<ClientCapability> {
        match kind {
            ClientCapabilityKind::Experimental => match self.experimental {
                Some(v) => Some(ClientCapability::Experimental(v)),
                None => None,
            },
            ClientCapabilityKind::Roots => match self.roots {
                Some(v) => Some(ClientCapability::Roots(v)),
                None => None,
            },
            ClientCapabilityKind::Sampling => match self.sampling {
                Some(v) => Some(ClientCapability::Sampling(v)),
                None => None,
            },
            ClientCapabilityKind::Elicitation => match self.elicitation {
                Some(v) => Some(ClientCapability::Elicitation(v)),
                None => None,
            },
            ClientCapabilityKind::Tasks => match self.tasks {
                Some(v) => Some(ClientCapability::Tasks(v)),
                None => None,
            },
        }
    }

    /// Whether the capability `kind` is present.
    pub open spec fn advertises(self, kind: ClientCapabilityKind) -> bool {
        self.capability(kind) is Some
    }

    /// This record with the capability `c` present and holding the value of
    /// `c`; every other capability is as it was.
    pub open spec fn enable(self, c: ClientCapability) -> Self {
        match c {
            ClientCapability::Experimental(v) => ClientCapabilitiesView {
                experimental: Some(v),
                ..self
            },
            ClientCapability::Roots(v) => ClientCapabilitiesView { roots: Some(v), ..self },
            ClientCapability::Sampling(v) => ClientCapabilitiesView { sampling: Some(v), ..self },
            ClientCapability::Elicitation(v) => ClientCapabilitiesView {
                elicitation: Some(v),
                ..self
            },
            ClientCapability::Tasks(v) => ClientCapabilitiesView { tasks: Some(v), ..self },
        }
    }

    /// This record after enabling the capabilities of `cs` one after the
    /// other, the first one first.
    pub open spec fn enable_all(self, cs: Seq<ClientCapability>) -> Self
        decreases cs.len(),
    {
        if cs.len() == 0 {
            self
        } else {
            self.enable_all(cs.drop_last()).enable(cs.last())
        }
    }

    /// This record with `list_changed` set in the roots capability, if that
    /// capability is present; unchanged if it is absent.
    pub open spec fn roots_list_changed(self) -> Self {
        ClientCapabilitiesView {
            roots: match self.roots {
                Some(c) => Some(c.with_list_changed()),
                None => None,
            },
            ..self
        }
    }

    /// This record with URL mode supported in the elicitation capability, if
    /// that capability is present; unchanged if it is absent.
    pub open spec fn elicitation_url_mode(self) -> Self {
        ClientCapabilitiesView {
            elicitation: match self.elicitation {
                Some(c) => Some(c.with_url_mode()),
                None => None,
            },
            ..self
        }
    }

    /// This record with the deprecated `schema_validation` flag set in the
    /// elicitation capability, if that capability is present; unchanged if
    /// it is absent.
    pub open spec fn elicitation_schema_validation(self) -> Self {
        ClientCapabilitiesView {
            elicitation: match self.elicitation {
                Some(c) => Some(c.with_schema_validation()),
                None => None,
            },
            ..self
        }
    }
}

impl View for ClientCapabilities {
    type V = ClientCapabilitiesView;

    open spec fn view(&self) -> ClientCapabilitiesView {
        ClientCapabilitiesView {
            experimental: optional_experimental_entries(self.experimental),
            roots: self.roots,
            sampling: optional_object_entries(self.sampling),
            elicitation: self.elicitation,
            tasks: optional_tasks_view(self.tasks),
        }
    }
}

impl ClientCapabilities {
    /// The record in which every capability is absent: the default.
    pub open spec fn absent() -> Self {
        ClientCapabilities {
            experimental: None,
            roots: None,
            sampling: None,
            elicitation: None,
            tasks: None,
        }
    }
}

impl Default for ClientCapabilities {
    /// The record that advertises nothing.
    fn default() -> (r: Self)
        ensures
            r == Self::absent(),
            r@ == ClientCapabilitiesView::absent(),
    {
        ClientCapabilities {
            experimental: None,
            roots: None,
            sampling: None,
            elicitation: None,
            tasks: None,
        }
    }
}

/// Enabling a capability makes it present with the value given.
pub proof fn lemma_client_enable_reads_back(v: ClientCapabilitiesView, c: ClientCapability)
    ensures
        v.enable(c).capability(c.kind()) == Some(c),
        v.enable(c).advertises(c.kind()),
{
}

/// Enabling a capability changes no other capability: neither whether it is
/// present nor its value.
pub proof fn lemma_client_enable_leaves_others(
    v: ClientCapabilitiesView,
    c: ClientCapability,
    kind: ClientCapabilityKind,
)
    requires
        kind != c.kind(),
    ensures
        v.enable(c).capability(kind) == v.capability(kind),
        v.enable(c).advertises(kind) == v.advertises(kind),
{
}

/// Two different capabilities can be enabled in either order: the record is
/// the same.
pub proof fn lemma_client_enable_commutes(
    v: ClientCapabilitiesView,
    a: ClientCapability,
    b: ClientCapability,
)
    requires
        a.kind() != b.kind(),
    ensures
        v.enable(a).enable(b) == v.enable(b).enable(a),
{
}

/// After any sequence of enable operations, a capability is present exactly
/// if it was present before or the sequence enabled it. From the record in
/// which all are absent, exactly the capabilities enabled are present.
pub proof fn lemma_client_enable_all_presence(
    v: ClientCapabilitiesView,
    cs: Seq<ClientCapability>,
    kind: ClientCapabilityKind,
)
    ensures
        v.enable_all(cs).advertises(kind) <==> (v.advertises(kind) || exists|i: int|
            0 <= i < cs.len() && (#[trigger] cs[i]).kind() == kind),
        ClientCapabilitiesView::absent().enable_all(cs).advertises(kind) <==> exists|i: int|
            0 <= i < cs.len() && (#[trigger] cs[i]).kind() == kind,
    decreases cs.len(),
{
    if cs.len() > 0 {
        let front = cs.drop_last();
        lemma_client_enable_all_presence(v, front, kind);
        lemma_client_enable_all_presence(ClientCapabilitiesView::absent(), front, kind);
        if cs.last().kind() == kind {
            assert(cs[cs.len() - 1].kind() == kind);
        } else if exists|i: int| 0 <= i < front.len() && (#[trigger] front[i]).kind() == kind {
            let i = choose|i: int| 0 <= i < front.len() && (#[trigger] front[i]).kind() == kind;
            assert(cs[i].kind() == kind);
        } else {
            assert forall|i: int| 0 <= i < cs.len() implies (#[trigger] cs[i]).kind() != kind by {
                if i < front.len() {
                    assert(front[i].kind() != kind);
                }
            }
        }
    }
}

/// After any sequence of enable operations, a capability that the sequence
/// enabled holds the value that was given last for it.
pub proof fn lemma_client_enable_all_value(
    v: ClientCapabilitiesView,
    cs: Seq<ClientCapability>,
    i: int,
)
    requires
        0 <= i < cs.len(),
        forall|j: int| i < j < cs.len() ==> (#[trigger] cs[j]).kind() != cs[i].kind(),
    ensures
        v.enable_all(cs).capability(cs[i].kind()) == Some(cs[i]),
    decreases cs.len(),
{
    if i < cs.len() - 1 {
        let front = cs.drop_last();
        assert(front[i] == cs[i]);
        assert forall|j: int| i < j < front.len() implies (#[trigger] front[j]).kind()
            != front[i].kind() by {
            assert(cs[j].kind() != cs[i].kind());
        }
        lemma_client_enable_all_value(v, front, i);
        assert(cs[cs.len() - 1].kind() != cs[i].kind());
    }
}

/// The record in which all capabilities are absent advertises nothing.
pub proof fn lemma_client_absent_advertises_nothing(kind: ClientCapabilityKind)
    ensures
        !ClientCapabilitiesView::absent().advertises(kind),
        ClientCapabilitiesView::absent().enable_all(Seq::empty())
            == ClientCapabilitiesView::absent(),
{
}

/// Setting a sub-flag neither adds nor removes a capability, and leaves
/// every capability but its own as it was.
pub proof fn lemma_client_refinements_keep_presence(
    v: ClientCapabilitiesView,
    kind: ClientCapabilityKind,
)
    ensures
        v.roots_list_changed().advertises(kind) == v.advertises(kind),
        v.elicitation_url_mode().advertises(kind) == v.advertises(kind),
        v.elicitation_schema_validation().advertises(kind) == v.advertises(kind),
        kind != ClientCapabilityKind::Roots ==> v.roots_list_changed().capability(kind)
            == v.capability(kind),
        kind != ClientCapabilityKind::Elicitation ==> v.elicitation_url_mode().capability(kind)
            == v.capability(kind),
        kind != ClientCapabilityKind::Elicitation ==> v.elicitation_schema_validation().capability(
            kind,
        ) == v.capability(kind),
{
}

/// The settings of the elicitation capability do not touch each other:
/// turning URL mode on keeps form mode and the deprecated flag as they were,
/// setting the deprecated flag keeps both modes as they were, and the two can
/// be done in either order. Form mode only, with URL mode turned on, is both
/// modes.
pub proof fn lemma_client_elicitation_settings_independent(v: ClientCapabilitiesView)
    ensures
        v.elicitation is Some ==> {
            &&& v.elicitation_url_mode().elicitation->0.form == v.elicitation->0.form
            &&& v.elicitation_url_mode().elicitation->0.schema_validation
                == v.elicitation->0.schema_validation
            &&& v.elicitation_url_mode().elicitation->0.url is Some
            &&& v.elicitation_schema_validation().elicitation->0.form == v.elicitation->0.form
            &&& v.elicitation_schema_validation().elicitation->0.url == v.elicitation->0.url
            &&& v.elicitation_schema_validation().elicitation->0.schema_validation == Some(true)
        },
        v.elicitation is None ==> v.elicitation_url_mode() == v
            && v.elicitation_schema_validation() == v,
        v.elicitation_url_mode().elicitation_schema_validation()
            == v.elicitation_schema_validation().elicitation_url_mode(),
        v.enable(
            ClientCapability::Elicitation(ElicitationCapability::spec_form_only()),
        ).elicitation_url_mode() == v.enable(
            ClientCapability::Elicitation(ElicitationCapability::spec_both()),
        ),
{
}

} // verus!
