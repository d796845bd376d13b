//! The reconciliation core: find a container by its engine-qualified
//! name, create it from the configuration when absent, then start it.
//!
//! The machine takes one decision per engine answer and never touches the
//! engine itself: the caller performs each returned [`EngineAction`] and
//! hands the engine's answer back to the matching `on_*` method.

use vstd::prelude::*;

use crate::config::{ContainerConfiguration, ContainerConfigurationView};
use crate::errors::{
    classified, classify_engine_error, ContainerRunError, ContainerRunErrorView, EngineError,
    EngineErrorView,
};
use crate::options::{build_create_request, request_of, CreateRequest, CreateRequestView};

verus! {

/// One row of the engine's container listing: the engine-assigned id and
/// the names the engine knows the container by.
pub struct ContainerRecord {
    pub id: String,
    pub names: Vec<String>,
}

/// Mathematical image of a [`ContainerRecord`].
#[verifier::ext_equal]
pub struct ContainerRecordView {
    pub id: Seq<char>,
    pub names: Seq<Seq<char>>,
}

impl View for ContainerRecord {
    type V = ContainerRecordView;

    open spec fn view(&self) -> ContainerRecordView {
        ContainerRecordView { id: self.id@, names: self.names.deep_view() }
    }
}

impl DeepView for ContainerRecord {
    type V = ContainerRecordView;

    open spec fn deep_view(&self) -> ContainerRecordView {
        self.view()
    }
}

/// The engine-qualified form of a configuration name: the engine lists
/// its containers' names with one leading separator character.
pub open spec fn qualified_name(name: Seq<char>) -> Seq<char> {
    "/"@ + name
}

/// Whether a listed record bears the qualified form of `name`.
pub open spec fn record_matches(r: ContainerRecordView, name: Seq<char>) -> bool {
    exists|i: int| 0 <= i < r.names.len() && #[trigger] r.names[i] == qualified_name(name)
}

/// The first listed record bearing the qualified form of `name`, if any.
pub open spec fn spec_find(
    list: Seq<ContainerRecordView>,
    name: Seq<char>,
) -> Option<ContainerRecordView>
    decreases list.len(),
{
    if list.len() == 0 {
        None
    } else if record_matches(list[0], name) {
        Some(list[0])
    } else {
        spec_find(list.drop_first(), name)
    }
}

fn names_contain(names: &Vec<String>, target: &String) -> (r: bool)
    ensures
        r == (exists|t: int|
            0 <= t < names.deep_view().len() && #[trigger] names.deep_view()[t] == target@),
{
    let mut i: usize = 0;
    while i < names.len()
        invariant
            i <= names@.len(),
            forall|t: int| 0 <= t < i ==> #[trigger] names.deep_view()[t] != target@,
        decreases names@.len() - i,
    {
        if names[i].eq(target) {
            assert(names.deep_view()[i as int] == target@);
            return true;
        }
        i += 1;
    }
    false
}

/// Finds the id of the first listed container bearing the qualified form
/// of `name`, exactly as [`spec_find`] states it.
pub fn find_container_id(list: &Vec<ContainerRecord>, name: &String) -> (r: Option<String>)
    ensures
        match r {
            Some(id) => spec_find(list.deep_view(), name@) matches Some(rec) && id@ == rec.id,
            None => spec_find(list.deep_view(), name@) is None,
        },
{
    let mut qname = "/".to_owned();
    qname.append(name.as_str());
    proof {
        assert(qname@ == qualified_name(name@));
        assert(list.deep_view().skip(0) =~= list.deep_view());
    }
    let ghost full = list.deep_view();
    let mut i: usize = 0;
    while i < list.len()
        invariant
            i <= list@.len(),
            full == list.deep_view(),
            full.len() == list@.len(),
            qname@ == qualified_name(name@),
            spec_find(full, name@) == spec_find(full.skip(i as int), name@),
        decreases list@.len() - i,
    {
        let matched = names_contain(&list[i].names, &qname);
        proof {
            assert(full[i as int] == list@[i as int].deep_view());
            assert(full.skip(i as int)[0] == full[i as int]);
            assert(matched == record_matches(full[i as int], name@));
        }
        if matched {
            proof {
                assert(spec_find(full.skip(i as int), name@) == Some(full[i as int]));
            }
            return Some(list[i].id.clone());
        }
        proof {
            assert(full.skip(i as int).drop_first() =~= full.skip(i as int + 1));
        }
        i += 1;
    }
    proof {
        assert(full.skip(i as int) =~= Seq::<ContainerRecordView>::empty());
    }
    None
}

/// Where a reconciliation stands: which engine answer it waits for, or
/// how it ended.
pub enum Phase {
    /// Waiting for the listing of all containers, stopped ones included.
    Listing,
    /// Waiting for the engine's answer to the create call.
    Creating,
    /// Waiting for the engine's answer to starting this container id.
    Starting { id: String },
    /// The reconciliation is over.
    Done { outcome: Result<(), ContainerRunError> },
}

/// Mathematical image of a [`Phase`].
#[verifier::ext_equal]
pub enum PhaseView {
    Listing,
    Creating,
    Starting { id: Seq<char> },
    Done { outcome: Result<(), ContainerRunErrorView> },
}

impl View for Phase {
    type V = PhaseView;

    open spec fn view(&self) -> PhaseView {
        match self {
            Phase::Listing => PhaseView::Listing,
            Phase::Creating => PhaseView::Creating,
            Phase::Starting { id } => PhaseView::Starting { id: id@ },
            Phase::Done { outcome } => PhaseView::Done {
                outcome: match outcome {
                    Ok(u) => Ok(*u),
                    Err(e) => Err(e@),
                },
            },
        }
    }
}

/// What the caller must do next against the engine.
pub enum EngineAction {
    /// Issue the create call with these options.
    Create { request: CreateRequest },
    /// Issue the start call on this container id, with default start
    /// options.
    Start { id: String },
    /// Nothing: the reconciliation is over and its outcome stands in the
    /// phase.
    Finish,
}

/// Mathematical image of an [`EngineAction`].
#[verifier::ext_equal]
pub enum EngineActionView {
    Create { request: CreateRequestView },
    Start { id: Seq<char> },
    Finish,
}

impl View for EngineAction {
    type V = EngineActionView;

    open spec fn view(&self) -> EngineActionView {
        match self {
            EngineAction::Create { request } => EngineActionView::Create { request: request@ },
            EngineAction::Start { id } => EngineActionView::Start { id: id@ },
            EngineAction::Finish => EngineActionView::Finish,
        }
    }
}

/// The decision after the listing answer: a failed listing ends the
/// reconciliation with the classified error; when some listed container
/// bears the qualified name, that container is started under its existing
/// id and nothing is created; an absent name leads to the create call
/// built from the configuration.
pub open spec fn listed_step(
    conf: ContainerConfigurationView,
    result: Result<Seq<ContainerRecordView>, EngineErrorView>,
) -> (PhaseView, EngineActionView) {
    match result {
        Ok(list) => match spec_find(list, conf.name) {
            Some(rec) => (
                PhaseView::Starting { id: rec.id },
                EngineActionView::Start { id: rec.id },
            ),
            None => (PhaseView::Creating, EngineActionView::Create { request: request_of(conf) }),
        },
        Err(e) => (PhaseView::Done { outcome: Err(classified(e)) }, EngineActionView::Finish),
    }
}

/// The decision after the create answer: success starts the container
/// under exactly the id the create call returned; failure ends the
/// reconciliation with the classified error.
pub open spec fn created_step(result: Result<Seq<char>, EngineErrorView>) -> (
    PhaseView,
    EngineActionView,
) {
    match result {
        Ok(id) => (PhaseView::Starting { id }, EngineActionView::Start { id }),
        Err(e) => (PhaseView::Done { outcome: Err(classified(e)) }, EngineActionView::Finish),
    }
}

/// The decision after the start answer: success ends the reconciliation
/// successfully, failure ends it with the classified error.
pub open spec fn started_step(result: Result<(), EngineErrorView>) -> (
    PhaseView,
    EngineActionView,
) {
    match result {
        Ok(u) => (PhaseView::Done { outcome: Ok(()) }, EngineActionView::Finish),
        Err(e) => (PhaseView::Done { outcome: Err(classified(e)) }, EngineActionView::Finish),
    }
}

/// One reconciliation in progress: the desired configuration and the
/// phase it has reached.
///
/// Two concurrent reconciliations for the same name are not guarded
/// against each other: both may observe the name absent in their listings
/// and both decide to create — a check-then-act race left to the engine
/// to arbitrate.
pub struct Reconciler {
    pub conf: ContainerConfiguration,
    pub phase: Phase,
}

impl Reconciler {
    /// Begins a reconciliation. The first thing the caller owes the
    /// machine is the listing of all containers, stopped ones included.
    pub fn new(conf: ContainerConfiguration) -> (r: Reconciler)
        ensures
            r.conf == conf,
            r.phase@ is Listing,
    {
        Reconciler { conf, phase: Phase::Listing }
    }

    /// Consumes the listing answer and decides between starting the
    /// container found under the qualified name and creating a new one.
    pub fn on_listed(&mut self, result: Result<Vec<ContainerRecord>, EngineError>) -> (a:
        EngineAction)
        requires
            old(self).phase@ is Listing,
        ensures
            final(self).conf == old(self).conf,
            match result {
                Ok(list) => (final(self).phase@, a@) == listed_step(
                    old(self).conf@,
                    Ok(list.deep_view()),
                ),
                Err(e) => (final(self).phase@, a@) == listed_step(old(self).conf@, Err(e@)),
            },
    {
        match result {
            Ok(list) => {
                let found = find_container_id(&list, &self.conf.name);
                match found {
                    Some(id) => {
                        let action = EngineAction::Start { id: id.clone() };
                        self.phase = Phase::Starting { id };
                        proof {
                            assert((self.phase@, action@) =~~= listed_step(
                                old(self).conf@,
                                Ok(list.deep_view()),
                            ));
                        }
                        action
                    },
                    None => {
                        let request = build_create_request(&self.conf);
                        let action = EngineAction::Create { request };
                        self.phase = Phase::Creating;
                        proof {
                            assert((self.phase@, action@) =~~= listed_step(
                                old(self).conf@,
                                Ok(list.deep_view()),
                            ));
                        }
                        action
                    },
                }
            },
            Err(e) => {
                let err = classify_engine_error(e);
                self.phase = Phase::Done { outcome: Err(err) };
                EngineAction::Finish
            },
        }
    }

    /// Consumes the create answer: a created container is started under
    /// exactly the id the engine returned for the create call.
    pub fn on_created(&mut self, result: Result<String, EngineError>) -> (a: EngineAction)
        requires
            old(self).phase@ is Creating,
        ensures
            final(self).conf == old(self).conf,
            match result {
                Ok(id) => (final(self).phase@, a@) == created_step(Ok(id@)),
                Err(e) => (final(self).phase@, a@) == created_step(Err(e@)),
            },
    {
        match result {
            Ok(id) => {
                let action = EngineAction::Start { id: id.clone() };
                self.phase = Phase::Starting { id };
                action
            },
            Err(e) => {
                let err = classify_engine_error(e);
                self.phase = Phase::Done { outcome: Err(err) };
                EngineAction::Finish
            },
        }
    }

    /// Consumes the start answer and closes the reconciliation.
    pub fn on_started(&mut self, result: Result<(), EngineError>) -> (a: EngineAction)
        requires
            old(self).phase@ is Starting,
        ensures
            final(self).conf == old(self).conf,
            match result {
                Ok(u) => (final(self).phase@, a@) == started_step(Ok(())),
                Err(e) => (final(self).phase@, a@) == started_step(Err(e@)),
            },
    {
        match result {
            Ok(u) => {
                self.phase = Phase::Done { outcome: Ok(()) };
                EngineAction::Finish
            },
            Err(e) => {
                let err = classify_engine_error(e);
                self.phase = Phase::Done { outcome: Err(err) };
                EngineAction::Finish
            },
        }
    }
}

} // verus!
