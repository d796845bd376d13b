//! Laws of the reconciliation decisions, proved against the same spec
//! functions the step contracts use.

use vstd::prelude::*;

use crate::config::ContainerConfigurationView;
use crate::runner::{
    created_step, listed_step, record_matches, spec_find, ContainerRecordView, EngineActionView,
    PhaseView,
};
use crate::options::request_of;

verus! {

/// Position `i` holds the first listed record bearing the qualified form
/// of `name`.
pub open spec fn is_first_match(
    list: Seq<ContainerRecordView>,
    name: Seq<char>,
    i: int,
) -> bool {
    &&& 0 <= i < list.len()
    &&& record_matches(list[i], name)
    &&& forall|j: int| 0 <= j < i ==> !record_matches(#[trigger] list[j], name)
}

/// The record [`spec_find`] returns stands at the first position bearing
/// the qualified name; when [`spec_find`] returns nothing, no listed
/// record bears the name.
pub proof fn lemma_find_characterization(list: Seq<ContainerRecordView>, name: Seq<char>)
    ensures
        match spec_find(list, name) {
            Some(rec) => exists|i: int| #[trigger] is_first_match(list, name, i) && list[i] == rec,
            None => forall|i: int|
                0 <= i < list.len() ==> !record_matches(#[trigger] list[i], name),
        },
    decreases list.len(),
{
    if list.len() == 0 {
    } else if record_matches(list[0], name) {
        assert(is_first_match(list, name, 0) && list[0] == spec_find(list, name)->Some_0);
    } else {
        let tail = list.drop_first();
        lemma_find_characterization(tail, name);
        match spec_find(tail, name) {
            Some(rec) => {
                let i = choose|i: int| #[trigger] is_first_match(tail, name, i) && tail[i] == rec;
                assert(list[i + 1] == tail[i]);
                assert forall|j: int| 0 <= j < i + 1 implies !record_matches(
                    #[trigger] list[j],
                    name,
                ) by {
                    if j > 0 {
                        assert(tail[j - 1] == list[j]);
                    }
                }
                assert(is_first_match(list, name, i + 1) && list[i + 1] == rec);
            },
            None => {
                assert forall|i: int| 0 <= i < list.len() implies !record_matches(
                    #[trigger] list[i],
                    name,
                ) by {
                    if i > 0 {
                        assert(tail[i - 1] == list[i]);
                    }
                }
            },
        }
    }
}

/// Law (idempotent lookup): when some listed container already bears the
/// qualified form of the configuration's name, the step after the listing
/// answer starts the first such container under its existing id and never
/// issues a create call.
pub proof fn lemma_idempotent_lookup(
    conf: ContainerConfigurationView,
    list: Seq<ContainerRecordView>,
)
    requires
        exists|i: int| 0 <= i < list.len() && record_matches(#[trigger] list[i], conf.name),
    ensures
        !(listed_step(conf, Ok(list)).1 is Create),
        exists|i: int|
            #[trigger] is_first_match(list, conf.name, i) && listed_step(conf, Ok(list)) == (
                PhaseView::Starting { id: list[i].id },
                EngineActionView::Start { id: list[i].id },
            ),
{
    lemma_find_characterization(list, conf.name);
    match spec_find(list, conf.name) {
        Some(rec) => {
            let i = choose|i: int|
                #[trigger] is_first_match(list, conf.name, i) && list[i] == rec;
            assert(is_first_match(list, conf.name, i) && listed_step(conf, Ok(list)) == (
                PhaseView::Starting { id: list[i].id },
                EngineActionView::Start { id: list[i].id },
            ));
        },
        None => {
            let w = choose|i: int|
                0 <= i < list.len() && record_matches(#[trigger] list[i], conf.name);
            assert(!record_matches(list[w], conf.name));
        },
    }
}

/// Law (create then start): when no listed container bears the qualified
/// form of the configuration's name, the step after the listing answer
/// issues the create call built from the configuration — never a start —
/// and the step after a successful create answer starts exactly the id
/// the create call returned.
pub proof fn lemma_create_then_start(
    conf: ContainerConfigurationView,
    list: Seq<ContainerRecordView>,
    id: Seq<char>,
)
    requires
        forall|i: int| 0 <= i < list.len() ==> !record_matches(#[trigger] list[i], conf.name),
    ensures
        listed_step(conf, Ok(list)) == (
            PhaseView::Creating,
            EngineActionView::Create { request: request_of(conf) },
        ),
        created_step(Ok(id)) == (
            PhaseView::Starting { id },
            EngineActionView::Start { id },
        ),
{
    lemma_find_characterization(list, conf.name);
    match spec_find(list, conf.name) {
        Some(rec) => {
            let i = choose|i: int|
                #[trigger] is_first_match(list, conf.name, i) && list[i] == rec;
            assert(record_matches(list[i], conf.name));
        },
        None => {},
    }
}

} // verus!
