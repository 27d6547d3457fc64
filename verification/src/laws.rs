//! The laws of the service, proved once and for all over the store model.
//!
//! Each law quantifies over every store state the operations can reach, so
//! it covers every sequence of creates and partial updates, not just chosen
//! scenarios.

use vstd::prelude::*;

use crate::model::PayloadModel;
use crate::model::RecordModel;
use crate::model::apply_payload;
use crate::model::empty_record;
use crate::plan::update_plan;
use crate::store::apply_statements_model;
use crate::store::lemma_plan_is_update;
use crate::store::update_model;
use crate::store::valid_id;

verus! {

/// Law: creating an application and then fetching it by the returned id
/// yields a record with every field at its default — empty current page,
/// not submitted, no patient age, no patient gender — and no competence
/// responses. Creation pushes `empty_record()` and hands out the id
/// `s.len() + 1`; fetching that id reads exactly the pushed record.
pub proof fn lemma_create_then_get(s: Seq<RecordModel>)
    ensures
        valid_id(s.push(empty_record()), s.len() as int + 1),
        s.push(empty_record())[s.len() as int] == empty_record(),
        empty_record().current_page == Seq::<char>::empty(),
        empty_record().application_submitted == false,
        empty_record().patient_age is None,
        empty_record().patient_gender is None,
        empty_record().therapist_minority_competence == Seq::<Seq<char>>::empty(),
{
}

/// Law: a partial update changes nothing but the targeted record, and on
/// that record every field the payload leaves out keeps its prior value —
/// only the supplied fields change, exactly to the supplied values. Since
/// this holds of every store state, it holds across any sequence of partial
/// updates.
pub proof fn lemma_update_retains_unmentioned(s: Seq<RecordModel>, id: int, p: PayloadModel)
    ensures
        update_model(s, id, p).len() == s.len(),
        forall|j: int|
            0 <= j < s.len() && j != id - 1 ==> update_model(s, id, p)[j] == s[j],
        valid_id(s, id) ==> update_model(s, id, p)[id - 1] == apply_payload(s[id - 1], p),
        valid_id(s, id) && p.current_page is None ==> update_model(s, id, p)[id - 1].current_page
            == s[id - 1].current_page,
        valid_id(s, id) && p.application_submitted is None ==> update_model(
            s,
            id,
            p,
        )[id - 1].application_submitted == s[id - 1].application_submitted,
        valid_id(s, id) && p.patient_age is None ==> update_model(s, id, p)[id - 1].patient_age
            == s[id - 1].patient_age,
        valid_id(s, id) && p.patient_gender is None ==> update_model(
            s,
            id,
            p,
        )[id - 1].patient_gender == s[id - 1].patient_gender,
        valid_id(s, id) && p.therapist_minority_competence_responses is None ==> update_model(
            s,
            id,
            p,
        )[id - 1].therapist_minority_competence == s[id - 1].therapist_minority_competence,
        !valid_id(s, id) ==> update_model(s, id, p) == s,
{
}

/// Law: replacing the competence-response set is atomic. One update whose
/// payload supplies a new set leaves exactly that set stored — never a
/// mixture of old and new — and its whole statement plan, the delete and
/// all the inserts run front to back inside one transaction, equals that
/// single update step, so at a transaction boundary a reader sees either
/// the pre-update set or the complete post-update set and nothing between.
pub proof fn lemma_replace_responses_atomic(s: Seq<RecordModel>, id: int, p: PayloadModel)
    requires
        valid_id(s, id),
        p.therapist_minority_competence_responses is Some,
    ensures
        update_model(s, id, p)[id - 1].therapist_minority_competence
            == p.therapist_minority_competence_responses->Some_0,
        apply_statements_model(s, update_plan(id, p)) == update_model(s, id, p),
{
    lemma_plan_is_update(s, id, p);
}

} // verus!
