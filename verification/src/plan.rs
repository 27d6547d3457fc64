//! The statement plan that an update request compiles to.
//!
//! A partial update is executed as a short sequence of single-purpose
//! storage statements, all inside one transaction: one column assignment per
//! payload field that is present, and, when a new competence-response set is
//! supplied, a delete of the old rows followed by one insert per name, in
//! the order given. The plan is computed here as data, so the layer that
//! talks to the real store only has to run one statement at a time.

use vstd::prelude::*;

use crate::model::PayloadModel;
use crate::model::UpdateApplicationPayload;

verus! {

/// Mathematical view of one storage statement.
#[verifier::ext_equal]
pub enum StatementModel {
    SetCurrentPage { id: int, value: Seq<char> },
    SetApplicationSubmitted { id: int, submitted: bool },
    SetPatientAge { id: int, value: Seq<char> },
    SetPatientGender { id: int, value: Seq<char> },
    DeleteResponses { id: int },
    InsertResponse { id: int, name: Seq<char> },
}

/// One storage statement of an update transaction: a single column
/// assignment on one application, or one step of replacing its
/// competence-response set.
#[derive(Debug)]
pub enum Statement {
    SetCurrentPage { id: i64, value: String },
    SetApplicationSubmitted { id: i64, submitted: bool },
    SetPatientAge { id: i64, value: String },
    SetPatientGender { id: i64, value: String },
    DeleteResponses { id: i64 },
    InsertResponse { id: i64, name: String },
}

impl View for Statement {
    type V = StatementModel;

    open spec fn view(&self) -> StatementModel {
        match *self {
            Statement::SetCurrentPage { id, value } => (StatementModel::SetCurrentPage {
                id: id as int,
                value: value@,
            }),
            Statement::SetApplicationSubmitted { id, submitted } => (StatementModel::SetApplicationSubmitted {
                id: id as int,
                submitted: submitted,
            }),
            Statement::SetPatientAge { id, value } => (StatementModel::SetPatientAge {
                id: id as int,
                value: value@,
            }),
            Statement::SetPatientGender { id, value } => (StatementModel::SetPatientGender {
                id: id as int,
                value: value@,
            }),
            Statement::DeleteResponses { id } => (StatementModel::DeleteResponses { id: id as int }),
            Statement::InsertResponse { id, name } => (StatementModel::InsertResponse {
                id: id as int,
                name: name@,
            }),
        }
    }
}

impl DeepView for Statement {
    type V = StatementModel;

    open spec fn deep_view(&self) -> StatementModel {
        self.view()
    }
}

/// One insert statement per supplied name, in the order given.
pub open spec fn insert_statements(id: int, names: Seq<Seq<char>>) -> Seq<StatementModel> {
    names.map_values(|n: Seq<char>| StatementModel::InsertResponse { id: id, name: n })
}

/// The full plan of one update transaction: one assignment per present
/// payload field, in a fixed field order, then a delete followed by the
/// inserts when a new competence-response set is supplied.
pub open spec fn update_plan(id: int, p: PayloadModel) -> Seq<StatementModel> {
    (if p.current_page is Some {
        seq![StatementModel::SetCurrentPage { id: id, value: p.current_page->Some_0 }]
    } else {
        Seq::<StatementModel>::empty()
    }) + (if p.application_submitted is Some {
        seq![StatementModel::SetApplicationSubmitted { id: id, submitted: p.application_submitted->Some_0 }]
    } else {
        Seq::<StatementModel>::empty()
    }) + (if p.patient_age is Some {
        seq![StatementModel::SetPatientAge { id: id, value: p.patient_age->Some_0 }]
    } else {
        Seq::<StatementModel>::empty()
    }) + (if p.patient_gender is Some {
        seq![StatementModel::SetPatientGender { id: id, value: p.patient_gender->Some_0 }]
    } else {
        Seq::<StatementModel>::empty()
    }) + (if p.therapist_minority_competence_responses is Some {
        seq![StatementModel::DeleteResponses { id: id }] + insert_statements(
            id,
            p.therapist_minority_competence_responses->Some_0,
        )
    } else {
        Seq::<StatementModel>::empty()
    })
}

/// Appends one insert statement per name, in the order given.
fn push_insert_statements(stmts: &mut Vec<Statement>, id: i64, names: &Vec<String>)
    ensures
        final(stmts).deep_view() == old(stmts).deep_view() + insert_statements(
            id as int,
            names.deep_view(),
        ),
{
    let ghost base = stmts.deep_view();
    let mut i: usize = 0;
    while i < names.len()
        invariant
            i <= names.len(),
            stmts.deep_view() == base + insert_statements(
                id as int,
                names.deep_view().take(i as int),
            ),
        decreases names.len() - i,
    {
        let ghost pre = stmts.deep_view();
        let name_i = names[i].clone();
        proof {
            assert(name_i@ == names.deep_view()[i as int]);
        }
        stmts.push(Statement::InsertResponse { id: id, name: name_i });
        proof {
            let nd = names.deep_view();
            let st = StatementModel::InsertResponse { id: id as int, name: nd[i as int] };
            assert(nd.take(i as int).len() == i);
            assert(stmts.deep_view() =~= pre.push(st));
            assert(nd.take(i as int + 1) =~= nd.take(i as int).push(nd[i as int]));
            assert(insert_statements(id as int, nd.take(i as int + 1)) =~= (insert_statements(
                id as int,
                nd.take(i as int),
            ).push(st)));
            assert(base + insert_statements(id as int, nd.take(i as int)).push(st) =~= (base
                + insert_statements(id as int, nd.take(i as int))).push(st));
            assert(stmts.deep_view() == base + insert_statements(id as int, nd.take(i as int + 1)));
        }
        i += 1;
    }
    proof {
        assert(names.deep_view().take(names.len() as int) =~= names.deep_view());
    }
}

/// Compiles one update request into its statement plan.
#[verifier::rlimit(50)]
pub fn update_statements(id: i64, payload: &UpdateApplicationPayload) -> (r: Vec<Statement>)
    ensures
        r.deep_view() == update_plan(id as int, payload@),
{
    let mut stmts: Vec<Statement> = Vec::new();
    if let Some(v) = &payload.current_page {
        stmts.push(Statement::SetCurrentPage { id: id, value: v.clone() });
    }
    if let Some(v) = &payload.application_submitted {
        stmts.push(Statement::SetApplicationSubmitted { id: id, submitted: *v });
    }
    if let Some(v) = &payload.patient_age {
        stmts.push(Statement::SetPatientAge { id: id, value: v.clone() });
    }
    if let Some(v) = &payload.patient_gender {
        stmts.push(Statement::SetPatientGender { id: id, value: v.clone() });
    }
    if let Some(names) = &payload.therapist_minority_competence_responses {
        stmts.push(Statement::DeleteResponses { id: id });
        push_insert_statements(&mut stmts, id, names);
    }
    proof {
        assert(stmts.deep_view() =~= update_plan(id as int, payload@));
    }
    stmts
}

} // verus!
