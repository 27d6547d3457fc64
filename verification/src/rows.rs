//! Shaping raw storage rows into response bodies.
//!
//! The columns come back from the underlying store as plain values — the
//! submitted flag as the integer it is persisted as, where nonzero means
//! true — and are shaped here into the bodies the endpoints return, so the
//! layer that runs the queries has no logic of its own.

use vstd::prelude::*;

use crate::error::Error;
use crate::model::ApplicationBasicInfo;
use crate::model::ApplicationListResponse;
use crate::model::ApplicationStatusResponse;
use crate::model::BasicInfoModel;
use crate::model::RecordModel;

verus! {

/// The columns selected when one application is fetched by id.
#[derive(Debug)]
pub struct ApplicationRow {
    pub current_page: String,
    pub application_submitted: i64,
    pub patient_age: Option<String>,
    pub patient_gender: Option<String>,
}

/// The columns selected when all applications are listed.
#[derive(Debug)]
pub struct ApplicationListRow {
    pub id: i64,
    pub current_page: String,
    pub application_submitted: i64,
}

/// Shapes the fetched row — when there is one — and the fetched response
/// names into the status body. A missing row means the id names no
/// application: that is reported as not found, never answered with made-up
/// data.
pub fn status_response(row: Option<ApplicationRow>, names: Vec<String>) -> (r: Result<
    ApplicationStatusResponse,
    Error,
>)
    ensures
        row is Some ==> r is Ok && r->Ok_0@ == (RecordModel {
            current_page: row->Some_0.current_page@,
            application_submitted: row->Some_0.application_submitted != 0,
            patient_age: row->Some_0.patient_age.deep_view(),
            patient_gender: row->Some_0.patient_gender.deep_view(),
            therapist_minority_competence: names.deep_view(),
        }),
        row is None ==> r == Err::<ApplicationStatusResponse, Error>(Error::NotFound),
{
    match row {
        None => Err(Error::NotFound),
        Some(a) => Ok(
            ApplicationStatusResponse {
                current_page: a.current_page,
                application_submitted: a.application_submitted != 0,
                patient_age: a.patient_age,
                patient_gender: a.patient_gender,
                therapist_minority_competence: names,
            },
        ),
    }
}

/// One list entry from its row, with the persisted integer flag read as a
/// boolean.
pub fn basic_info_from_row(row: ApplicationListRow) -> (r: ApplicationBasicInfo)
    ensures
        r@ == (BasicInfoModel {
            application_id: row.id as int,
            current_page: row.current_page@,
            application_submitted: row.application_submitted != 0,
        }),
{
    ApplicationBasicInfo {
        application_id: row.id,
        current_page: row.current_page,
        application_submitted: row.application_submitted != 0,
    }
}

/// The whole list body from the fetched rows: one entry per row, in the
/// order the store returned them.
pub fn list_response(rows: Vec<ApplicationListRow>) -> (r: ApplicationListResponse)
    ensures
        r@.len() == rows@.len(),
        forall|i: int|
            0 <= i < rows@.len() ==> r@[i] == (BasicInfoModel {
                application_id: rows@[i].id as int,
                current_page: rows@[i].current_page@,
                application_submitted: rows@[i].application_submitted != 0,
            }),
{
    let mut out: Vec<ApplicationBasicInfo> = Vec::new();
    let mut i: usize = 0;
    while i < rows.len()
        invariant
            i <= rows@.len(),
            out@.len() == i,
            forall|j: int|
                0 <= j < i ==> out.deep_view()[j] == (BasicInfoModel {
                    application_id: rows@[j].id as int,
                    current_page: rows@[j].current_page@,
                    application_submitted: rows@[j].application_submitted != 0,
                }),
        decreases rows@.len() - i,
    {
        let row = &rows[i];
        let info = ApplicationBasicInfo {
            application_id: row.id,
            current_page: row.current_page.clone(),
            application_submitted: row.application_submitted != 0,
        };
        let ghost pre = out.deep_view();
        let ghost infom = info@;
        out.push(info);
        proof {
            assert(infom == (BasicInfoModel {
                application_id: rows@[i as int].id as int,
                current_page: rows@[i as int].current_page@,
                application_submitted: rows@[i as int].application_submitted != 0,
            }));
            assert(out.deep_view() =~= pre.push(infom));
        }
        i += 1;
    }
    ApplicationListResponse { applications: out }
}

} // verus!
