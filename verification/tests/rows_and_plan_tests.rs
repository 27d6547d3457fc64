use application_backend::error::Error;
use application_backend::model::UpdateApplicationPayload;
use application_backend::plan::Statement;
use application_backend::plan::update_statements;
use application_backend::rows::ApplicationListRow;
use application_backend::rows::ApplicationRow;
use application_backend::rows::basic_info_from_row;
use application_backend::rows::list_response;
use application_backend::rows::status_response;

#[test]
fn status_of_missing_row_is_not_found() {
    let r = status_response(None, Vec::new());
    match r {
        Err(e) => assert_eq!(e, Error::NotFound),
        Ok(_) => panic!("a missing row must not yield a response"),
    }
}

#[test]
fn status_row_is_shaped_into_the_body() {
    let row = ApplicationRow {
        current_page: "page2".to_string(),
        application_submitted: 1,
        patient_age: Some("41".to_string()),
        patient_gender: None,
    };
    let names = vec!["black".to_string(), "lgbtq".to_string()];
    let resp = status_response(Some(row), names).unwrap();
    assert_eq!(resp.current_page, "page2");
    assert!(resp.application_submitted);
    assert_eq!(resp.patient_age.as_deref(), Some("41"));
    assert!(resp.patient_gender.is_none());
    assert_eq!(
        resp.therapist_minority_competence,
        vec!["black".to_string(), "lgbtq".to_string()]
    );
}

#[test]
fn submitted_flag_reads_nonzero_as_true() {
    for (flag, expected) in [(0i64, false), (1, true), (2, true), (-1, true)] {
        let row = ApplicationRow {
            current_page: String::new(),
            application_submitted: flag,
            patient_age: None,
            patient_gender: None,
        };
        let resp = status_response(Some(row), Vec::new()).unwrap();
        assert_eq!(resp.application_submitted, expected);
    }
}

#[test]
fn list_rows_are_mapped_in_order() {
    let rows = vec![
        ApplicationListRow { id: 1, current_page: "page1".to_string(), application_submitted: 0 },
        ApplicationListRow { id: 2, current_page: "page5".to_string(), application_submitted: 3 },
    ];
    let listing = list_response(rows);
    assert_eq!(listing.applications.len(), 2);
    assert_eq!(listing.applications[0].application_id, 1);
    assert_eq!(listing.applications[0].current_page, "page1");
    assert!(!listing.applications[0].application_submitted);
    assert_eq!(listing.applications[1].application_id, 2);
    assert_eq!(listing.applications[1].current_page, "page5");
    assert!(listing.applications[1].application_submitted);
}

#[test]
fn one_list_row_maps_field_for_field() {
    let info = basic_info_from_row(ApplicationListRow {
        id: 9,
        current_page: "page3".to_string(),
        application_submitted: 0,
    });
    assert_eq!(info.application_id, 9);
    assert_eq!(info.current_page, "page3");
    assert!(!info.application_submitted);
}

#[test]
fn error_status_codes() {
    assert_eq!(Error::NotFound.status_code(), 404);
    assert_eq!(Error::Conflict.status_code(), 409);
    assert_eq!(Error::Backend.status_code(), 500);
    assert_eq!(Error::Config.status_code(), 500);
}

#[test]
fn plan_of_blank_payload_is_empty() {
    let stmts = update_statements(1, &UpdateApplicationPayload::blank());
    assert!(stmts.is_empty());
}

#[test]
fn plan_lists_statements_in_field_order() {
    let payload = UpdateApplicationPayload {
        current_page: Some("page2".to_string()),
        application_submitted: Some(true),
        patient_age: Some("28".to_string()),
        patient_gender: Some("female".to_string()),
        therapist_minority_competence_responses: Some(vec![
            "black".to_string(),
            "lgbtq".to_string(),
        ]),
    };
    let stmts = update_statements(4, &payload);
    assert_eq!(stmts.len(), 7);
    match &stmts[0] {
        Statement::SetCurrentPage { id, value } => {
            assert_eq!(*id, 4);
            assert_eq!(value, "page2");
        },
        other => panic!("expected a current-page assignment, got {:?}", other),
    }
    match &stmts[1] {
        Statement::SetApplicationSubmitted { id, submitted } => {
            assert_eq!(*id, 4);
            assert!(*submitted);
        },
        other => panic!("expected a submitted-flag assignment, got {:?}", other),
    }
    match &stmts[2] {
        Statement::SetPatientAge { id, value } => {
            assert_eq!(*id, 4);
            assert_eq!(value, "28");
        },
        other => panic!("expected a patient-age assignment, got {:?}", other),
    }
    match &stmts[3] {
        Statement::SetPatientGender { id, value } => {
            assert_eq!(*id, 4);
            assert_eq!(value, "female");
        },
        other => panic!("expected a patient-gender assignment, got {:?}", other),
    }
    match &stmts[4] {
        Statement::DeleteResponses { id } => assert_eq!(*id, 4),
        other => panic!("expected the response delete, got {:?}", other),
    }
    match &stmts[5] {
        Statement::InsertResponse { id, name } => {
            assert_eq!(*id, 4);
            assert_eq!(name, "black");
        },
        other => panic!("expected the first response insert, got {:?}", other),
    }
    match &stmts[6] {
        Statement::InsertResponse { id, name } => {
            assert_eq!(*id, 4);
            assert_eq!(name, "lgbtq");
        },
        other => panic!("expected the second response insert, got {:?}", other),
    }
}

#[test]
fn plan_of_single_field_has_single_statement() {
    let payload = UpdateApplicationPayload {
        current_page: None,
        application_submitted: Some(false),
        patient_age: None,
        patient_gender: None,
        therapist_minority_competence_responses: None,
    };
    let stmts = update_statements(1, &payload);
    assert_eq!(stmts.len(), 1);
    match &stmts[0] {
        Statement::SetApplicationSubmitted { id, submitted } => {
            assert_eq!(*id, 1);
            assert!(!*submitted);
        },
        other => panic!("expected a submitted-flag assignment, got {:?}", other),
    }
}

#[test]
fn plan_of_empty_response_set_is_just_the_delete() {
    let payload = UpdateApplicationPayload {
        current_page: None,
        application_submitted: None,
        patient_age: None,
        patient_gender: None,
        therapist_minority_competence_responses: Some(Vec::new()),
    };
    let stmts = update_statements(2, &payload);
    assert_eq!(stmts.len(), 1);
    match &stmts[0] {
        Statement::DeleteResponses { id } => assert_eq!(*id, 2),
        other => panic!("expected the response delete, got {:?}", other),
    }
}
