use application_backend::error::Error;
use application_backend::model::UpdateApplicationPayload;
use application_backend::plan::update_statements;
use application_backend::store::Store;

fn payload(
    current_page: Option<&str>,
    application_submitted: Option<bool>,
    patient_age: Option<&str>,
    patient_gender: Option<&str>,
    responses: Option<Vec<&str>>,
) -> UpdateApplicationPayload {
    UpdateApplicationPayload {
        current_page: current_page.map(|s| s.to_string()),
        application_submitted,
        patient_age: patient_age.map(|s| s.to_string()),
        patient_gender: patient_gender.map(|s| s.to_string()),
        therapist_minority_competence_responses: responses.map(|v| {
            v.into_iter().map(|s| s.to_string()).collect()
        }),
    }
}

#[test]
fn create_then_get_is_all_default() {
    let mut store = Store::new();
    let id = store.create();
    assert_eq!(id, 1);
    let resp = store.get(id).unwrap();
    assert_eq!(resp.current_page, "");
    assert!(!resp.application_submitted);
    assert!(resp.patient_age.is_none());
    assert!(resp.patient_gender.is_none());
    assert!(resp.therapist_minority_competence.is_empty());
}

#[test]
fn get_nonexistent_is_not_found() {
    let store = Store::new();
    match store.get(7) {
        Err(e) => {
            assert_eq!(e, Error::NotFound);
            assert_eq!(e.status_code(), 404);
        },
        Ok(_) => panic!("an id that names no application must not yield data"),
    }
    let mut store = Store::new();
    store.create();
    assert!(store.get(0).is_err());
    assert!(store.get(2).is_err());
    assert!(store.get(-1).is_err());
    assert!(store.get(1).is_ok());
}

#[test]
fn scenario_post_patch_get() {
    let mut store = Store::new();
    let id = store.create();
    assert_eq!(id, 1);
    store.update(1, &payload(Some("page2"), None, None, None, Some(vec!["black", "lgbtq"])));
    let resp = store.get(1).unwrap();
    assert_eq!(resp.current_page, "page2");
    assert!(!resp.application_submitted);
    assert!(resp.patient_age.is_none());
    assert!(resp.patient_gender.is_none());
    let mut tags = resp.therapist_minority_competence.clone();
    tags.sort();
    assert_eq!(tags, vec!["black".to_string(), "lgbtq".to_string()]);
}

#[test]
fn scenario_second_patch_preserves_rest() {
    let mut store = Store::new();
    store.create();
    store.update(1, &payload(Some("page2"), None, None, None, Some(vec!["black", "lgbtq"])));
    store.update(1, &payload(None, Some(true), None, None, None));
    let resp = store.get(1).unwrap();
    assert_eq!(resp.current_page, "page2");
    assert!(resp.application_submitted);
    let mut tags = resp.therapist_minority_competence.clone();
    tags.sort();
    assert_eq!(tags, vec!["black".to_string(), "lgbtq".to_string()]);
}

#[test]
fn partial_update_retains_unmentioned_fields() {
    let mut store = Store::new();
    store.create();
    store.update(1, &payload(Some("page3"), Some(false), Some("34"), Some("female"), None));
    store.update(1, &payload(None, None, None, Some("male"), None));
    let resp = store.get(1).unwrap();
    assert_eq!(resp.current_page, "page3");
    assert!(!resp.application_submitted);
    assert_eq!(resp.patient_age.as_deref(), Some("34"));
    assert_eq!(resp.patient_gender.as_deref(), Some("male"));
    assert!(resp.therapist_minority_competence.is_empty());
}

#[test]
fn update_nonexistent_id_changes_nothing() {
    let mut store = Store::new();
    store.create();
    store.update(5, &payload(Some("page9"), Some(true), None, None, Some(vec!["x"])));
    assert_eq!(store.len(), 1);
    let resp = store.get(1).unwrap();
    assert_eq!(resp.current_page, "");
    assert!(!resp.application_submitted);
    assert!(resp.therapist_minority_competence.is_empty());
}

#[test]
fn replace_responses_is_wholesale() {
    let mut store = Store::new();
    store.create();
    store.update(1, &payload(None, None, None, None, Some(vec!["a", "b", "c"])));
    let before = store.get(1).unwrap();
    assert_eq!(before.therapist_minority_competence.len(), 3);
    store.update(1, &payload(None, None, None, None, Some(vec!["d"])));
    let after = store.get(1).unwrap();
    assert_eq!(after.therapist_minority_competence, vec!["d".to_string()]);
}

#[test]
fn duplicate_response_names_are_kept() {
    let mut store = Store::new();
    store.create();
    store.update(1, &payload(None, None, None, None, Some(vec!["black", "black"])));
    let resp = store.get(1).unwrap();
    assert_eq!(resp.therapist_minority_competence.len(), 2);
}

#[test]
fn list_returns_every_created_id() {
    let mut store = Store::new();
    let a = store.create();
    let b = store.create();
    let c = store.create();
    store.update(2, &payload(Some("page4"), Some(true), None, None, None));
    let listing = store.list();
    assert_eq!(listing.applications.len(), 3);
    let mut ids: Vec<i64> = listing.applications.iter().map(|e| e.application_id).collect();
    ids.sort();
    assert_eq!(ids, vec![a, b, c]);
    let second = listing.applications.iter().find(|e| e.application_id == 2).unwrap();
    assert_eq!(second.current_page, "page4");
    assert!(second.application_submitted);
    let first = listing.applications.iter().find(|e| e.application_id == 1).unwrap();
    assert_eq!(first.current_page, "");
    assert!(!first.application_submitted);
}

#[test]
fn list_of_empty_store_is_empty() {
    let store = Store::new();
    assert!(store.list().applications.is_empty());
}

#[test]
fn blank_payload_changes_nothing() {
    let mut store = Store::new();
    store.create();
    store.update(1, &payload(Some("page2"), Some(true), None, None, Some(vec!["a"])));
    store.update(1, &UpdateApplicationPayload::blank());
    let resp = store.get(1).unwrap();
    assert_eq!(resp.current_page, "page2");
    assert!(resp.application_submitted);
    assert_eq!(resp.therapist_minority_competence, vec!["a".to_string()]);
}

#[test]
fn running_the_plan_equals_one_update() {
    let p = payload(Some("page2"), Some(true), None, Some("male"), Some(vec!["x", "y"]));

    let mut direct = Store::new();
    direct.create();
    direct.update(1, &p);

    let mut stepped = Store::new();
    stepped.create();
    let stmts = update_statements(1, &p);
    stepped.run_statements(&stmts);

    assert_eq!(direct.get(1).unwrap(), stepped.get(1).unwrap());
    let resp = stepped.get(1).unwrap();
    assert_eq!(resp.current_page, "page2");
    assert!(resp.application_submitted);
    assert_eq!(resp.patient_gender.as_deref(), Some("male"));
    assert_eq!(
        resp.therapist_minority_competence,
        vec!["x".to_string(), "y".to_string()]
    );
}

#[test]
fn responses_can_be_cleared_with_empty_set() {
    let mut store = Store::new();
    store.create();
    store.update(1, &payload(None, None, None, None, Some(vec!["a", "b"])));
    store.update(1, &payload(None, None, None, None, Some(vec![])));
    let resp = store.get(1).unwrap();
    assert!(resp.therapist_minority_competence.is_empty());
}
