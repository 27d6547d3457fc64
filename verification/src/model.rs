//! The data model: application records, update payloads, and response shapes.
//!
//! Each executable type carries a mathematical view, and the partial-update
//! semantics is a spec function over those views: a payload field that is
//! present overwrites the matching record field, an absent field leaves it
//! untouched, and a present competence-response list replaces the whole set.

use vstd::prelude::*;

verus! {

/// Mathematical view of one stored application: every field the service
/// tracks for it, with its competence-response tags embedded as a sequence.
#[verifier::ext_equal]
pub struct RecordModel {
    pub current_page: Seq<char>,
    pub application_submitted: bool,
    pub patient_age: Option<Seq<char>>,
    pub patient_gender: Option<Seq<char>>,
    pub therapist_minority_competence: Seq<Seq<char>>,
}

/// The state a fresh application is created in: nothing filled in yet.
pub open spec fn empty_record() -> RecordModel {
    RecordModel {
        current_page: Seq::empty(),
        application_submitted: false,
        patient_age: None,
        patient_gender: None,
        therapist_minority_competence: Seq::empty(),
    }
}

/// One stored application together with its competence-response tags.
#[derive(Debug)]
pub struct ApplicationRecord {
    pub current_page: String,
    pub application_submitted: bool,
    pub patient_age: Option<String>,
    pub patient_gender: Option<String>,
    pub therapist_minority_competence: Vec<String>,
}

impl View for ApplicationRecord {
    type V = RecordModel;

    open spec fn view(&self) -> RecordModel {
        RecordModel {
            current_page: self.current_page@,
            application_submitted: self.application_submitted,
            patient_age: self.patient_age.deep_view(),
            patient_gender: self.patient_gender.deep_view(),
            therapist_minority_competence: self.therapist_minority_competence.deep_view(),
        }
    }
}

impl DeepView for ApplicationRecord {
    type V = RecordModel;

    open spec fn deep_view(&self) -> RecordModel {
        self.view()
    }
}

impl ApplicationRecord {
    /// A fresh application record with all fields at their defaults.
    pub fn empty() -> (r: Self)
        ensures
            r@ == empty_record(),
    {
        let r = ApplicationRecord {
            current_page: String::new(),
            application_submitted: false,
            patient_age: None,
            patient_gender: None,
            therapist_minority_competence: Vec::new(),
        };
        proof {
            assert(r@ =~= empty_record());
        }
        r
    }

}

/// Mathematical view of an update request: one optional value per field.
#[verifier::ext_equal]
pub struct PayloadModel {
    pub current_page: Option<Seq<char>>,
    pub application_submitted: Option<bool>,
    pub patient_age: Option<Seq<char>>,
    pub patient_gender: Option<Seq<char>>,
    pub therapist_minority_competence_responses: Option<Seq<Seq<char>>>,
}

/// The body of an update request; every field is optional, and an absent
/// field means "leave it as it is".
#[derive(Debug)]
pub struct UpdateApplicationPayload {
    pub current_page: Option<String>,
    pub application_submitted: Option<bool>,
    pub patient_age: Option<String>,
    pub patient_gender: Option<String>,
    pub therapist_minority_competence_responses: Option<Vec<String>>,
}

impl View for UpdateApplicationPayload {
    type V = PayloadModel;

    open spec fn view(&self) -> PayloadModel {
        PayloadModel {
            current_page: self.current_page.deep_view(),
            application_submitted: self.application_submitted,
            patient_age: self.patient_age.deep_view(),
            patient_gender: self.patient_gender.deep_view(),
            therapist_minority_competence_responses: self.therapist_minority_competence_responses.deep_view(),
        }
    }
}

impl UpdateApplicationPayload {
    /// A payload that mentions no field at all, so that applying it changes
    /// nothing.
    pub fn blank() -> (r: Self)
        ensures
            r@ == (PayloadModel {
                current_page: None,
                application_submitted: None,
                patient_age: None,
                patient_gender: None,
                therapist_minority_competence_responses: None,
            }),
    {
        UpdateApplicationPayload {
            current_page: None,
            application_submitted: None,
            patient_age: None,
            patient_gender: None,
            therapist_minority_competence_responses: None,
        }
    }
}

/// The result of one partial update on one record: present payload fields
/// overwrite, absent ones are retained, and a present response list replaces
/// the previous set wholesale.
pub open spec fn apply_payload(r: RecordModel, p: PayloadModel) -> RecordModel {
    RecordModel {
        current_page: if p.current_page is Some {
            p.current_page->Some_0
        } else {
            r.current_page
        },
        application_submitted: if p.application_submitted is Some {
            p.application_submitted->Some_0
        } else {
            r.application_submitted
        },
        patient_age: if p.patient_age is Some {
            p.patient_age
        } else {
            r.patient_age
        },
        patient_gender: if p.patient_gender is Some {
            p.patient_gender
        } else {
            r.patient_gender
        },
        therapist_minority_competence: if p.therapist_minority_competence_responses is Some {
            p.therapist_minority_competence_responses->Some_0
        } else {
            r.therapist_minority_competence
        },
    }
}

/// The body returned when fetching one application by id.
#[derive(Debug, PartialEq)]
pub struct ApplicationStatusResponse {
    pub current_page: String,
    pub application_submitted: bool,
    pub patient_age: Option<String>,
    pub patient_gender: Option<String>,
    pub therapist_minority_competence: Vec<String>,
}

impl View for ApplicationStatusResponse {
    type V = RecordModel;

    open spec fn view(&self) -> RecordModel {
        RecordModel {
            current_page: self.current_page@,
            application_submitted: self.application_submitted,
            patient_age: self.patient_age.deep_view(),
            patient_gender: self.patient_gender.deep_view(),
            therapist_minority_competence: self.therapist_minority_competence.deep_view(),
        }
    }
}

/// Mathematical view of one entry of the list endpoint's body.
#[verifier::ext_equal]
pub struct BasicInfoModel {
    pub application_id: int,
    pub current_page: Seq<char>,
    pub application_submitted: bool,
}

/// One entry of the list endpoint's body.
#[derive(Debug, PartialEq)]
pub struct ApplicationBasicInfo {
    pub application_id: i64,
    pub current_page: String,
    pub application_submitted: bool,
}

impl View for ApplicationBasicInfo {
    type V = BasicInfoModel;

    open spec fn view(&self) -> BasicInfoModel {
        BasicInfoModel {
            application_id: self.application_id as int,
            current_page: self.current_page@,
            application_submitted: self.application_submitted,
        }
    }
}

impl DeepView for ApplicationBasicInfo {
    type V = BasicInfoModel;

    open spec fn deep_view(&self) -> BasicInfoModel {
        self.view()
    }
}

/// The whole body of the list endpoint.
#[derive(Debug)]
pub struct ApplicationListResponse {
    pub applications: Vec<ApplicationBasicInfo>,
}

impl View for ApplicationListResponse {
    type V = Seq<BasicInfoModel>;

    open spec fn view(&self) -> Seq<BasicInfoModel> {
        self.applications.deep_view()
    }
}

} // verus!
