//! The store of application records, with the service's reference semantics.
//!
//! `Store` holds every application in creation order; the application with
//! id `i` sits at index `i - 1`, since ids are assigned 1, 2, 3, ... and
//! nothing is ever deleted. The four operations of the service — create,
//! fetch by id, list, partial update — are verified against spec functions
//! over the sequence of record models. An update runs as its statement plan,
//! one statement at a time, and a proved lemma shows that the whole plan is
//! exactly one atomic partial-update step on the stored sequence.

use vstd::pervasive::VecAdditionalExecFns;
use vstd::prelude::*;

use crate::error::Error;
use crate::model::ApplicationBasicInfo;
use crate::model::ApplicationListResponse;
use crate::model::ApplicationRecord;
use crate::model::ApplicationStatusResponse;
use crate::model::BasicInfoModel;
use crate::model::PayloadModel;
use crate::model::RecordModel;
use crate::model::UpdateApplicationPayload;
use crate::model::apply_payload;
use crate::model::empty_record;
use crate::plan::Statement;
use crate::plan::StatementModel;
use crate::plan::insert_statements;
use crate::plan::update_plan;
use crate::plan::update_statements;

verus! {

/// Whether `id` names a stored application: ids are assigned 1, 2, 3, ...,
/// one per creation, and none is ever removed.
pub open spec fn valid_id(s: Seq<RecordModel>, id: int) -> bool {
    1 <= id <= s.len()
}

/// `r` with its current page replaced.
pub open spec fn with_current_page(r: RecordModel, v: Seq<char>) -> RecordModel {
    RecordModel {
        current_page: v,
        application_submitted: r.application_submitted,
        patient_age: r.patient_age,
        patient_gender: r.patient_gender,
        therapist_minority_competence: r.therapist_minority_competence,
    }
}

/// `r` with its submitted flag replaced.
pub open spec fn with_submitted(r: RecordModel, v: bool) -> RecordModel {
    RecordModel {
        current_page: r.current_page,
        application_submitted: v,
        patient_age: r.patient_age,
        patient_gender: r.patient_gender,
        therapist_minority_competence: r.therapist_minority_competence,
    }
}

/// `r` with its patient age replaced.
pub open spec fn with_patient_age(r: RecordModel, v: Seq<char>) -> RecordModel {
    RecordModel {
        current_page: r.current_page,
        application_submitted: r.application_submitted,
        patient_age: Some(v),
        patient_gender: r.patient_gender,
        therapist_minority_competence: r.therapist_minority_competence,
    }
}

/// `r` with its patient gender replaced.
pub open spec fn with_patient_gender(r: RecordModel, v: Seq<char>) -> RecordModel {
    RecordModel {
        current_page: r.current_page,
        application_submitted: r.application_submitted,
        patient_age: r.patient_age,
        patient_gender: Some(v),
        therapist_minority_competence: r.therapist_minority_competence,
    }
}

/// `r` with its whole competence-response set replaced.
pub open spec fn with_responses(r: RecordModel, tags: Seq<Seq<char>>) -> RecordModel {
    RecordModel {
        current_page: r.current_page,
        application_submitted: r.application_submitted,
        patient_age: r.patient_age,
        patient_gender: r.patient_gender,
        therapist_minority_competence: tags,
    }
}

/// What one storage statement does to the stored records. A statement whose
/// id names no application changes nothing, like an update that matches zero
/// rows.
pub open spec fn apply_statement_model(s: Seq<RecordModel>, st: StatementModel) -> Seq<
    RecordModel,
> {
    match st {
        StatementModel::SetCurrentPage { id, value } => if valid_id(s, id) {
            s.update(id - 1, with_current_page(s[id - 1], value))
        } else {
            s
        },
        StatementModel::SetApplicationSubmitted { id, submitted } => if valid_id(s, id) {
            s.update(id - 1, with_submitted(s[id - 1], submitted))
        } else {
            s
        },
        StatementModel::SetPatientAge { id, value } => if valid_id(s, id) {
            s.update(id - 1, with_patient_age(s[id - 1], value))
        } else {
            s
        },
        StatementModel::SetPatientGender { id, value } => if valid_id(s, id) {
            s.update(id - 1, with_patient_gender(s[id - 1], value))
        } else {
            s
        },
        StatementModel::DeleteResponses { id } => if valid_id(s, id) {
            s.update(id - 1, with_responses(s[id - 1], Seq::empty()))
        } else {
            s
        },
        StatementModel::InsertResponse { id, name } => if valid_id(s, id) {
            s.update(
                id - 1,
                with_responses(s[id - 1], s[id - 1].therapist_minority_competence.push(name)),
            )
        } else {
            s
        },
    }
}

/// Running a statement sequence front to back.
pub open spec fn apply_statements_model(
    s: Seq<RecordModel>,
    stmts: Seq<StatementModel>,
) -> Seq<RecordModel>
    decreases stmts.len(),
{
    if stmts.len() == 0 {
        s
    } else {
        apply_statements_model(apply_statement_model(s, stmts[0]), stmts.drop_first())
    }
}

/// One whole partial update as a single atomic step: the targeted record
/// takes every value the payload supplies and keeps every field the payload
/// leaves out, every other record is untouched, and an id that names no
/// application changes nothing.
pub open spec fn update_model(s: Seq<RecordModel>, id: int, p: PayloadModel) -> Seq<RecordModel> {
    if valid_id(s, id) {
        s.update(id - 1, apply_payload(s[id - 1], p))
    } else {
        s
    }
}

/// The store of application records, in creation order: the application
/// with id `i` sits at index `i - 1`.
pub struct Store {
    apps: Vec<ApplicationRecord>,
}

impl View for Store {
    type V = Seq<RecordModel>;

    closed spec fn view(&self) -> Seq<RecordModel> {
        self.apps.deep_view()
    }
}

impl Store {
    /// An empty store, holding no applications at all.
    pub fn new() -> (r: Self)
        ensures
            r@ == Seq::<RecordModel>::empty(),
    {
        let r = Store { apps: Vec::new() };
        proof {
            assert(r@ =~= Seq::<RecordModel>::empty());
        }
        r
    }

    /// How many applications the store holds.
    pub fn len(&self) -> (n: usize)
        ensures
            n == self@.len(),
    {
        self.apps.len()
    }

    /// Creates one new application with no caller-supplied data: every field
    /// at its default, no competence responses, and the next id in line.
    pub fn create(&mut self) -> (id: i64)
        requires
            old(self)@.len() < 0x7fff_ffff_ffff_ffff,
        ensures
            final(self)@ == old(self)@.push(empty_record()),
            id == old(self)@.len() + 1,
            valid_id(final(self)@, id as int),
    {
        self.apps.push(ApplicationRecord::empty());
        proof {
            assert(self@ =~= old(self)@.push(empty_record()));
        }
        self.apps.len() as i64
    }

    /// The index of the application `id` names, when it names one.
    fn index_of(&self, id: i64) -> (r: Option<usize>)
        ensures
            r is Some <==> valid_id(self@, id as int),
            r is Some ==> r->Some_0 == id - 1 && r->Some_0 < self.apps.len(),
    {
        if id < 1 {
            return None;
        }
        let idx64: u64 = (id - 1) as u64;
        if idx64 >= self.apps.len() as u64 {
            return None;
        }
        Some(idx64 as usize)
    }

    /// Fetches one application by id, returning every field it holds
    /// together with its competence responses; an id that names no
    /// application is reported as not found, never answered with made-up
    /// data.
    pub fn get(&self, id: i64) -> (r: Result<ApplicationStatusResponse, Error>)
        ensures
            valid_id(self@, id as int) ==> r is Ok && r->Ok_0@ == self@[id as int - 1],
            !valid_id(self@, id as int) ==> r == Err::<ApplicationStatusResponse, Error>(
                Error::NotFound,
            ),
    {
        match self.index_of(id) {
            None => Err(Error::NotFound),
            Some(idx) => {
                let rec = &self.apps[idx];
                let resp = ApplicationStatusResponse {
                    current_page: rec.current_page.clone(),
                    application_submitted: rec.application_submitted,
                    patient_age: rec.patient_age.clone(),
                    patient_gender: rec.patient_gender.clone(),
                    therapist_minority_competence: rec.therapist_minority_competence.clone(),
                };
                proof {
                    assert(resp.therapist_minority_competence@
                        =~= rec.therapist_minority_competence@);
                    assert(resp@ =~= self@[id as int - 1]);
                }
                Ok(resp)
            },
        }
    }

    /// Lists every stored application: one entry per application, in
    /// storage order, carrying its id, current page and submitted flag.
    pub fn list(&self) -> (r: ApplicationListResponse)
        requires
            self@.len() < 0x7fff_ffff_ffff_ffff,
        ensures
            r@.len() == self@.len(),
            forall|i: int|
                0 <= i < self@.len() ==> r@[i] == (BasicInfoModel {
                    application_id: i + 1,
                    current_page: self@[i].current_page,
                    application_submitted: self@[i].application_submitted,
                }),
    {
        let mut out: Vec<ApplicationBasicInfo> = Vec::new();
        let mut i: usize = 0;
        while i < self.apps.len()
            invariant
                i <= self.apps.len(),
                self@.len() < 0x7fff_ffff_ffff_ffff,
                out@.len() == i,
                forall|j: int|
                    0 <= j < i ==> out.deep_view()[j] == (BasicInfoModel {
                        application_id: j + 1,
                        current_page: self@[j].current_page,
                        application_submitted: self@[j].application_submitted,
                    }),
            decreases self.apps.len() - i,
        {
            let rec = &self.apps[i];
            let info = ApplicationBasicInfo {
                application_id: (i as i64) + 1,
                current_page: rec.current_page.clone(),
                application_submitted: rec.application_submitted,
            };
            let ghost pre = out.deep_view();
            let ghost infom = info@;
            out.push(info);
            proof {
                assert(self@[i as int] == self.apps@[i as int]@);
                assert(infom == (BasicInfoModel {
                    application_id: i as int + 1,
                    current_page: self@[i as int].current_page,
                    application_submitted: self@[i as int].application_submitted,
                }));
                assert(out.deep_view() =~= pre.push(infom));
            }
            i += 1;
        }
        let r = ApplicationListResponse { applications: out };
        r
    }

    /// Runs one storage statement against the records, as the matching SQL
    /// statement would: one column of one row is assigned, or one
    /// application's response rows are deleted or extended; a statement
    /// whose id matches no row changes nothing.
    pub fn apply_statement(&mut self, stmt: &Statement)
        ensures
            final(self)@ == apply_statement_model(old(self)@, stmt@),
    {
        match stmt {
            Statement::SetCurrentPage { id, value } => {
                match self.index_of(*id) {
                    None => {},
                    Some(idx) => {
                        let rec = &self.apps[idx];
                        let updated = ApplicationRecord {
                            current_page: value.clone(),
                            application_submitted: rec.application_submitted,
                            patient_age: rec.patient_age.clone(),
                            patient_gender: rec.patient_gender.clone(),
                            therapist_minority_competence: rec
                                .therapist_minority_competence
                                .clone(),
                        };
                        proof {
                            assert(updated@ =~= with_current_page(self@[*id - 1], value@));
                        }
                        self.apps.set(idx, updated);
                        proof {
                            assert(self@ =~= apply_statement_model(old(self)@, stmt@));
                        }
                    },
                }
            },
            Statement::SetApplicationSubmitted { id, submitted } => {
                match self.index_of(*id) {
                    None => {},
                    Some(idx) => {
                        let rec = &self.apps[idx];
                        let updated = ApplicationRecord {
                            current_page: rec.current_page.clone(),
                            application_submitted: *submitted,
                            patient_age: rec.patient_age.clone(),
                            patient_gender: rec.patient_gender.clone(),
                            therapist_minority_competence: rec
                                .therapist_minority_competence
                                .clone(),
                        };
                        proof {
                            assert(updated@ =~= with_submitted(self@[*id - 1], *submitted));
                        }
                        self.apps.set(idx, updated);
                        proof {
                            assert(self@ =~= apply_statement_model(old(self)@, stmt@));
                        }
                    },
                }
            },
            Statement::SetPatientAge { id, value } => {
                match self.index_of(*id) {
                    None => {},
                    Some(idx) => {
                        let rec = &self.apps[idx];
                        let updated = ApplicationRecord {
                            current_page: rec.current_page.clone(),
                            application_submitted: rec.application_submitted,
                            patient_age: Some(value.clone()),
                            patient_gender: rec.patient_gender.clone(),
                            therapist_minority_competence: rec
                                .therapist_minority_competence
                                .clone(),
                        };
                        proof {
                            assert(updated@ =~= with_patient_age(self@[*id - 1], value@));
                        }
                        self.apps.set(idx, updated);
                        proof {
                            assert(self@ =~= apply_statement_model(old(self)@, stmt@));
                        }
                    },
                }
            },
            Statement::SetPatientGender { id, value } => {
                match self.index_of(*id) {
                    None => {},
                    Some(idx) => {
                        let rec = &self.apps[idx];
                        let updated = ApplicationRecord {
                            current_page: rec.current_page.clone(),
                            application_submitted: rec.application_submitted,
                            patient_age: rec.patient_age.clone(),
                            patient_gender: Some(value.clone()),
                            therapist_minority_competence: rec
                                .therapist_minority_competence
                                .clone(),
                        };
                        proof {
                            assert(updated@ =~= with_patient_gender(self@[*id - 1], value@));
                        }
                        self.apps.set(idx, updated);
                        proof {
                            assert(self@ =~= apply_statement_model(old(self)@, stmt@));
                        }
                    },
                }
            },
            Statement::DeleteResponses { id } => {
                match self.index_of(*id) {
                    None => {},
                    Some(idx) => {
                        let rec = &self.apps[idx];
                        let updated = ApplicationRecord {
                            current_page: rec.current_page.clone(),
                            application_submitted: rec.application_submitted,
                            patient_age: rec.patient_age.clone(),
                            patient_gender: rec.patient_gender.clone(),
                            therapist_minority_competence: Vec::new(),
                        };
                        proof {
                            assert(updated@ =~= with_responses(self@[*id - 1], Seq::empty()));
                        }
                        self.apps.set(idx, updated);
                        proof {
                            assert(self@ =~= apply_statement_model(old(self)@, stmt@));
                        }
                    },
                }
            },
            Statement::InsertResponse { id, name } => {
                match self.index_of(*id) {
                    None => {},
                    Some(idx) => {
                        let rec = &self.apps[idx];
                        let mut tags = rec.therapist_minority_competence.clone();
                        tags.push(name.clone());
                        proof {
                            assert(tags.deep_view() =~= self@[*id - 1].therapist_minority_competence
                                .push(name@));
                        }
                        let updated = ApplicationRecord {
                            current_page: rec.current_page.clone(),
                            application_submitted: rec.application_submitted,
                            patient_age: rec.patient_age.clone(),
                            patient_gender: rec.patient_gender.clone(),
                            therapist_minority_competence: tags,
                        };
                        proof {
                            assert(updated@ =~= with_responses(
                                self@[*id - 1],
                                self@[*id - 1].therapist_minority_competence.push(name@),
                            ));
                        }
                        self.apps.set(idx, updated);
                        proof {
                            assert(self@ =~= apply_statement_model(old(self)@, stmt@));
                        }
                    },
                }
            },
        }
    }

    /// Runs a statement sequence front to back, as one transaction of the
    /// underlying store would.
    pub fn run_statements(&mut self, stmts: &Vec<Statement>)
        ensures
            final(self)@ == apply_statements_model(old(self)@, stmts.deep_view()),
    {
        let ghost start = self@;
        let mut i: usize = 0;
        while i < stmts.len()
            invariant
                i <= stmts.len(),
                self@ == apply_statements_model(start, stmts.deep_view().take(i as int)),
            decreases stmts.len() - i,
        {
            self.apply_statement(&stmts[i]);
            proof {
                let sd = stmts.deep_view();
                assert(sd.take(i as int + 1) =~= sd.take(i as int).push(sd[i as int]));
                lemma_apply_statements_snoc(start, sd.take(i as int), sd[i as int]);
            }
            i += 1;
        }
        proof {
            assert(stmts.deep_view().take(stmts@.len() as int) =~= stmts.deep_view());
        }
    }

    /// Applies one partial update to the application `id` names, inside one
    /// transaction: every field the payload supplies is assigned, every
    /// field it leaves out keeps its prior value, and a supplied
    /// competence-response set replaces the old set wholesale. An id that
    /// names no application leaves the store unchanged.
    pub fn update(&mut self, id: i64, payload: &UpdateApplicationPayload)
        ensures
            final(self)@ == update_model(old(self)@, id as int, payload@),
    {
        let stmts = update_statements(id, payload);
        self.run_statements(&stmts);
        proof {
            lemma_plan_is_update(old(self)@, id as int, payload@);
        }
    }
}

/// Running statements and then one more is running the extended sequence.
proof fn lemma_apply_statements_snoc(
    s: Seq<RecordModel>,
    stmts: Seq<StatementModel>,
    st: StatementModel,
)
    ensures
        apply_statements_model(s, stmts.push(st)) == apply_statement_model(
            apply_statements_model(s, stmts),
            st,
        ),
    decreases stmts.len(),
{
    if stmts.len() == 0 {
        assert(stmts.push(st)[0] == st);
        assert(stmts.push(st).drop_first() =~= Seq::<StatementModel>::empty());
        assert(apply_statements_model(apply_statement_model(s, st), Seq::empty())
            == apply_statement_model(s, st));
        assert(apply_statements_model(s, stmts) == s);
    } else {
        assert(stmts.push(st)[0] == stmts[0]);
        assert(stmts.push(st).drop_first() =~= stmts.drop_first().push(st));
        let s1 = apply_statement_model(s, stmts[0]);
        lemma_apply_statements_snoc(s1, stmts.drop_first(), st);
        assert(apply_statements_model(s, stmts) == apply_statements_model(
            s1,
            stmts.drop_first(),
        ));
        assert(apply_statements_model(s, stmts.push(st)) == apply_statements_model(
            s1,
            stmts.drop_first().push(st),
        ));
    }
}

/// Running a concatenation is running the two halves in order.
proof fn lemma_apply_statements_concat(
    s: Seq<RecordModel>,
    a: Seq<StatementModel>,
    b: Seq<StatementModel>,
)
    ensures
        apply_statements_model(s, a + b) == apply_statements_model(
            apply_statements_model(s, a),
            b,
        ),
    decreases a.len(),
{
    if a.len() == 0 {
        assert(a + b =~= b);
    } else {
        assert((a + b)[0] == a[0]);
        assert((a + b).drop_first() =~= a.drop_first() + b);
        lemma_apply_statements_concat(apply_statement_model(s, a[0]), a.drop_first(), b);
    }
}

/// Running one statement alone.
proof fn lemma_apply_single(s: Seq<RecordModel>, st: StatementModel)
    ensures
        apply_statements_model(s, seq![st]) == apply_statement_model(s, st),
{
    assert(seq![st].drop_first() =~= Seq::<StatementModel>::empty());
    assert(apply_statements_model(apply_statement_model(s, st), Seq::empty())
        == apply_statement_model(s, st));
}

/// Running the inserts for `names` appends them, in order, to the targeted
/// application's response set, and does nothing when `id` names no
/// application.
proof fn lemma_apply_inserts(s: Seq<RecordModel>, id: int, names: Seq<Seq<char>>)
    ensures
        valid_id(s, id) ==> apply_statements_model(s, insert_statements(id, names)) == s.update(
            id - 1,
            with_responses(s[id - 1], s[id - 1].therapist_minority_competence + names),
        ),
        !valid_id(s, id) ==> apply_statements_model(s, insert_statements(id, names)) == s,
    decreases names.len(),
{
    if names.len() == 0 {
        assert(insert_statements(id, names) =~= Seq::<StatementModel>::empty());
        if valid_id(s, id) {
            assert(s[id - 1].therapist_minority_competence + names
                =~= s[id - 1].therapist_minority_competence);
            assert(s.update(id - 1, with_responses(s[id - 1], s[id - 1].therapist_minority_competence + names))
                =~~= s);
        }
    } else {
        let st = StatementModel::InsertResponse { id: id, name: names[0] };
        assert(insert_statements(id, names)[0] == st);
        assert(insert_statements(id, names).drop_first() =~= insert_statements(
            id,
            names.drop_first(),
        ));
        let s1 = apply_statement_model(s, st);
        lemma_apply_inserts(s1, id, names.drop_first());
        if valid_id(s, id) {
            assert(s1 == s.update(
                id - 1,
                with_responses(s[id - 1], s[id - 1].therapist_minority_competence.push(names[0])),
            ));
            assert(valid_id(s1, id));
            assert(s1[id - 1].therapist_minority_competence
                == s[id - 1].therapist_minority_competence.push(names[0]));
            assert(s1[id - 1].therapist_minority_competence + names.drop_first()
                =~= s[id - 1].therapist_minority_competence + names);
            assert(s1.update(
                id - 1,
                with_responses(s1[id - 1], s1[id - 1].therapist_minority_competence + names.drop_first()),
            ) =~~= s.update(
                id - 1,
                with_responses(s[id - 1], s[id - 1].therapist_minority_competence + names),
            ));
        }
    }
}

/// The whole statement plan of one update is exactly one atomic
/// partial-update step: run front to back inside one transaction, it takes
/// the store straight from the pre-update state to the post-update state,
/// with no other outcome possible.
#[verifier::rlimit(100)]
#[verifier::spinoff_prover]
pub proof fn lemma_plan_is_update(s: Seq<RecordModel>, id: int, p: PayloadModel)
    ensures
        apply_statements_model(s, update_plan(id, p)) == update_model(s, id, p),
{
    let seg1: Seq<StatementModel> = if p.current_page is Some {
        seq![StatementModel::SetCurrentPage { id: id, value: p.current_page->Some_0 }]
    } else {
        Seq::empty()
    };
    let seg2: Seq<StatementModel> = if p.application_submitted is Some {
        seq![StatementModel::SetApplicationSubmitted { id: id, submitted: p.application_submitted->Some_0 }]
    } else {
        Seq::empty()
    };
    let seg3: Seq<StatementModel> = if p.patient_age is Some {
        seq![StatementModel::SetPatientAge { id: id, value: p.patient_age->Some_0 }]
    } else {
        Seq::empty()
    };
    let seg4: Seq<StatementModel> = if p.patient_gender is Some {
        seq![StatementModel::SetPatientGender { id: id, value: p.patient_gender->Some_0 }]
    } else {
        Seq::empty()
    };
    let seg5: Seq<StatementModel> = if p.therapist_minority_competence_responses is Some {
        seq![StatementModel::DeleteResponses { id: id }] + insert_statements(
            id,
            p.therapist_minority_competence_responses->Some_0,
        )
    } else {
        Seq::empty()
    };
    assert(update_plan(id, p) == seg1 + seg2 + seg3 + seg4 + seg5);

    let s1 = apply_statements_model(s, seg1);
    let s2 = apply_statements_model(s1, seg2);
    let s3 = apply_statements_model(s2, seg3);
    let s4 = apply_statements_model(s3, seg4);
    let s5 = apply_statements_model(s4, seg5);

    lemma_apply_statements_concat(s, seg1, seg2 + seg3 + seg4 + seg5);
    lemma_apply_statements_concat(s1, seg2, seg3 + seg4 + seg5);
    lemma_apply_statements_concat(s2, seg3, seg4 + seg5);
    lemma_apply_statements_concat(s3, seg4, seg5);
    assert(seg1 + (seg2 + seg3 + seg4 + seg5) =~= seg1 + seg2 + seg3 + seg4 + seg5);
    assert(seg2 + (seg3 + seg4 + seg5) =~= seg2 + seg3 + seg4 + seg5);
    assert(seg3 + (seg4 + seg5) =~= seg3 + seg4 + seg5);
    assert(apply_statements_model(s, update_plan(id, p)) == s5);

    if p.current_page is Some {
        lemma_apply_single(s, seg1[0]);
    }
    if p.application_submitted is Some {
        lemma_apply_single(s1, seg2[0]);
    }
    if p.patient_age is Some {
        lemma_apply_single(s2, seg3[0]);
    }
    if p.patient_gender is Some {
        lemma_apply_single(s3, seg4[0]);
    }
    if p.therapist_minority_competence_responses is Some {
        let names = p.therapist_minority_competence_responses->Some_0;
        let del = StatementModel::DeleteResponses { id: id };
        lemma_apply_statements_concat(s4, seq![del], insert_statements(id, names));
        assert(seq![del] + insert_statements(id, names) == seg5);
        lemma_apply_single(s4, del);
        lemma_apply_inserts(apply_statement_model(s4, del), id, names);
        if valid_id(s, id) {
            let s4d = apply_statement_model(s4, del);
            assert(s4d[id - 1].therapist_minority_competence =~= Seq::<Seq<char>>::empty());
            assert(s4d[id - 1].therapist_minority_competence + names =~= names);
        }
    }

    if valid_id(s, id) {
        assert(s5 =~~= update_model(s, id, p));
    } else {
        assert(s5 == s);
    }
}

} // verus!
