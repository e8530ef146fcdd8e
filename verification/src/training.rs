//! A training run, from the request that starts it to the model list that
//! shows its result: the decisions taken on each reply. The waiting and
//! the requests themselves are the caller's.

use vstd::prelude::*;
use crate::models::{MlModel, MlModelView, TrainingJob, TrainingJobView};
use crate::search::{first_index, first_match, is_first, lemma_first_index_is, lemma_first_index_none};
use crate::text::{owned, str_eq};

verus! {

/// How long to wait before each status request, in milliseconds.
pub const POLL_INTERVAL_MS: u32 = 2000;

/// Whether the run trains a new model or a new version of an existing one.
#[derive(PartialEq, Eq, Structural, Clone, Copy, Debug)]
pub enum TrainingKind {
    New,
    Further,
}

/// What to do next.
#[derive(Debug, PartialEq, Eq)]
pub enum TrainingStep {
    /// Wait [`POLL_INTERVAL_MS`], then request the status of this job.
    PollAfterDelay(String),
    /// The job is complete: fetch the model list.
    FetchModels,
    /// Show this error; the run is over.
    Fail(String),
    /// Hand out the model list; where the trained model is in it, show the
    /// success message and show the model. The run is over.
    Finish { models: Vec<MlModel>, trained: Option<MlModel>, success: Option<String> },
}

/// The view of a [`TrainingStep`].
pub enum TrainingStepView {
    PollAfterDelay(Seq<char>),
    FetchModels,
    Fail(Seq<char>),
    Finish {
        models: Seq<MlModelView>,
        trained: Option<MlModelView>,
        success: Option<Seq<char>>,
    },
}

impl View for TrainingStep {
    type V = TrainingStepView;

    open spec fn view(&self) -> TrainingStepView {
        match self {
            TrainingStep::PollAfterDelay(id) => TrainingStepView::PollAfterDelay(id@),
            TrainingStep::FetchModels => TrainingStepView::FetchModels,
            TrainingStep::Fail(m) => TrainingStepView::Fail(m@),
            TrainingStep::Finish { models, trained, success } => TrainingStepView::Finish {
                models: models.deep_view(),
                trained: trained.deep_view(),
                success: success.deep_view(),
            },
        }
    }
}

/// A training run of the model named `model_name`.
#[derive(Debug, PartialEq, Eq)]
pub struct TrainingRun {
    pub model_name: String,
    pub kind: TrainingKind,
}

/// After the training request: poll the job it started, or show why it
/// was refused.
pub open spec fn after_submit(result: Result<Seq<char>, Seq<char>>) -> TrainingStepView {
    match result {
        Ok(job_id) => TrainingStepView::PollAfterDelay(job_id),
        Err(msg) => TrainingStepView::Fail(msg),
    }
}

/// After a status request: a complete job leads to the model list, a
/// failed one to its error ("Training failed" where it gives none), any
/// other status to another poll of the same job; a refused request ends
/// the run with its message.
pub open spec fn after_poll(job_id: Seq<char>, result: Result<TrainingJobView, Seq<char>>) -> TrainingStepView {
    match result {
        Ok(job) => if job.status == "complete"@ {
            TrainingStepView::FetchModels
        } else if job.status == "failed"@ {
            TrainingStepView::Fail(
                match job.error {
                    Some(e) => e,
                    None => "Training failed"@,
                },
            )
        } else {
            TrainingStepView::PollAfterDelay(job_id)
        },
        Err(msg) => TrainingStepView::Fail(msg),
    }
}

/// The model has the given name.
pub open spec fn name_is(name: Seq<char>) -> spec_fn(MlModelView) -> bool {
    |m: MlModelView| m.name == name
}

/// The message shown once a run succeeds.
pub open spec fn success_message(kind: TrainingKind, name: Seq<char>) -> Seq<char> {
    match kind {
        TrainingKind::New => "Model \""@ + name + "\" trained successfully."@,
        TrainingKind::Further => "\""@ + name + "\" trained further successfully."@,
    }
}

/// After the model list is fetched: hand it out, and pick the first model
/// with the trained name, if any, with the success message.
pub open spec fn after_fetch(
    kind: TrainingKind,
    name: Seq<char>,
    result: Result<Seq<MlModelView>, Seq<char>>,
) -> TrainingStepView {
    match result {
        Ok(models) => match first_match(models, name_is(name)) {
            Some(m) => TrainingStepView::Finish {
                models,
                trained: Some(m),
                success: Some(success_message(kind, m.name)),
            },
            None => TrainingStepView::Finish { models, trained: None, success: None },
        },
        Err(msg) => TrainingStepView::Fail(msg),
    }
}

/// The view of a result whose value and error are strings.
pub open spec fn str_result(r: Result<String, String>) -> Result<Seq<char>, Seq<char>> {
    match r {
        Ok(v) => Ok(v@),
        Err(e) => Err(e@),
    }
}

/// The view of a status request's result.
pub open spec fn job_result(r: Result<TrainingJob, String>) -> Result<TrainingJobView, Seq<char>> {
    match r {
        Ok(j) => Ok(j@),
        Err(e) => Err(e@),
    }
}

/// The view of a model list request's result.
pub open spec fn models_result(r: Result<Vec<MlModel>, String>) -> Result<Seq<MlModelView>, Seq<char>> {
    match r {
        Ok(ms) => Ok(ms.deep_view()),
        Err(e) => Err(e@),
    }
}

/// The index of the first model with the given name.
pub fn find_model_by_name(models: &Vec<MlModel>, name: &str) -> (r: Option<usize>)
    ensures
        match r {
            Some(i) => first_index(models.deep_view(), name_is(name@)) == Some(i as int),
            None => first_index(models.deep_view(), name_is(name@)) is None,
        },
{
    let ghost s = models.deep_view();
    let mut i: usize = 0;
    while i < models.len()
        invariant
            s == models.deep_view(),
            i <= models.len(),
            forall|j: int| 0 <= j < i ==> !name_is(name@)(#[trigger] s[j]),
        decreases models.len() - i,
    {
        if str_eq(models[i].name.as_str(), name) {
            proof {
                assert(is_first(s, name_is(name@), i as int));
                lemma_first_index_is(s, name_is(name@), i as int);
            }
            return Some(i);
        }
        i = i + 1;
    }
    proof {
        lemma_first_index_none(s, name_is(name@));
    }
    None
}

impl TrainingRun {
    /// The training request came back (see [`after_submit`]).
    pub fn on_submitted(&self, result: Result<String, String>) -> (step: TrainingStep)
        ensures
            step@ == after_submit(str_result(result)),
    {
        match result {
            Ok(job_id) => TrainingStep::PollAfterDelay(job_id),
            Err(msg) => TrainingStep::Fail(msg),
        }
    }

    /// A status request of job `job_id` came back (see [`after_poll`]).
    pub fn on_polled(&self, job_id: String, result: Result<TrainingJob, String>) -> (step: TrainingStep)
        ensures
            step@ == after_poll(job_id@, job_result(result)),
    {
        match result {
            Ok(job) => {
                if str_eq(job.status.as_str(), "complete") {
                    TrainingStep::FetchModels
                } else if str_eq(job.status.as_str(), "failed") {
                    match job.error {
                        Some(e) => TrainingStep::Fail(e),
                        None => TrainingStep::Fail(owned("Training failed")),
                    }
                } else {
                    TrainingStep::PollAfterDelay(job_id)
                }
            },
            Err(msg) => TrainingStep::Fail(msg),
        }
    }

    /// The model list request came back (see [`after_fetch`]).
    pub fn on_models(&self, result: Result<Vec<MlModel>, String>) -> (step: TrainingStep)
        ensures
            step@ == after_fetch(self.kind, self.model_name@, models_result(result)),
    {
        match result {
            Ok(models) => {
                match find_model_by_name(&models, self.model_name.as_str()) {
                    Some(i) => {
                        let m = models[i].clone();
                        let success = self.success_text(&m.name);
                        let step = TrainingStep::Finish { models, trained: Some(m), success: Some(success) };
                        step
                    },
                    None => TrainingStep::Finish { models, trained: None, success: None },
                }
            },
            Err(msg) => TrainingStep::Fail(msg),
        }
    }

    /// The success message for a model named `name` (see [`success_message`]).
    pub fn success_text(&self, name: &str) -> (msg: String)
        ensures
            msg@ == success_message(self.kind, name@),
    {
        match self.kind {
            TrainingKind::New => {
                let mut msg = owned("Model \"");
                msg.append(name);
                msg.append("\" trained successfully.");
                msg
            },
            TrainingKind::Further => {
                let mut msg = owned("\"");
                msg.append(name);
                msg.append("\" trained further successfully.");
                msg
            },
        }
    }
}

/// A run only ever polls the job that it started: after the training
/// request, and after each status request, the job polled next is that job.
pub proof fn law_polls_only_its_job(
    job_id: Seq<char>,
    submitted: Result<Seq<char>, Seq<char>>,
    polled: Result<TrainingJobView, Seq<char>>,
)
    ensures
        after_submit(submitted) matches TrainingStepView::PollAfterDelay(id) ==> submitted == Ok::<
            Seq<char>,
            Seq<char>,
        >(id),
        after_poll(job_id, polled) matches TrainingStepView::PollAfterDelay(id) ==> id == job_id,
{
}

/// A finished run shows a model only where it is in the list it hands out,
/// under the trained name, and the first with that name.
pub proof fn law_trained_model_is_listed(
    kind: TrainingKind,
    name: Seq<char>,
    result: Result<Seq<MlModelView>, Seq<char>>,
)
    ensures
        after_fetch(kind, name, result) matches TrainingStepView::Finish { models, trained, success } ==> {
            &&& result == Ok::<Seq<MlModelView>, Seq<char>>(models)
            &&& trained matches Some(m) ==> first_index(models, name_is(name)) matches Some(i) && models[i]
                == m && m.name == name
            &&& trained is Some <==> exists|i: int| 0 <= i < models.len() && #[trigger] models[i].name == name
            &&& success is Some <==> trained is Some
        },
{
    if let Ok(models) = result {
        match first_index(models, name_is(name)) {
            Some(i) => {
                let k = choose|k: int| is_first(models, name_is(name), k);
                assert(is_first(models, name_is(name), k));
                assert(models[i].name == name);
            },
            None => {
                if exists|i: int| 0 <= i < models.len() && #[trigger] models[i].name == name {
                    let i = choose|i: int| 0 <= i < models.len() && #[trigger] models[i].name == name;
                    crate::search::lemma_first_exists(models, name_is(name), i);
                }
            },
        }
    }
}

} // verus!
