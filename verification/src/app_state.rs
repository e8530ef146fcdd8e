//! The state of the whole page and how each event changes it: the list of
//! models, what the main panel shows, and the banner at the top.

use vstd::prelude::*;
use crate::models::{BannerVariant, MlModel, MlModelView, ModelSelection, ModelSelectionView};
use crate::model_list::{id_is, saved, save_model};
use crate::search::{first_index, is_first, lemma_first_index_is};
use crate::search::first_match;
use crate::training::{TrainingKind, TrainingStepView, after_fetch, law_trained_model_is_listed, name_is, success_message};

verus! {

/// The page's state.
#[derive(Debug, PartialEq, Eq)]
pub struct AppState {
    /// The models that the backend lists.
    pub ml_models: Vec<MlModel>,
    /// What the main panel shows, once the user has chosen.
    pub selected_model: Option<ModelSelection>,
    /// The banner's message and kind, while one is shown.
    pub banner: Option<(String, BannerVariant)>,
}

/// The view of an [`AppState`].
pub struct AppStateView {
    pub ml_models: Seq<MlModelView>,
    pub selected_model: Option<ModelSelectionView>,
    pub banner: Option<(Seq<char>, BannerVariant)>,
}

/// The view of a banner.
pub open spec fn banner_view(b: Option<(String, BannerVariant)>) -> Option<(Seq<char>, BannerVariant)> {
    match b {
        Some((m, v)) => Some((m@, v)),
        None => None,
    }
}

impl View for AppState {
    type V = AppStateView;

    open spec fn view(&self) -> AppStateView {
        AppStateView {
            ml_models: self.ml_models.deep_view(),
            selected_model: self.selected_model.deep_view(),
            banner: banner_view(self.banner),
        }
    }
}

/// What happens on the page.
#[derive(Debug, PartialEq, Eq)]
pub enum AppEvent {
    /// The first fetch of the model list came back.
    ModelsLoaded(Result<Vec<MlModel>, String>),
    /// Something failed; the message is to be shown.
    Error(String),
    /// Something succeeded; the message is to be shown.
    Success(String),
    /// The user closed the banner.
    DismissBanner,
    /// A training run finished with this model.
    ModelTrained(MlModel),
    /// A fresh model list arrived.
    ModelsChanged(Vec<MlModel>),
    /// The user chose in the model selector.
    ModelSelected(ModelSelection),
    /// The user edited a parameter of the shown model.
    ModelSaved(MlModel),
}

/// The view of an [`AppEvent`].
pub enum AppEventView {
    ModelsLoaded(Result<Seq<MlModelView>, Seq<char>>),
    Error(Seq<char>),
    Success(Seq<char>),
    DismissBanner,
    ModelTrained(MlModelView),
    ModelsChanged(Seq<MlModelView>),
    ModelSelected(ModelSelectionView),
    ModelSaved(MlModelView),
}

impl View for AppEvent {
    type V = AppEventView;

    open spec fn view(&self) -> AppEventView {
        match self {
            AppEvent::ModelsLoaded(Ok(ms)) => AppEventView::ModelsLoaded(Ok(ms.deep_view())),
            AppEvent::ModelsLoaded(Err(e)) => AppEventView::ModelsLoaded(Err(e@)),
            AppEvent::Error(m) => AppEventView::Error(m@),
            AppEvent::Success(m) => AppEventView::Success(m@),
            AppEvent::DismissBanner => AppEventView::DismissBanner,
            AppEvent::ModelTrained(m) => AppEventView::ModelTrained(m@),
            AppEvent::ModelsChanged(ms) => AppEventView::ModelsChanged(ms.deep_view()),
            AppEvent::ModelSelected(s) => AppEventView::ModelSelected(s@),
            AppEvent::ModelSaved(m) => AppEventView::ModelSaved(m@),
        }
    }
}

/// The page when it opens: no models yet, nothing chosen, no banner.
pub open spec fn initial_state() -> AppStateView {
    AppStateView { ml_models: Seq::empty(), selected_model: None, banner: None }
}

/// The state after an event.
pub open spec fn step(s: AppStateView, e: AppEventView) -> AppStateView {
    match e {
        AppEventView::ModelsLoaded(Ok(ms)) => AppStateView { ml_models: ms, ..s },
        AppEventView::ModelsLoaded(Err(msg)) => AppStateView {
            banner: Some((msg, BannerVariant::Error)),
            ..s
        },
        AppEventView::Error(msg) => AppStateView { banner: Some((msg, BannerVariant::Error)), ..s },
        AppEventView::Success(msg) => AppStateView {
            banner: Some((msg, BannerVariant::Success)),
            ..s
        },
        AppEventView::DismissBanner => AppStateView { banner: None, ..s },
        AppEventView::ModelTrained(m) => AppStateView {
            selected_model: Some(ModelSelectionView::Model(m)),
            ..s
        },
        AppEventView::ModelsChanged(ms) => AppStateView { ml_models: ms, ..s },
        AppEventView::ModelSelected(sel) => AppStateView { selected_model: Some(sel), ..s },
        AppEventView::ModelSaved(m) => AppStateView {
            ml_models: saved(s.ml_models, m),
            selected_model: Some(ModelSelectionView::Model(m)),
            ..s
        },
    }
}

/// What the banner component is handed: the message, if any, and the kind
/// (an error where no banner is shown).
pub open spec fn banner_props_spec(s: AppStateView) -> (Option<Seq<char>>, BannerVariant) {
    match s.banner {
        Some((m, v)) => (Some(m), v),
        None => (None, BannerVariant::Error),
    }
}

impl AppState {
    /// The page when it opens.
    pub fn new() -> (s: AppState)
        ensures
            s@ == initial_state(),
    {
        let s = AppState { ml_models: Vec::new(), selected_model: None, banner: None };
        assert(s@.ml_models =~= Seq::<MlModelView>::empty());
        s
    }

    /// Applies an event.
    pub fn apply(&mut self, event: AppEvent)
        ensures
            final(self)@ == step(old(self)@, event@),
            event@ matches AppEventView::ModelSelected(sel) ==> final(self)@.selected_model == Some(
                sel,
            ),
    {
        match event {
            AppEvent::ModelsLoaded(Ok(ms)) => {
                self.ml_models = ms;
            },
            AppEvent::ModelsLoaded(Err(msg)) => {
                self.banner = Some((msg, BannerVariant::Error));
            },
            AppEvent::Error(msg) => {
                self.banner = Some((msg, BannerVariant::Error));
            },
            AppEvent::Success(msg) => {
                self.banner = Some((msg, BannerVariant::Success));
            },
            AppEvent::DismissBanner => {
                self.banner = None;
            },
            AppEvent::ModelTrained(m) => {
                self.selected_model = Some(ModelSelection::Model(m));
            },
            AppEvent::ModelsChanged(ms) => {
                self.ml_models = ms;
            },
            AppEvent::ModelSelected(sel) => {
                self.selected_model = Some(sel);
            },
            AppEvent::ModelSaved(m) => {
                let kept = m.clone();
                save_model(&mut self.ml_models, m);
                self.selected_model = Some(ModelSelection::Model(kept));
            },
        }
    }

    /// What the banner component is handed.
    pub fn banner_props(&self) -> (r: (Option<String>, BannerVariant))
        ensures
            (r.0.deep_view(), r.1) == banner_props_spec(self@),
    {
        match &self.banner {
            Some((m, v)) => (Some(m.clone()), *v),
            None => (None, BannerVariant::Error),
        }
    }
}

/// Choosing in the model selector shows the choice, whatever was shown
/// before, and changes nothing else; a trained model is likewise shown, and
/// a fresh list replaces the old one.
pub proof fn law_choice_is_shown(s: AppStateView, sel: ModelSelectionView, m: MlModelView, ms: Seq<MlModelView>)
    ensures
        step(s, AppEventView::ModelSelected(sel)).selected_model == Some(sel),
        step(s, AppEventView::ModelSelected(sel)).ml_models == s.ml_models,
        step(s, AppEventView::ModelSelected(sel)).banner == s.banner,
        step(s, AppEventView::ModelTrained(m)).selected_model == Some(ModelSelectionView::Model(m)),
        step(s, AppEventView::ModelsChanged(ms)).ml_models == ms,
        step(s, AppEventView::ModelsChanged(ms)).selected_model == s.selected_model,
        step(s, AppEventView::ModelsLoaded(Ok(ms))).ml_models == ms,
        step(step(s, AppEventView::ModelSelected(sel)), AppEventView::ModelSelected(
            ModelSelectionView::TrainNew,
        )).selected_model == Some(ModelSelectionView::TrainNew),
{
}

/// Closing the banner hides it, whatever was shown.
pub proof fn law_dismiss_hides_banner(s: AppStateView)
    ensures
        step(s, AppEventView::DismissBanner).banner is None,
        banner_props_spec(step(s, AppEventView::DismissBanner)).0 is None,
{
}

/// A reported error or success is what the banner shows next, with its kind.
pub proof fn law_reports_show_in_banner(s: AppStateView, msg: Seq<char>)
    ensures
        banner_props_spec(step(s, AppEventView::Error(msg))) == (Some(msg), BannerVariant::Error),
        banner_props_spec(step(s, AppEventView::Success(msg))) == (
            Some(msg),
            BannerVariant::Success,
        ),
        banner_props_spec(step(s, AppEventView::ModelsLoaded(Err(msg)))) == (
            Some(msg),
            BannerVariant::Error,
        ),
{
}

/// Events about models leave the banner as it was.
pub proof fn law_banner_unchanged_by_model_events(s: AppStateView, e: AppEventView)
    requires
        !(e is Error || e is Success || e is DismissBanner || e matches AppEventView::ModelsLoaded(
            Err(_),
        )),
    ensures
        step(s, e).banner == s.banner,
{
}

/// Saving an edited model shows it, keeps the list's length and every
/// model's id in place, and puts it where the first model with its id was.
pub proof fn law_save_keeps_ids(s: AppStateView, m: MlModelView)
    ensures
        step(s, AppEventView::ModelSaved(m)).selected_model == Some(ModelSelectionView::Model(m)),
        step(s, AppEventView::ModelSaved(m)).ml_models.len() == s.ml_models.len(),
        forall|i: int|
            0 <= i < s.ml_models.len() ==> (#[trigger] step(
                s,
                AppEventView::ModelSaved(m),
            ).ml_models[i]).id == s.ml_models[i].id,
        first_index(s.ml_models, id_is(m.id)) matches Some(k) ==> step(
            s,
            AppEventView::ModelSaved(m),
        ).ml_models[k] == m,
        first_index(s.ml_models, id_is(m.id)) is None ==> step(
            s,
            AppEventView::ModelSaved(m),
        ).ml_models == s.ml_models,
{
    match first_index(s.ml_models, id_is(m.id)) {
        Some(k) => {
            let k2 = choose|i: int| is_first(s.ml_models, id_is(m.id), i);
            assert(is_first(s.ml_models, id_is(m.id), k2));
        },
        None => {},
    }
}

/// Saving the same model twice gives what saving it once gives.
pub proof fn law_save_idempotent(s: AppStateView, m: MlModelView)
    ensures
        step(step(s, AppEventView::ModelSaved(m)), AppEventView::ModelSaved(m)) == step(
            s,
            AppEventView::ModelSaved(m),
        ),
{
    let once = step(s, AppEventView::ModelSaved(m));
    match first_index(s.ml_models, id_is(m.id)) {
        Some(k) => {
            let k2 = choose|i: int| is_first(s.ml_models, id_is(m.id), i);
            assert(is_first(s.ml_models, id_is(m.id), k2));
            let updated = s.ml_models.update(k, m);
            assert(is_first(updated, id_is(m.id), k)) by {
                assert forall|j: int| 0 <= j < k implies !id_is(m.id)(#[trigger] updated[j]) by {
                    assert(updated[j] == s.ml_models[j]);
                }
            }
            lemma_first_index_is(updated, id_is(m.id), k);
            assert(updated.update(k, m) =~= updated);
        },
        None => {},
    }
}

/// When a training run finishes with the trained model in the fetched
/// list, the page (given the fresh list, then the model) lists exactly the
/// fetched models and shows the trained one, keeping its banner until the
/// success message arrives, which it then shows.
pub proof fn law_finished_training_shows_model(
    s: AppStateView,
    kind: TrainingKind,
    name: Seq<char>,
    models: Seq<MlModelView>,
    k: int,
)
    requires
        0 <= k < models.len(),
        models[k].name == name,
    ensures
        ({
            let m = first_match(models, name_is(name))->0;
            let s2 = step(step(s, AppEventView::ModelsChanged(models)), AppEventView::ModelTrained(m));
            &&& after_fetch(kind, name, Ok(models)) == (TrainingStepView::Finish {
                models,
                trained: Some(m),
                success: Some(success_message(kind, name)),
            })
            &&& m.name == name
            &&& s2.ml_models == models
            &&& s2.selected_model == Some(ModelSelectionView::Model(m))
            &&& s2.banner == s.banner
            &&& banner_props_spec(step(s2, AppEventView::Success(success_message(kind, name)))) == (
                Some(success_message(kind, name)),
                BannerVariant::Success,
            )
        }),
{
    crate::search::lemma_first_exists(models, name_is(name), k);
    law_trained_model_is_listed(kind, name, Ok(models));
}

} // verus!
