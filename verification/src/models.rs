//! The records that the backend serves and the frontend passes around,
//! each with a mathematical view over which the contracts are written.

use vstd::prelude::*;

verus! {

/// A named input value of a model (one field of the prediction form).
#[derive(Debug, PartialEq, Eq)]
pub struct Parameter {
    pub name: String,
    pub value: String,
}

/// The view of a [`Parameter`].
pub struct ParameterView {
    pub name: Seq<char>,
    pub value: Seq<char>,
}

impl View for Parameter {
    type V = ParameterView;

    open spec fn view(&self) -> ParameterView {
        ParameterView { name: self.name@, value: self.value@ }
    }
}

impl DeepView for Parameter {
    type V = ParameterView;

    open spec fn deep_view(&self) -> ParameterView {
        self@
    }
}

impl Clone for Parameter {
    fn clone(&self) -> (res: Self)
        ensures
            res@ == self@,
    {
        Parameter { name: self.name.clone(), value: self.value.clone() }
    }
}

/// Clones a vector of parameters, keeping every element's view.
pub fn clone_parameters(v: &Vec<Parameter>) -> (res: Vec<Parameter>)
    ensures
        res.deep_view() == v.deep_view(),
{
    let mut res: Vec<Parameter> = Vec::new();
    for i in 0..v.len()
        invariant
            res.len() == i,
            forall|j: int| 0 <= j < i ==> #[trigger] res@[j]@ == v@[j]@,
    {
        res.push(v[i].clone());
    }
    assert(res.deep_view() =~= v.deep_view());
    res
}

/// Clones a vector of strings, keeping every element's view.
pub fn clone_strings(v: &Vec<String>) -> (res: Vec<String>)
    ensures
        res.deep_view() == v.deep_view(),
{
    let mut res: Vec<String> = Vec::new();
    for i in 0..v.len()
        invariant
            res.len() == i,
            forall|j: int| 0 <= j < i ==> #[trigger] res@[j]@ == v@[j]@,
    {
        res.push(v[i].clone());
    }
    assert(res.deep_view() =~= v.deep_view());
    res
}

/// Clones an optional string, keeping its view.
pub fn clone_opt_string(s: &Option<String>) -> (res: Option<String>)
    ensures
        res.deep_view() == s.deep_view(),
{
    match s {
        Some(x) => Some(x.clone()),
        None => None,
    }
}

/// A trained model as the backend lists it.
#[derive(Debug, PartialEq, Eq)]
pub struct MlModel {
    pub id: usize,
    pub name: String,
    pub description: String,
    /// The model's versions, oldest first.
    pub version: Vec<String>,
    pub parameters: Vec<Parameter>,
    pub url: String,
    /// The training algorithm's identifier, where the backend reports it.
    pub algorithm: Option<String>,
}

/// The view of an [`MlModel`].
pub struct MlModelView {
    pub id: nat,
    pub name: Seq<char>,
    pub description: Seq<char>,
    pub version: Seq<Seq<char>>,
    pub parameters: Seq<ParameterView>,
    pub url: Seq<char>,
    pub algorithm: Option<Seq<char>>,
}

impl View for MlModel {
    type V = MlModelView;

    open spec fn view(&self) -> MlModelView {
        MlModelView {
            id: self.id as nat,
            name: self.name@,
            description: self.description@,
            version: self.version.deep_view(),
            parameters: self.parameters.deep_view(),
            url: self.url@,
            algorithm: self.algorithm.deep_view(),
        }
    }
}

impl DeepView for MlModel {
    type V = MlModelView;

    open spec fn deep_view(&self) -> MlModelView {
        self@
    }
}

impl Clone for MlModel {
    fn clone(&self) -> (res: Self)
        ensures
            res@ == self@,
    {
        MlModel {
            id: self.id,
            name: self.name.clone(),
            description: self.description.clone(),
            version: clone_strings(&self.version),
            parameters: clone_parameters(&self.parameters),
            url: self.url.clone(),
            algorithm: clone_opt_string(&self.algorithm),
        }
    }
}

/// Clones a vector of models, keeping every element's view.
pub fn clone_models(v: &Vec<MlModel>) -> (res: Vec<MlModel>)
    ensures
        res.deep_view() == v.deep_view(),
{
    let mut res: Vec<MlModel> = Vec::new();
    for i in 0..v.len()
        invariant
            res.len() == i,
            forall|j: int| 0 <= j < i ==> #[trigger] res@[j]@ == v@[j]@,
    {
        res.push(v[i].clone());
    }
    assert(res.deep_view() =~= v.deep_view());
    res
}

/// One parameter that a training algorithm takes.
#[derive(Debug, PartialEq, Eq)]
pub struct AlgorithmParameterDef {
    pub name: String,
    pub label: String,
    pub default_value: String,
    /// HTML input type, e.g. "number" or "text"
    pub param_type: String,
}

/// The view of an [`AlgorithmParameterDef`].
pub struct AlgorithmParameterDefView {
    pub name: Seq<char>,
    pub label: Seq<char>,
    pub default_value: Seq<char>,
    pub param_type: Seq<char>,
}

impl View for AlgorithmParameterDef {
    type V = AlgorithmParameterDefView;

    open spec fn view(&self) -> AlgorithmParameterDefView {
        AlgorithmParameterDefView {
            name: self.name@,
            label: self.label@,
            default_value: self.default_value@,
            param_type: self.param_type@,
        }
    }
}

impl DeepView for AlgorithmParameterDef {
    type V = AlgorithmParameterDefView;

    open spec fn deep_view(&self) -> AlgorithmParameterDefView {
        self@
    }
}

impl Clone for AlgorithmParameterDef {
    fn clone(&self) -> (res: Self)
        ensures
            res@ == self@,
    {
        AlgorithmParameterDef {
            name: self.name.clone(),
            label: self.label.clone(),
            default_value: self.default_value.clone(),
            param_type: self.param_type.clone(),
        }
    }
}

/// A training algorithm that the backend offers, with its parameters.
#[derive(Debug, PartialEq, Eq)]
pub struct Algorithm {
    pub id: String,
    pub name: String,
    pub parameters: Vec<AlgorithmParameterDef>,
}

/// The view of an [`Algorithm`].
pub struct AlgorithmView {
    pub id: Seq<char>,
    pub name: Seq<char>,
    pub parameters: Seq<AlgorithmParameterDefView>,
}

impl View for Algorithm {
    type V = AlgorithmView;

    open spec fn view(&self) -> AlgorithmView {
        AlgorithmView { id: self.id@, name: self.name@, parameters: self.parameters.deep_view() }
    }
}

impl DeepView for Algorithm {
    type V = AlgorithmView;

    open spec fn deep_view(&self) -> AlgorithmView {
        self@
    }
}

impl Clone for Algorithm {
    fn clone(&self) -> (res: Self)
        ensures
            res@ == self@,
    {
        let mut parameters: Vec<AlgorithmParameterDef> = Vec::new();
        for i in 0..self.parameters.len()
            invariant
                parameters.len() == i,
                forall|j: int| 0 <= j < i ==> #[trigger] parameters@[j]@ == self.parameters@[j]@,
        {
            parameters.push(self.parameters[i].clone());
        }
        assert(parameters.deep_view() =~= self.parameters.deep_view());
        Algorithm { id: self.id.clone(), name: self.name.clone(), parameters }
    }
}

/// Carries the selected algorithm id + current parameter values out of the
/// algorithm selector.
#[derive(Debug, PartialEq, Eq)]
pub struct AlgorithmSelection {
    pub algorithm_id: String,
    pub params: Vec<(String, String)>,
}

/// The view of an [`AlgorithmSelection`].
pub struct AlgorithmSelectionView {
    pub algorithm_id: Seq<char>,
    pub params: Seq<(Seq<char>, Seq<char>)>,
}

impl View for AlgorithmSelection {
    type V = AlgorithmSelectionView;

    open spec fn view(&self) -> AlgorithmSelectionView {
        AlgorithmSelectionView { algorithm_id: self.algorithm_id@, params: self.params.deep_view() }
    }
}

impl DeepView for AlgorithmSelection {
    type V = AlgorithmSelectionView;

    open spec fn deep_view(&self) -> AlgorithmSelectionView {
        self@
    }
}

impl Clone for AlgorithmSelection {
    fn clone(&self) -> (res: Self)
        ensures
            res@ == self@,
    {
        let mut params: Vec<(String, String)> = Vec::new();
        for i in 0..self.params.len()
            invariant
                params.len() == i,
                forall|j: int| 0 <= j < i ==> (#[trigger] params@[j]).deep_view() == self.params@[j].deep_view(),
        {
            let pair = (self.params[i].0.clone(), self.params[i].1.clone());
            params.push(pair);
        }
        assert(params.deep_view() =~= self.params.deep_view());
        AlgorithmSelection { algorithm_id: self.algorithm_id.clone(), params }
    }
}

/// A stored training data file that a new model can be trained on.
#[derive(Debug, PartialEq, Eq)]
pub struct TrainingFile {
    pub name: String,
    pub filename: String,
}

/// The view of a [`TrainingFile`].
pub struct TrainingFileView {
    pub name: Seq<char>,
    pub filename: Seq<char>,
}

impl View for TrainingFile {
    type V = TrainingFileView;

    open spec fn view(&self) -> TrainingFileView {
        TrainingFileView { name: self.name@, filename: self.filename@ }
    }
}

impl Clone for TrainingFile {
    fn clone(&self) -> (res: Self)
        ensures
            res@ == self@,
    {
        TrainingFile { name: self.name.clone(), filename: self.filename.clone() }
    }
}

/// The state of a training job, as the backend reports it when polled.
#[derive(Debug, PartialEq, Eq)]
pub struct TrainingJob {
    /// "pending", "running", "complete" or "failed".
    pub status: String,
    /// Why the job failed, where the backend says.
    pub error: Option<String>,
}

/// The view of a [`TrainingJob`].
pub struct TrainingJobView {
    pub status: Seq<char>,
    pub error: Option<Seq<char>>,
}

impl View for TrainingJob {
    type V = TrainingJobView;

    open spec fn view(&self) -> TrainingJobView {
        TrainingJobView { status: self.status@, error: self.error.deep_view() }
    }
}

/// What the main panel shows: the details of one model, or the form that
/// trains a new one.
#[derive(Debug, PartialEq, Eq)]
pub enum ModelSelection {
    Model(MlModel),
    TrainNew,
}

/// The view of a [`ModelSelection`].
pub enum ModelSelectionView {
    Model(MlModelView),
    TrainNew,
}

impl View for ModelSelection {
    type V = ModelSelectionView;

    open spec fn view(&self) -> ModelSelectionView {
        match self {
            ModelSelection::Model(m) => ModelSelectionView::Model(m@),
            ModelSelection::TrainNew => ModelSelectionView::TrainNew,
        }
    }
}

impl DeepView for ModelSelection {
    type V = ModelSelectionView;

    open spec fn deep_view(&self) -> ModelSelectionView {
        self@
    }
}

impl Clone for ModelSelection {
    fn clone(&self) -> (res: Self)
        ensures
            res@ == self@,
    {
        match self {
            ModelSelection::Model(m) => ModelSelection::Model(m.clone()),
            ModelSelection::TrainNew => ModelSelection::TrainNew,
        }
    }
}

/// The two kinds of banner: an error (red) or a success (green).
#[derive(PartialEq, Eq, Structural, Clone, Copy, Debug)]
pub enum BannerVariant {
    Error,
    Success,
}

impl Default for BannerVariant {
    fn default() -> (v: Self)
        ensures
            v == BannerVariant::Error,
    {
        BannerVariant::Error
    }
}

} // verus!
