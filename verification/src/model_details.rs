//! The panel that shows one model: its versions, its parameters, the
//! prediction request, and training a further version.

use vstd::prelude::*;
use crate::api::{predict_url, predict_url_spec};
use crate::models::{MlModel, MlModelView, Parameter, ParameterView, clone_parameters};
use crate::search::{first_index, is_first, lemma_first_index_is, lemma_first_index_none};
use crate::text::{ascii_fold, eq_ignore_ascii_case, eq_ignore_ascii_case_spec, lemma_fold_same_letter, owned, same_letter_any_case, str_eq};
use crate::train_form::{FieldValue, FormField, text_field};
use crate::training::{TrainingKind, TrainingRun};

verus! {

/// The version shown first, and again whenever the version list changes:
/// the latest, if the model has any.
pub open spec fn latest_version_spec(model: MlModelView) -> Option<Seq<char>> {
    if model.version.len() == 0 {
        None
    } else {
        Some(model.version.last())
    }
}

/// The model's latest version (see [`latest_version_spec`]).
pub fn latest_version(model: &MlModel) -> (v: Option<String>)
    ensures
        v.deep_view() == latest_version_spec(model@),
        model.version@.len() == 0 ==> v is None,
        model.version@.len() > 0 ==> (v matches Some(s) && s@ == model.version@[model.version@.len() - 1]@),
{
    let n = model.version.len();
    if n == 0 {
        None
    } else {
        Some(model.version[n - 1].clone())
    }
}

/// The version preselected is the last of the model's versions, where it
/// has any, and nothing where it has none.
pub proof fn law_latest_is_last(model: MlModelView)
    ensures
        model.version.len() == 0 ==> latest_version_spec(model) is None,
        model.version.len() > 0 ==> latest_version_spec(model) == Some(
            model.version[model.version.len() - 1],
        ),
        forall|i: int|
            0 <= i < model.version.len() - 1 && model.version[i] != model.version[model.version.len()
                - 1] ==> latest_version_spec(model) != Some(#[trigger] model.version[i]),
{
}

/// The parameter has the given name.
pub open spec fn param_name_is(name: Seq<char>) -> spec_fn(ParameterView) -> bool {
    |p: ParameterView| p.name == name
}

/// The model after the user typed `value` into the input of parameter
/// `name`: the first parameter with that name takes the value; nothing
/// else changes.
pub open spec fn with_parameter_value(model: MlModelView, name: Seq<char>, value: Seq<char>) -> MlModelView {
    match first_index(model.parameters, param_name_is(name)) {
        Some(i) => MlModelView {
            parameters: model.parameters.update(i, ParameterView { name, value }),
            ..model
        },
        None => model,
    }
}

/// The edited model (see [`with_parameter_value`]).
pub fn set_parameter_value(model: &MlModel, name: &str, value: String) -> (r: MlModel)
    ensures
        r@ == with_parameter_value(model@, name@, value@),
{
    let mut r = model.clone();
    let ghost s = r.parameters.deep_view();
    let mut i: usize = 0;
    while i < r.parameters.len()
        invariant
            s == r.parameters.deep_view(),
            r@ == model@,
            i <= r.parameters.len(),
            forall|j: int| 0 <= j < i ==> !param_name_is(name@)(#[trigger] s[j]),
        decreases r.parameters.len() - i,
    {
        if str_eq(r.parameters[i].name.as_str(), name) {
            proof {
                assert(is_first(s, param_name_is(name@), i as int));
                lemma_first_index_is(s, param_name_is(name@), i as int);
            }
            let p = Parameter { name: r.parameters[i].name.clone(), value };
            let mut params = clone_parameters(&r.parameters);
            params.set(i, p);
            assert(params.deep_view() =~= s.update(i as int, ParameterView { name: name@, value: value@ }));
            r.parameters = params;
            return r;
        }
        i = i + 1;
    }
    proof {
        lemma_first_index_none(s, param_name_is(name@));
    }
    r
}

/// Whether the "new version" entry is selected, which offers training a
/// further version in place of the prediction form.
pub fn is_new_version(selected: &Option<String>) -> (r: bool)
    ensures
        r == (selected matches Some(v) && v@ == "new_version"@),
{
    match selected {
        Some(v) => str_eq(v.as_str(), "new_version"),
        None => false,
    }
}

/// The model was trained by logistic regression (the algorithm's name
/// compared without regard to ASCII case).
pub open spec fn is_logistic_spec(model: MlModelView) -> bool {
    model.algorithm matches Some(a) && eq_ignore_ascii_case_spec(a, "LOGISTIC_REGRESSION"@)
}

/// Only an algorithm named "LOGISTIC_REGRESSION", in any ASCII case, makes a
/// model logistic: the name has its length, and at each place the same
/// character or the same ASCII letter in the other case.
pub proof fn law_logistic_is_that_name(model: MlModelView)
    ensures
        is_logistic_spec(model) <==> (model.algorithm matches Some(a) && (a.len()
            == "LOGISTIC_REGRESSION"@.len() && forall|i: int|
            0 <= i < a.len() ==> same_letter_any_case(#[trigger] a[i], "LOGISTIC_REGRESSION"@[i]))),
        model.algorithm is None ==> !is_logistic_spec(model),
        (model.algorithm matches Some(a) && a.len() != 19) ==> !is_logistic_spec(model),
        model.algorithm == Some("LOGISTIC_REGRESSION"@) ==> is_logistic_spec(model),
{
    reveal_strlit("LOGISTIC_REGRESSION");
    if let Some(a) = model.algorithm {
        if a.len() == "LOGISTIC_REGRESSION"@.len() {
            assert forall|i: int| 0 <= i < a.len() implies (ascii_fold(a[i]) == ascii_fold(
                "LOGISTIC_REGRESSION"@[i]) <==> same_letter_any_case(a[i], "LOGISTIC_REGRESSION"@[i])) by {
                lemma_fold_same_letter(a[i], "LOGISTIC_REGRESSION"@[i]);
            }
        }
    }
}

/// Whether the model was trained by logistic regression, which cannot be
/// trained further.
pub fn is_logistic(model: &MlModel) -> (r: bool)
    ensures
        r == is_logistic_spec(model@),
{
    match &model.algorithm {
        Some(a) => eq_ignore_ascii_case(a.as_str(), "LOGISTIC_REGRESSION"),
        None => false,
    }
}

/// Whether the "Train Further" button is disabled: for a logistic
/// regression model, and while a request is under way.
pub fn train_further_disabled(model: &MlModel, busy: bool) -> (r: bool)
    ensures
        r == (is_logistic_spec(model@) || busy),
{
    is_logistic(model) || busy
}

/// The fields of the request that trains a further version: the model's
/// name.
pub fn train_further_form(model: &MlModel) -> (fields: Vec<FormField>)
    ensures
        fields.deep_view() == seq![text_field("model"@, model@.name)],
{
    let mut fields: Vec<FormField> = Vec::new();
    fields.push(FormField { name: owned("model"), value: FieldValue::Text(model.name.clone()) });
    assert(fields.deep_view() =~= seq![text_field("model"@, model@.name)]);
    fields
}

/// The training run that "Train Further" starts: a further version of the
/// model, found again by its name.
pub fn train_further_run(model: &MlModel) -> (run: TrainingRun)
    ensures
        run.model_name@ == model@.name,
        run.kind == TrainingKind::Further,
{
    TrainingRun { model_name: model.name.clone(), kind: TrainingKind::Further }
}

/// A prediction request: where it goes and the parameter values it sends,
/// in the model's order.
#[derive(Debug, PartialEq, Eq)]
pub struct PredictRequest {
    pub url: String,
    pub inputs: Vec<String>,
}

/// The prediction request for the selected version, if one is selected.
pub open spec fn predict_request_spec(model: MlModelView, selected: Option<Seq<char>>) -> Option<(Seq<char>, Seq<Seq<char>>)> {
    match selected {
        Some(v) => Some(
            (
                predict_url_spec(model.name, v),
                model.parameters.map_values(|p: ParameterView| p.value),
            ),
        ),
        None => None,
    }
}

/// The prediction request for the selected version, if any (see
/// [`predict_request_spec`]).
pub fn predict_request(model: &MlModel, selected: &Option<String>) -> (r: Option<PredictRequest>)
    ensures
        match r {
            Some(req) => predict_request_spec(model@, selected.deep_view()) == Some(
                (req.url@, req.inputs.deep_view()),
            ),
            None => predict_request_spec(model@, selected.deep_view()) is None,
        },
{
    match selected {
        Some(version) => {
            let url = predict_url(model.name.as_str(), version.as_str());
            let mut inputs: Vec<String> = Vec::new();
            for i in 0..model.parameters.len()
                invariant
                    inputs.len() == i,
                    forall|j: int| 0 <= j < i ==> #[trigger] inputs@[j]@ == model@.parameters[j].value,
            {
                inputs.push(model.parameters[i].value.clone());
            }
            assert(inputs.deep_view() =~= model@.parameters.map_values(|p: ParameterView| p.value));
            Some(PredictRequest { url, inputs })
        },
        None => None,
    }
}

/// What a click on "Predict" does: the request to send, if a version is
/// selected, and whether the panel is busy afterwards, which it is exactly
/// while a request is in progress.
#[derive(Debug, PartialEq, Eq)]
pub struct PredictClick {
    pub busy: bool,
    pub request: Option<PredictRequest>,
}

/// A click on "Predict": the request for the selected version (see
/// [`predict_request_spec`]); the panel is busy exactly when one is sent.
pub fn predict_click(model: &MlModel, selected: &Option<String>) -> (c: PredictClick)
    ensures
        c.busy <==> c.request is Some,
        c.busy <==> selected is Some,
        match c.request {
            Some(req) => predict_request_spec(model@, selected.deep_view()) == Some(
                (req.url@, req.inputs.deep_view()),
            ),
            None => predict_request_spec(model@, selected.deep_view()) is None,
        },
{
    let request = predict_request(model, selected);
    let busy = request.is_some();
    PredictClick { busy, request }
}

/// The panel is busy after a click on "Predict" only while a request is in
/// progress: exactly when a version is selected, which is when a request is
/// sent.
pub proof fn law_predict_busy_only_with_request(model: MlModelView, selected: Option<Seq<char>>)
    ensures
        predict_request_spec(model, selected) is Some <==> selected is Some,
{
}

/// The text in the prediction box: the last prediction, else "—".
pub fn prediction_text(prediction: &Option<String>) -> (t: String)
    ensures
        t@ == match prediction {
            Some(p) => p@,
            None => "—"@,
        },
{
    match prediction {
        Some(p) => p.clone(),
        None => owned("—"),
    }
}

/// The prediction button's label.
pub fn predict_label(busy: bool) -> (t: &'static str)
    ensures
        t@ == if busy { "Predicting…"@ } else { "Predict"@ },
{
    if busy { "Predicting…" } else { "Predict" }
}

/// The "Train Further" button's label.
pub fn train_further_label(busy: bool) -> (t: &'static str)
    ensures
        t@ == if busy { "Training…"@ } else { "Train Further"@ },
{
    if busy { "Training…" } else { "Train Further" }
}

/// The value of a button's `aria-busy` attribute.
pub fn aria_busy(busy: bool) -> (t: &'static str)
    ensures
        t@ == if busy { "true"@ } else { "false"@ },
{
    if busy { "true" } else { "false" }
}

/// Editing a parameter changes that parameter's value and nothing else of
/// the model: the names, their order and the other values stay.
pub proof fn law_edit_changes_one_value(model: MlModelView, name: Seq<char>, value: Seq<char>)
    ensures
        ({
            let r = with_parameter_value(model, name, value);
            &&& r.id == model.id && r.name == model.name && r.version == model.version
            &&& r.algorithm == model.algorithm && r.url == model.url
            &&& r.parameters.len() == model.parameters.len()
            &&& forall|i: int|
                0 <= i < model.parameters.len() ==> (#[trigger] r.parameters[i]).name
                    == model.parameters[i].name
            &&& forall|i: int|
                0 <= i < model.parameters.len() && first_index(model.parameters, param_name_is(name))
                    != Some(i) ==> (#[trigger] r.parameters[i]) == model.parameters[i]
        }),
{
    match first_index(model.parameters, param_name_is(name)) {
        Some(k) => {
            let k2 = choose|i: int| is_first(model.parameters, param_name_is(name), i);
            assert(is_first(model.parameters, param_name_is(name), k2));
        },
        None => {},
    }
}

/// After an edit, the edited input shows the typed value: the first
/// parameter with that name holds it.
pub proof fn law_edit_is_read_back(model: MlModelView, name: Seq<char>, value: Seq<char>, k: int)
    requires
        0 <= k < model.parameters.len(),
        model.parameters[k].name == name,
    ensures
        ({
            let r = with_parameter_value(model, name, value);
            first_index(r.parameters, param_name_is(name)) matches Some(i) && r.parameters[i].value
                == value && i <= k
        }),
{
    crate::search::lemma_first_exists(model.parameters, param_name_is(name), k);
    let i = first_index(model.parameters, param_name_is(name))->0;
    let r = with_parameter_value(model, name, value);
    assert(is_first(r.parameters, param_name_is(name), i)) by {
        assert forall|j: int| 0 <= j < i implies !param_name_is(name)(#[trigger] r.parameters[j]) by {
            assert(r.parameters[j] == model.parameters[j]);
        }
    }
    lemma_first_index_is(r.parameters, param_name_is(name), i);
}

} // verus!
