use ml_frontend::algorithm_selector::{defaults, find_algorithm, AlgorithmSelectorState};
use ml_frontend::model_details::{
    predict_click, PredictClick,
    aria_busy, is_logistic, is_new_version, latest_version, predict_label, predict_request,
    prediction_text, set_parameter_value, train_further_disabled, train_further_form,
    train_further_label, train_further_run,
};
use ml_frontend::models::{
    Algorithm, AlgorithmParameterDef, AlgorithmSelection, MlModel, Parameter, TrainingJob,
};
use ml_frontend::param_values::ParamValues;
use ml_frontend::train_form::{
    busy_after_submit, request_form, source_label, submit, train_label, training_run, Busy, FieldValue, FormField,
    Notice, Submission, TrainFormInput,
};
use ml_frontend::training::{TrainingKind, TrainingRun, TrainingStep, POLL_INTERVAL_MS};

fn def(name: &str, default: &str) -> AlgorithmParameterDef {
    AlgorithmParameterDef {
        name: name.to_string(),
        label: name.to_uppercase(),
        default_value: default.to_string(),
        param_type: "number".to_string(),
    }
}

fn algorithms() -> Vec<Algorithm> {
    vec![
        Algorithm {
            id: "LINEAR_REGRESSION".to_string(),
            name: "Linear regression".to_string(),
            parameters: vec![def("alpha", "0.1"), def("epochs", "10")],
        },
        Algorithm {
            id: "KNN".to_string(),
            name: "k nearest".to_string(),
            parameters: vec![def("k", "3"), def("k", "5")],
        },
    ]
}

fn text(name: &str, value: &str) -> FormField {
    FormField { name: name.to_string(), value: FieldValue::Text(value.to_string()) }
}

fn model(id: usize, name: &str, algorithm: Option<&str>) -> MlModel {
    MlModel {
        id,
        name: name.to_string(),
        description: String::new(),
        version: vec!["1".to_string(), "2".to_string()],
        parameters: vec![
            Parameter { name: "a".to_string(), value: "1".to_string() },
            Parameter { name: "b".to_string(), value: "x".to_string() },
            Parameter { name: "a".to_string(), value: "3".to_string() },
        ],
        url: String::new(),
        algorithm: algorithm.map(|s| s.to_string()),
    }
}

#[test]
fn param_values_map() {
    let mut v = ParamValues::new();
    assert_eq!(v.get("a"), None);
    v.insert("a".to_string(), "1".to_string());
    v.insert("b".to_string(), "2".to_string());
    v.insert("a".to_string(), "3".to_string());
    assert_eq!(v.get("a"), Some("3".to_string()));
    assert_eq!(v.get("b"), Some("2".to_string()));
    assert_eq!(
        v.to_pairs(),
        vec![("a".to_string(), "3".to_string()), ("b".to_string(), "2".to_string())]
    );
}

#[test]
fn algorithm_defaults() {
    let algs = algorithms();
    let d = defaults(&algs[0]);
    assert_eq!(d.get("alpha"), Some("0.1".to_string()));
    assert_eq!(d.get("epochs"), Some("10".to_string()));
    let k = defaults(&algs[1]);
    assert_eq!(k.to_pairs(), vec![("k".to_string(), "5".to_string())]);
    assert_eq!(find_algorithm(&algs, "KNN"), Some(1));
    assert_eq!(find_algorithm(&algs, "knn"), None);
}

#[test]
fn choosing_an_algorithm() {
    let algs = algorithms();
    let mut s = AlgorithmSelectorState::new();
    assert_eq!(s.selected_id, "");
    assert_eq!(s.selected_algorithm(&algs), None);
    let sel = s.select_algorithm(&algs, "LINEAR_REGRESSION".to_string()).unwrap();
    assert_eq!(sel.algorithm_id, "LINEAR_REGRESSION");
    assert_eq!(
        sel.params,
        vec![("alpha".to_string(), "0.1".to_string()), ("epochs".to_string(), "10".to_string())]
    );
    assert_eq!(s.selected_algorithm(&algs), Some(0));
    assert_eq!(s.current_value(&def("alpha", "ignored")), "0.1");
    assert_eq!(s.current_value(&def("other", "7")), "7");
}

#[test]
fn choosing_an_unknown_algorithm() {
    let algs = algorithms();
    let mut s = AlgorithmSelectorState::new();
    s.select_algorithm(&algs, "KNN".to_string());
    assert_eq!(s.select_algorithm(&algs, "missing".to_string()), None);
    assert_eq!(s.selected_id, "missing");
    assert_eq!(s.param_values.to_pairs(), vec![]);
}

#[test]
fn editing_a_parameter() {
    let algs = algorithms();
    let mut s = AlgorithmSelectorState::new();
    s.select_algorithm(&algs, "LINEAR_REGRESSION".to_string());
    let sel = s.set_param("epochs".to_string(), "50".to_string());
    assert_eq!(
        sel,
        AlgorithmSelection {
            algorithm_id: "LINEAR_REGRESSION".to_string(),
            params: vec![
                ("alpha".to_string(), "0.1".to_string()),
                ("epochs".to_string(), "50".to_string())
            ],
        }
    );
    assert_eq!(s.current_value(&def("epochs", "10")), "50");
    assert_eq!(s.current_value(&def("alpha", "x")), "0.1");
}

fn input() -> TrainFormInput {
    TrainFormInput {
        name: "iris".to_string(),
        use_file: false,
        target_column: String::new(),
        file_chosen: false,
        file_name: "iris.csv".to_string(),
        algorithm: None,
    }
}

#[test]
fn blank_name_is_refused() {
    let mut i = input();
    i.name = "   ".to_string();
    assert_eq!(
        submit(&i),
        Submission::Refused {
            message: "Please enter a name for the model.".to_string(),
            notice: Notice::Banner,
            busy: Busy::Unchanged,
        }
    );
}

#[test]
fn upload_needs_target_column() {
    let mut i = input();
    i.use_file = true;
    assert_eq!(
        submit(&i),
        Submission::Refused {
            message: "Please enter the target column name.".to_string(),
            notice: Notice::Alert,
            busy: Busy::Cleared,
        }
    );
}

#[test]
fn stored_file_must_be_chosen() {
    let mut i = input();
    i.file_name = String::new();
    assert_eq!(
        submit(&i),
        Submission::Refused {
            message: "Please select a training data source.".to_string(),
            notice: Notice::Alert,
            busy: Busy::Cleared,
        }
    );
}

#[test]
fn stored_file_request() {
    assert_eq!(
        submit(&input()),
        Submission::Sent {
            fields: vec![text("file_name", "iris.csv"), text("model", "iris"), text("version", "1")]
        }
    );
}

#[test]
fn upload_request_with_algorithm() {
    let mut i = input();
    i.name = " iris ".to_string();
    i.use_file = true;
    i.target_column = "species".to_string();
    i.file_chosen = true;
    i.algorithm = Some(AlgorithmSelection {
        algorithm_id: "KNN".to_string(),
        params: vec![("k".to_string(), "4".to_string()), ("p".to_string(), "2".to_string())],
    });
    let expected = vec![
        text("target_column", "species"),
        FormField { name: "file".to_string(), value: FieldValue::ChosenFile },
        text("model", " iris "),
        text("version", "1"),
        text("algorithm", "KNN"),
        text("k", "4"),
        text("p", "2"),
    ];
    assert_eq!(request_form(&i), expected);
    assert_eq!(submit(&i), Submission::Sent { fields: expected });
    let run = training_run(&i);
    assert_eq!(run.model_name, " iris ");
    assert_eq!(run.kind, TrainingKind::New);
}

#[test]
fn upload_without_file_still_sends() {
    let mut i = input();
    i.use_file = true;
    i.target_column = "y".to_string();
    assert_eq!(
        submit(&i),
        Submission::Sent {
            fields: vec![text("target_column", "y"), text("model", "iris"), text("version", "1")]
        }
    );
}

#[test]
fn form_labels() {
    assert_eq!(train_label(true), "Training…");
    assert_eq!(train_label(false), "Train Model");
    assert_eq!(source_label(true), "Upload Training Data (.csv)");
    assert_eq!(source_label(false), "Existing Training Data");
}

fn run(kind: TrainingKind) -> TrainingRun {
    TrainingRun { model_name: "iris".to_string(), kind }
}

fn job(status: &str, error: Option<&str>) -> TrainingJob {
    TrainingJob { status: status.to_string(), error: error.map(|e| e.to_string()) }
}

#[test]
fn training_run_after_submit() {
    let r = run(TrainingKind::New);
    assert_eq!(POLL_INTERVAL_MS, 2000);
    assert_eq!(r.on_submitted(Ok("j1".to_string())), TrainingStep::PollAfterDelay("j1".to_string()));
    assert_eq!(r.on_submitted(Err("refused".to_string())), TrainingStep::Fail("refused".to_string()));
}

#[test]
fn training_run_after_poll() {
    let r = run(TrainingKind::New);
    let id = || "j1".to_string();
    assert_eq!(r.on_polled(id(), Ok(job("complete", None))), TrainingStep::FetchModels);
    assert_eq!(r.on_polled(id(), Ok(job("failed", Some("bad data")))), TrainingStep::Fail("bad data".to_string()));
    assert_eq!(r.on_polled(id(), Ok(job("failed", None))), TrainingStep::Fail("Training failed".to_string()));
    assert_eq!(r.on_polled(id(), Ok(job("running", None))), TrainingStep::PollAfterDelay("j1".to_string()));
    assert_eq!(r.on_polled(id(), Ok(job("pending", Some("x")))), TrainingStep::PollAfterDelay("j1".to_string()));
    assert_eq!(r.on_polled(id(), Err("gone".to_string())), TrainingStep::Fail("gone".to_string()));
}

#[test]
fn training_run_after_fetch() {
    let ms = vec![model(1, "other", None), model(2, "iris", None), model(3, "iris", None)];
    assert_eq!(
        run(TrainingKind::New).on_models(Ok(ms.clone())),
        TrainingStep::Finish {
            models: ms.clone(),
            trained: Some(model(2, "iris", None)),
            success: Some("Model \"iris\" trained successfully.".to_string()),
        }
    );
    assert_eq!(
        run(TrainingKind::Further).on_models(Ok(ms.clone())),
        TrainingStep::Finish {
            models: ms.clone(),
            trained: Some(model(2, "iris", None)),
            success: Some("\"iris\" trained further successfully.".to_string()),
        }
    );
    let none = vec![model(1, "other", None)];
    assert_eq!(
        run(TrainingKind::New).on_models(Ok(none.clone())),
        TrainingStep::Finish { models: none, trained: None, success: None }
    );
    assert_eq!(run(TrainingKind::New).on_models(Err("down".to_string())), TrainingStep::Fail("down".to_string()));
}

#[test]
fn versions() {
    let m = model(1, "iris", None);
    assert_eq!(latest_version(&m), Some("2".to_string()));
    let mut empty = m.clone();
    empty.version.clear();
    assert_eq!(latest_version(&empty), None);
    assert!(is_new_version(&Some("new_version".to_string())));
    assert!(!is_new_version(&Some("2".to_string())));
    assert!(!is_new_version(&None));
}

#[test]
fn editing_model_parameters() {
    let m = model(1, "iris", None);
    let e = set_parameter_value(&m, "a", "9".to_string());
    let mut expected = m.clone();
    expected.parameters[0].value = "9".to_string();
    assert_eq!(e, expected);
    assert_eq!(set_parameter_value(&m, "zzz", "9".to_string()), m);
}

#[test]
fn logistic_models_cannot_train_further() {
    assert!(is_logistic(&model(1, "m", Some("LOGISTIC_REGRESSION"))));
    assert!(is_logistic(&model(1, "m", Some("logistic_regression"))));
    assert!(!is_logistic(&model(1, "m", Some("LINEAR_REGRESSION"))));
    assert!(!is_logistic(&model(1, "m", None)));
    assert!(train_further_disabled(&model(1, "m", Some("Logistic_Regression")), false));
    assert!(train_further_disabled(&model(1, "m", None), true));
    assert!(!train_further_disabled(&model(1, "m", None), false));
}

#[test]
fn train_further_request() {
    let m = model(1, "iris", None);
    assert_eq!(train_further_form(&m), vec![text("model", "iris")]);
    let r = train_further_run(&m);
    assert_eq!(r.model_name, "iris");
    assert_eq!(r.kind, TrainingKind::Further);
}

#[test]
fn prediction_requests() {
    let m = model(1, "iris", None);
    assert_eq!(predict_request(&m, &None), None);
    let req = predict_request(&m, &Some("2".to_string())).unwrap();
    assert_eq!(req.url, "/api/predict?model=iris&version=2");
    assert_eq!(req.inputs, vec!["1".to_string(), "x".to_string(), "3".to_string()]);
    let req = predict_request(&m, &Some(String::new())).unwrap();
    assert_eq!(req.url, "/api/predict?model=iris");
}

#[test]
fn detail_texts() {
    assert_eq!(prediction_text(&None), "—");
    assert_eq!(prediction_text(&Some("[1.0]".to_string())), "[1.0]");
    assert_eq!(predict_label(true), "Predicting…");
    assert_eq!(predict_label(false), "Predict");
    assert_eq!(train_further_label(true), "Training…");
    assert_eq!(train_further_label(false), "Train Further");
    assert_eq!(aria_busy(true), "true");
    assert_eq!(aria_busy(false), "false");
}

#[test]
fn busy_flag_after_submission() {
    let sent = submit(&input());
    assert!(busy_after_submit(false, &sent));
    let mut no_file = input();
    no_file.file_name = String::new();
    let refused = submit(&no_file);
    assert!(!busy_after_submit(false, &refused));
    assert!(!busy_after_submit(true, &refused));
    let mut blank = input();
    blank.name = " ".to_string();
    let refused = submit(&blank);
    assert!(!busy_after_submit(false, &refused));
    assert!(busy_after_submit(true, &refused));
}

#[test]
fn predict_click_is_busy_only_with_a_request() {
    let m = model(1, "iris", None);
    assert_eq!(predict_click(&m, &None), PredictClick { busy: false, request: None });
    let c = predict_click(&m, &Some("1".to_string()));
    assert!(c.busy);
    assert_eq!(c.request, predict_request(&m, &Some("1".to_string())));
    assert_eq!(c.request.unwrap().url, "/api/predict?model=iris&version=1");
}
