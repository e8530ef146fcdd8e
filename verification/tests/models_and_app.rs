use ml_frontend::app_state::{AppEvent, AppState};
use ml_frontend::banner::{banner_colors, banner_content, banner_style};
use ml_frontend::model_list::{model_choice, option_value, position_of_id, save_model};
use ml_frontend::models::{
    clone_models, clone_opt_string, clone_parameters, clone_strings, BannerVariant, MlModel,
    ModelSelection, Parameter,
};

fn param(name: &str, value: &str) -> Parameter {
    Parameter { name: name.to_string(), value: value.to_string() }
}

fn model(id: usize, name: &str) -> MlModel {
    MlModel {
        id,
        name: name.to_string(),
        description: format!("{} model", name),
        version: vec!["1".to_string(), "2".to_string()],
        parameters: vec![param("sepal", "1.0"), param("petal", "2.0")],
        url: format!("/models/{}", id),
        algorithm: None,
    }
}

#[test]
fn clones_keep_everything() {
    let m = model(3, "iris");
    assert_eq!(m.clone(), m);
    assert_eq!(clone_models(&vec![model(1, "a"), model(2, "b")]), vec![model(1, "a"), model(2, "b")]);
    assert_eq!(clone_parameters(&m.parameters), m.parameters);
    assert_eq!(clone_strings(&m.version), m.version);
    assert_eq!(clone_opt_string(&Some("x".to_string())), Some("x".to_string()));
    assert_eq!(clone_opt_string(&None), None);
    assert_eq!(ModelSelection::Model(m.clone()).clone(), ModelSelection::Model(m));
    assert_eq!(param("a", "b").clone(), param("a", "b"));
    assert_eq!(BannerVariant::default(), BannerVariant::Error);
}

#[test]
fn positions_by_id() {
    let ms = vec![model(4, "a"), model(9, "b"), model(9, "c")];
    assert_eq!(position_of_id(&ms, 4), Some(0));
    assert_eq!(position_of_id(&ms, 9), Some(1));
    assert_eq!(position_of_id(&ms, 5), None);
    assert_eq!(position_of_id(&vec![], 5), None);
}

#[test]
fn saving_replaces_first_with_id() {
    let mut ms = vec![model(4, "a"), model(9, "b"), model(9, "c")];
    let mut edited = model(9, "b");
    edited.parameters[0].value = "3.5".to_string();
    save_model(&mut ms, edited.clone());
    assert_eq!(ms, vec![model(4, "a"), edited, model(9, "c")]);
}

#[test]
fn saving_unknown_model_changes_nothing() {
    let mut ms = vec![model(4, "a")];
    save_model(&mut ms, model(5, "z"));
    assert_eq!(ms, vec![model(4, "a")]);
}

#[test]
fn option_values_are_ids() {
    assert_eq!(option_value(&model(0, "a")), "0");
    assert_eq!(option_value(&model(123, "a")), "123");
}

#[test]
fn choosing_options() {
    let ms = vec![model(4, "a"), model(12, "b"), model(12, "c")];
    assert_eq!(model_choice(&ms, "new"), Some(ModelSelection::TrainNew));
    assert_eq!(model_choice(&ms, "12"), Some(ModelSelection::Model(model(12, "b"))));
    assert_eq!(model_choice(&ms, "4"), Some(ModelSelection::Model(model(4, "a"))));
    assert_eq!(model_choice(&ms, "012"), None);
    assert_eq!(model_choice(&ms, "5"), None);
    assert_eq!(model_choice(&ms, "-- Select a model --"), None);
    assert_eq!(model_choice(&vec![], "new"), Some(ModelSelection::TrainNew));
}

#[test]
fn option_of_a_model_selects_it() {
    let ms = vec![model(4, "a"), model(12, "b")];
    for m in &ms {
        assert_eq!(model_choice(&ms, &option_value(m)), Some(ModelSelection::Model(m.clone())));
    }
}

#[test]
fn app_starts_empty() {
    let s = AppState::new();
    assert!(s.ml_models.is_empty());
    assert_eq!(s.selected_model, None);
    assert_eq!(s.banner, None);
    assert_eq!(s.banner_props(), (None, BannerVariant::Error));
}

#[test]
fn app_banner_events() {
    let mut s = AppState::new();
    s.apply(AppEvent::Error("boom".to_string()));
    assert_eq!(s.banner_props(), (Some("boom".to_string()), BannerVariant::Error));
    s.apply(AppEvent::Success("done".to_string()));
    assert_eq!(s.banner_props(), (Some("done".to_string()), BannerVariant::Success));
    s.apply(AppEvent::DismissBanner);
    assert_eq!(s.banner_props(), (None, BannerVariant::Error));
    s.apply(AppEvent::ModelsLoaded(Err("offline".to_string())));
    assert_eq!(s.banner, Some(("offline".to_string(), BannerVariant::Error)));
    s.apply(AppEvent::ModelsChanged(vec![model(1, "a")]));
    assert_eq!(s.banner, Some(("offline".to_string(), BannerVariant::Error)));
}

#[test]
fn app_model_events() {
    let mut s = AppState::new();
    s.apply(AppEvent::ModelsLoaded(Ok(vec![model(1, "a"), model(2, "b")])));
    assert_eq!(s.ml_models, vec![model(1, "a"), model(2, "b")]);
    s.apply(AppEvent::ModelSelected(ModelSelection::TrainNew));
    assert_eq!(s.selected_model, Some(ModelSelection::TrainNew));
    s.apply(AppEvent::ModelTrained(model(3, "c")));
    assert_eq!(s.selected_model, Some(ModelSelection::Model(model(3, "c"))));
    s.apply(AppEvent::ModelsChanged(vec![model(3, "c")]));
    assert_eq!(s.ml_models, vec![model(3, "c")]);
    assert_eq!(s.banner, None);
}

#[test]
fn app_save_keeps_ids_and_is_idempotent() {
    let mut s = AppState::new();
    s.apply(AppEvent::ModelsLoaded(Ok(vec![model(1, "a"), model(2, "b")])));
    let mut edited = model(2, "b");
    edited.parameters[1].value = "9".to_string();
    s.apply(AppEvent::ModelSaved(edited.clone()));
    assert_eq!(s.ml_models, vec![model(1, "a"), edited.clone()]);
    assert_eq!(s.selected_model, Some(ModelSelection::Model(edited.clone())));
    s.apply(AppEvent::ModelSaved(edited.clone()));
    assert_eq!(s.ml_models, vec![model(1, "a"), edited.clone()]);
    let ids: Vec<usize> = s.ml_models.iter().map(|m| m.id).collect();
    assert_eq!(ids, vec![1, 2]);
    s.apply(AppEvent::ModelSaved(model(7, "x")));
    assert_eq!(s.ml_models, vec![model(1, "a"), edited]);
    assert_eq!(s.selected_model, Some(ModelSelection::Model(model(7, "x"))));
}

#[test]
fn banner_colours() {
    assert_eq!(
        banner_colors(BannerVariant::Error),
        ("rgba(220, 38, 38, 0.25)", "rgba(220, 38, 38, 0.4)", "0 4px 20px rgba(220, 38, 38, 0.3)")
    );
    assert_eq!(
        banner_colors(BannerVariant::Success),
        ("rgba(22, 163, 74, 0.25)", "rgba(22, 163, 74, 0.4)", "0 4px 20px rgba(22, 163, 74, 0.3)")
    );
}

#[test]
fn banner_style_text() {
    let (bg, border, shadow) = ("rgba(22, 163, 74, 0.25)", "rgba(22, 163, 74, 0.4)", "0 4px 20px rgba(22, 163, 74, 0.3)");
    let expected = format!("
            position: fixed;
            top: 1rem;
            left: 50%;
            transform: translateX(-50%);
            z-index: 1000;
            display: flex;
            align-items: center;
            gap: 1rem;
            padding: 0.75rem 1.25rem;
            border-radius: 0.5rem;
            border: 1px solid {border};
            background: {bg};
            backdrop-filter: blur(12px);
            -webkit-backdrop-filter: blur(12px);
            color: #fff;
            font-weight: 500;
            box-shadow: {shadow};
            max-width: 90vw;
        ");
    assert_eq!(banner_style(BannerVariant::Success), expected);
    assert!(banner_style(BannerVariant::Error).contains("border: 1px solid rgba(220, 38, 38, 0.4);"));
}

#[test]
fn banner_shows_only_with_message() {
    assert_eq!(banner_content(&None, BannerVariant::Success), None);
    let c = banner_content(&Some("saved".to_string()), BannerVariant::Error).unwrap();
    assert_eq!(c.message, "saved");
    assert_eq!(c.style, banner_style(BannerVariant::Error));
}
