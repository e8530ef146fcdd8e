use ml_frontend::api::{
    check_reply, endpoint_url, failure_message, models_url, predict_url, request_error,
    train_url, training_files_url, training_request_error, training_status_url, API_BASE_URL,
};
use ml_frontend::text::{eq_ignore_ascii_case, is_blank, owned, str_eq, to_decimal, write_decimal};

#[test]
fn decimal_renderings() {
    assert_eq!(to_decimal(0), "0");
    assert_eq!(to_decimal(7), "7");
    assert_eq!(to_decimal(42), "42");
    assert_eq!(to_decimal(1000), "1000");
    assert_eq!(to_decimal(usize::MAX), usize::MAX.to_string());
    let mut s = String::from("id=");
    write_decimal(305, &mut s);
    assert_eq!(s, "id=305");
}

#[test]
fn string_equality() {
    assert!(str_eq("model", "model"));
    assert!(!str_eq("model", "models"));
    assert!(!str_eq("a", "b"));
    assert!(str_eq("", ""));
    assert!(str_eq("✕", "✕"));
}

#[test]
fn blank_names() {
    assert!(is_blank(""));
    assert!(is_blank("   "));
    assert!(is_blank(" \t\n\r"));
    assert!(is_blank("\u{3000}\u{00A0}"));
    assert!(!is_blank("  a  "));
    assert!(!is_blank("_"));
    for s in ["", " x", "\u{2028}", "\u{200B}", "\u{85}", "y "] {
        assert_eq!(is_blank(s), s.trim().is_empty(), "{:?}", s);
    }
}

#[test]
fn ascii_case_insensitive_equality() {
    assert!(eq_ignore_ascii_case("logistic_regression", "LOGISTIC_REGRESSION"));
    assert!(eq_ignore_ascii_case("Logistic_Regression", "LOGISTIC_REGRESSION"));
    assert!(!eq_ignore_ascii_case("LINEAR_REGRESSION", "LOGISTIC_REGRESSION"));
    assert!(!eq_ignore_ascii_case("é", "É"));
    assert!(eq_ignore_ascii_case("é", "é"));
    assert!(!eq_ignore_ascii_case("ab", "abc"));
    for (a, b) in [("aBc", "AbC"), ("x1", "X2"), ("[", "{"), ("Z", "z")] {
        assert_eq!(eq_ignore_ascii_case(a, b), a.eq_ignore_ascii_case(b));
    }
}

#[test]
fn owned_copies_text() {
    assert_eq!(owned("abc"), "abc".to_string());
}

#[test]
fn endpoint_urls() {
    assert_eq!(API_BASE_URL, "/api");
    assert_eq!(endpoint_url("x"), "/api/x");
    assert_eq!(models_url(), "/api/models");
    assert_eq!(train_url(), "/api/train");
    assert_eq!(training_files_url(), "/api/training-files");
    assert_eq!(training_status_url("job-7"), "/api/train/job-7");
}

#[test]
fn prediction_urls() {
    assert_eq!(predict_url("iris", ""), "/api/predict?model=iris");
    assert_eq!(predict_url("iris", "v2"), "/api/predict?model=iris&version=v2");
    assert_eq!(predict_url("", "1"), "/api/predict?model=&version=1");
}

#[test]
fn failure_messages() {
    assert_eq!(
        failure_message(None, "Request failed with status ", 404),
        "Request failed with status 404"
    );
    assert_eq!(failure_message(Some("nope".to_string()), "x ", 500), "nope");
}

#[test]
fn request_errors_prefer_the_backend_explanation() {
    assert_eq!(request_error(400, r#"{"error": "bad input"}"#), "bad input");
    assert_eq!(request_error(404, "not json"), "Request failed with status 404");
    assert_eq!(request_error(500, r#"{"error": 5}"#), "Request failed with status 500");
    assert_eq!(request_error(500, r#"{"message": "x"}"#), "Request failed with status 500");
    assert_eq!(request_error(503, r#"["error"]"#), "Request failed with status 503");
    assert_eq!(request_error(502, ""), "Request failed with status 502");
}

#[test]
fn training_errors_prefer_the_backend_explanation() {
    assert_eq!(
        training_request_error(422, r#"{"error":"unknown column"}"#),
        "unknown column"
    );
    assert_eq!(training_request_error(500, "oops"), "Training failed with status 500");
}

#[test]
fn replies_by_status() {
    assert_eq!(check_reply(200, ""), Ok(()));
    assert_eq!(check_reply(204, "whatever"), Ok(()));
    assert_eq!(check_reply(299, ""), Ok(()));
    assert_eq!(check_reply(300, ""), Err("Request failed with status 300".to_string()));
    assert_eq!(check_reply(199, ""), Err("Request failed with status 199".to_string()));
    assert_eq!(check_reply(404, r#"{"error":"no such model"}"#), Err("no such model".to_string()));
}
