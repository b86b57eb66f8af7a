use oxidegate::backend::{completions_url, is_success};

#[test]
fn completions_url_appends_endpoint() {
    assert_eq!(
        completions_url("http://127.0.0.1:11434/v1"),
        "http://127.0.0.1:11434/v1/chat/completions"
    );
    assert_eq!(completions_url(""), "/chat/completions");
}

#[test]
fn only_2xx_is_success() {
    assert!(is_success(200));
    assert!(is_success(204));
    assert!(is_success(299));
    assert!(!is_success(199));
    assert!(!is_success(300));
    assert!(!is_success(404));
    assert!(!is_success(500));
}

#[test]
fn outcome_labels() {
    assert_eq!(oxidegate::report::outcome_label(true), "ok");
    assert_eq!(oxidegate::report::outcome_label(false), "error");
}
