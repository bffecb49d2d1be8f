use ralph_wiggum_supervisor::llm::{
    first_choice, models_url, trim_end_matches, LlmError, MAX_TOKENS, REQUEST_TIMEOUT_SECS,
};

#[test]
fn request_limits() {
    assert_eq!(REQUEST_TIMEOUT_SECS, 300);
    assert_eq!(MAX_TOKENS, 4096);
}

#[test]
fn first_choice_is_taken() {
    let choices = vec!["SUCCESS: runs".to_string(), "FAILURE: no".to_string()];
    assert_eq!(first_choice(&choices).unwrap(), "SUCCESS: runs");
    assert_eq!(first_choice(&vec![String::new()]).unwrap(), "");
}

#[test]
fn no_choice_is_an_error() {
    let e = first_choice(&Vec::new()).unwrap_err();
    assert!(matches!(e, LlmError::NoChoices));
    assert_eq!(e.message(), "No choices in LLM response");
}

#[test]
fn failed_request_message() {
    let e = LlmError::RequestFailed("500 Internal Server Error".to_string(), "boom".to_string());
    assert_eq!(e.message(), "LLM request failed: 500 Internal Server Error - boom");
}

#[test]
fn trimming_agrees_with_std() {
    let cases = [
        ("http://localhost:1234/v1/chat/completions", "/v1/chat/completions"),
        ("abcabc", "abc"),
        ("xabcabc", "abc"),
        ("abcab", "abc"),
        ("", "abc"),
        ("abc", ""),
        ("aaaa", "a"),
        ("aaa", "aa"),
        ("héllo-é-é", "-é"),
        ("ab", "abc"),
    ];
    for (s, p) in cases {
        assert_eq!(trim_end_matches(s, p), s.trim_end_matches(p), "{:?} {:?}", s, p);
    }
    assert_eq!(trim_end_matches("xabcabc", "abc"), "x");
    assert_eq!(trim_end_matches("aaa", "aa"), "a");
}

#[test]
fn models_url_is_derived_from_the_base() {
    assert_eq!(models_url("http://localhost:1234/v1/chat/completions"), "http://localhost:1234/models");
    assert_eq!(models_url("http://host/api"), "http://host/api/models");
    assert_eq!(
        models_url("http://h/v1/chat/completions/v1/chat/completions"),
        "http://h/models"
    );
}
