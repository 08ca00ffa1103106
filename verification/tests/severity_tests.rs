use amqp_examples::severity::{
    consumer_args_ok, consumer_usage, is_supported, log_message, publisher_usage,
    supported_severities,
};

#[test]
fn severities_listed() {
    assert_eq!(supported_severities(), vec!["info", "warning", "error"]);
}

#[test]
fn is_supported_cases() {
    assert!(is_supported("info"));
    assert!(is_supported("warning"));
    assert!(is_supported("error"));
    assert!(!is_supported("debug"));
    assert!(!is_supported("Info"));
    assert!(!is_supported(""));
}

#[test]
fn consumer_args_checks() {
    let args = |v: &[&str]| v.iter().map(|s| s.to_string()).collect::<Vec<String>>();
    assert!(!consumer_args_ok(&args(&["consumer"])));
    assert!(consumer_args_ok(&args(&["consumer", "info"])));
    assert!(consumer_args_ok(&args(&["consumer", "error", "warning"])));
    assert!(!consumer_args_ok(&args(&["consumer", "info", "fatal"])));
}

#[test]
fn usage_lines() {
    assert_eq!(consumer_usage("consumer"), "consumer info  warning  error ");
    assert_eq!(publisher_usage("publisher"), "publisher info | warning | error");
}

#[test]
fn log_message_text() {
    assert_eq!(log_message("info"), "[info] Example msg...");
    assert_eq!(log_message(""), "[] Example msg...");
}
