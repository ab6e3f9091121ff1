use myrepl::cli::{Args, DEFAULT_PORT};
use myrepl::json::Json;
use myrepl::types::{DriverMethod, LogType};
use myrepl::worker::{log_heading, navigate_target, plan, reads_dump, Task};

#[test]
fn scheme_normalization() {
    assert_eq!(navigate_target("example.com"), "http://example.com");
    assert_eq!(navigate_target("https://example.com"), "https://example.com");
    assert_eq!(navigate_target("http://example.com"), "http://example.com");
    assert_eq!(navigate_target(""), "http://");
    assert_eq!(navigate_target("http:/x"), "http://http:/x");
}

#[test]
fn plan_per_item() {
    match plan(DriverMethod::Goto, "example.com") {
        Task::Load(address) => assert_eq!(address, "http://example.com"),
        other => panic!("{:?}", other),
    }
    assert!(matches!(plan(DriverMethod::Page, ""), Task::EchoPage));
    assert!(matches!(plan(DriverMethod::LogTypes, ""), Task::ListLogTypes));
    assert!(matches!(
        plan(DriverMethod::GetLog(LogType::Browser), ""),
        Task::FetchLog(LogType::Browser)
    ));
}

#[test]
fn empty_log_falls_back_to_dump() {
    assert!(reads_dump(&Json::Array(vec![])));
    assert!(!reads_dump(&Json::Array(vec![Json::Null])));
    assert!(!reads_dump(&Json::Null));
}

#[test]
fn heading_names_speaker_or_store() {
    assert_eq!(log_heading("", "log.txt"), "\"log.txt\" reads:");
    assert_eq!(log_heading("http://x", "log.txt"), "http://x says:");
}

#[test]
fn channel_names() {
    assert_eq!(LogType::Browser.as_str(), "browser");
    assert_eq!(LogType::Performance.as_str(), "performance");
}

#[test]
fn server_url_from_port() {
    assert_eq!(Args::default().port, DEFAULT_PORT);
    assert_eq!(Args::default().server_url(), "http://localhost:4444");
    assert_eq!(Args { port: 0 }.server_url(), "http://localhost:0");
    assert_eq!(Args { port: 65535 }.server_url(), "http://localhost:65535");
    assert_eq!(Args { port: 9 }.server_url(), "http://localhost:9");
    assert_eq!(Args { port: 10 }.server_url(), "http://localhost:10");
}
