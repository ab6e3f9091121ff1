use myrepl::dispatch::{decide, dispatch, Reply};
use myrepl::types::{Command, DriverMethod, LogType};

fn enqueued(r: Reply) -> Vec<DriverMethod> {
    match r {
        Reply::Enqueue(items) => items,
        other => panic!("expected work, got {:?}", other),
    }
}

#[test]
fn blank_lines_do_nothing() {
    let mut bar = "kept".to_string();
    assert!(matches!(dispatch("", &mut bar), Reply::Idle));
    assert!(matches!(dispatch("    ", &mut bar), Reply::Idle));
    assert_eq!(bar, "kept");
}

#[test]
fn urlbar_arity() {
    let mut bar = String::new();
    assert!(matches!(
        dispatch("urlbar a b", &mut bar),
        Reply::Usage(Command::Urlbar)
    ));
    assert_eq!(bar, "");
    assert!(matches!(
        dispatch("urlbar https://x", &mut bar),
        Reply::UrlbarSet
    ));
    assert_eq!(bar, "https://x");
    match dispatch("urlbar", &mut bar) {
        Reply::ShowUrlbar(shown) => assert_eq!(shown, "https://x"),
        other => panic!("{:?}", other),
    }
    assert!(matches!(
        dispatch("URLBAR   one   two", &mut bar),
        Reply::Usage(Command::Urlbar)
    ));
    assert_eq!(bar, "https://x");
}

#[test]
fn page_refresh_orders_navigation_first() {
    let mut bar = "example.com".to_string();
    assert_eq!(
        enqueued(dispatch("page refresh", &mut bar)),
        vec![DriverMethod::Goto, DriverMethod::Page]
    );
    assert_eq!(enqueued(dispatch("page", &mut bar)), vec![DriverMethod::Page]);
    match dispatch("page reload", &mut bar) {
        Reply::UnknownSubcommand(sub) => assert_eq!(sub, "reload"),
        other => panic!("{:?}", other),
    }
    assert!(matches!(
        dispatch("page refresh now", &mut bar),
        Reply::Usage(Command::Page)
    ));
    assert_eq!(bar, "example.com");
}

#[test]
fn goto_sets_register_and_enqueues() {
    let mut bar = String::new();
    assert_eq!(
        enqueued(dispatch("goto example.com", &mut bar)),
        vec![DriverMethod::Goto]
    );
    assert_eq!(bar, "example.com");
    assert!(matches!(dispatch("goto", &mut bar), Reply::Usage(Command::Goto)));
    assert!(matches!(
        dispatch("goto a b", &mut bar),
        Reply::Usage(Command::Goto)
    ));
    assert_eq!(bar, "example.com");
}

#[test]
fn log_commands() {
    let mut bar = String::new();
    assert_eq!(
        enqueued(dispatch("cl", &mut bar)),
        vec![DriverMethod::GetLog(LogType::Browser)]
    );
    assert_eq!(
        enqueued(dispatch("console-log", &mut bar)),
        vec![DriverMethod::GetLog(LogType::Browser)]
    );
    assert!(matches!(
        dispatch("cl now", &mut bar),
        Reply::Usage(Command::ConsoleLog)
    ));
    assert_eq!(enqueued(dispatch("lt", &mut bar)), vec![DriverMethod::LogTypes]);
    assert!(matches!(
        dispatch("log-types x", &mut bar),
        Reply::Usage(Command::LogTypes)
    ));
    assert!(matches!(
        dispatch("log", &mut bar),
        Reply::Unimplemented(Command::Log)
    ));
    assert_eq!(bar, "");
}

#[test]
fn unknown_command_lists_the_others() {
    let mut bar = String::new();
    match dispatch("xyz", &mut bar) {
        Reply::Commands(names) => assert_eq!(
            names,
            vec!["goto", "urlbar", "page", "log-types", "log", "console-log"]
        ),
        other => panic!("{:?}", other),
    }
    assert!(matches!(
        dispatch("xyz extra", &mut bar),
        Reply::Usage(Command::Unrecognized)
    ));
}

#[test]
fn decide_after_classification() {
    let mut bar = "example.com".to_string();
    assert_eq!(
        enqueued(decide(Command::Page, &vec!["refresh".to_string()], &mut bar)),
        vec![DriverMethod::Goto, DriverMethod::Page]
    );
    assert!(matches!(
        decide(
            Command::Urlbar,
            &vec!["a".to_string(), "b".to_string()],
            &mut bar
        ),
        Reply::Usage(Command::Urlbar)
    ));
    assert_eq!(bar, "example.com");
    assert!(matches!(
        decide(Command::Urlbar, &vec!["https://x".to_string()], &mut bar),
        Reply::UrlbarSet
    ));
    assert_eq!(bar, "https://x");
}

#[test]
fn mixed_case_command_words() {
    let mut bar = String::new();
    assert_eq!(
        enqueued(dispatch("PAGE refresh", &mut bar)),
        vec![DriverMethod::Goto, DriverMethod::Page]
    );
    assert!(matches!(
        dispatch("Page REFRESH", &mut bar),
        Reply::UnknownSubcommand(_)
    ));
}
