use myrepl::json::{decode_entry, Json, JsonNumber};
use myrepl::types::{behead, command_names, Command, LogJSON, ToCommand};

fn entry(message: &str, timestamp: Json) -> Json {
    Json::Object(vec![
        ("level".to_string(), Json::Str("SEVERE".to_string())),
        ("message".to_string(), Json::Str(message.to_string())),
        ("source".to_string(), Json::Str("console-api".to_string())),
        ("timestamp".to_string(), timestamp),
    ])
}

#[test]
fn test_behead() {
    println!(
        "{:?}",
        behead("http://tarrasque.dmp.loc/ 75:20 \"aha\"".to_string())
    );
    assert_eq!(
        behead("http://tarrasque.dmp.loc/ 75:20 \"aha\"".to_string()),
        "[75:20] aha"
    );
}

#[test]
fn test_log_json_iter() {
    for message in LogJSON::default().into_iter() {
        println!("{:?}", message);
    }
    assert!(LogJSON::default().into_iter().is_empty());
}

#[test]
fn behead_edge_cases() {
    assert_eq!(behead(String::new()), "");
    assert_eq!(behead("only-url".to_string()), "");
    assert_eq!(behead("  url   a  \"b\"  c ".to_string()), "[a] b c");
    assert_eq!(behead("url \"\"\"x\"\" y\"".to_string()), "[x] y");
}

#[test]
fn classifier_examples() {
    assert_eq!("GOTO".to_command(), Command::Goto);
    assert_eq!("lt".to_command(), Command::LogTypes);
    assert_eq!("log-types".to_command(), Command::LogTypes);
    assert_eq!("xyz".to_command(), Command::Unrecognized);
    assert_eq!("Urlbar".to_command(), Command::Urlbar);
    assert_eq!("page".to_command(), Command::Page);
    assert_eq!("log".to_command(), Command::Log);
    assert_eq!("Console-Log".to_command(), Command::ConsoleLog);
    assert_eq!("CL".to_command(), Command::ConsoleLog);
}

#[test]
fn classifier_is_total() {
    assert_eq!("".to_command(), Command::Unrecognized);
    assert_eq!("   ".to_command(), Command::Unrecognized);
    assert_eq!("\t".to_command(), Command::Unrecognized);
    assert_eq!("  goto\t".to_command(), Command::Goto);
    assert_eq!("unrecognized".to_command(), Command::Unrecognized);
    assert_eq!("göto".to_command(), Command::Unrecognized);
}

#[test]
fn command_listing_names_each_once() {
    let names = command_names();
    assert_eq!(
        names,
        vec!["goto", "urlbar", "page", "log-types", "log", "console-log"]
    );
    for name in &names {
        assert_eq!(names.iter().filter(|n| *n == name).count(), 1);
    }
}

#[test]
fn formatting_non_array_is_empty_and_restartable() {
    let log = LogJSON(Json::Null);
    assert!(log.messages().is_empty());
    assert!(log.messages().is_empty());
    let log = LogJSON(Json::Str("[]".to_string()));
    assert!(log.messages().is_empty());
    assert!(LogJSON(Json::Bool(true)).into_iter().is_empty());
}

#[test]
fn formatting_partial_failure_keeps_count() {
    let valid = entry(
        "http://localhost/app.js 12:5 \"hello\"",
        Json::Number(JsonNumber::PosInt(1650000000000)),
    );
    let malformed = Json::Number(JsonNumber::NegInt(-1));
    let log = LogJSON(Json::Array(vec![valid, malformed]));
    let first = log.messages();
    assert_eq!(
        first,
        vec!["http://localhost/app.js 12:5 \"hello\"".to_string(), String::new()]
    );
    assert_eq!(log.messages(), first);
}

#[test]
fn formatting_keeps_array_order() {
    let log = LogJSON(Json::Array(vec![
        entry("u one", Json::Number(JsonNumber::PosInt(1))),
        entry("u two", Json::Number(JsonNumber::PosInt(2))),
        entry("u three", Json::Number(JsonNumber::PosInt(3))),
    ]));
    assert_eq!(log.into_iter(), vec!["u one", "u two", "u three"]);
}

#[test]
fn entry_decoding() {
    let ok = decode_entry(&entry("m", Json::Number(JsonNumber::PosInt(7)))).unwrap();
    assert_eq!(ok.message, "m");
    assert_eq!(ok.level, "SEVERE");
    assert_eq!(ok.source, "console-api");
    assert_eq!(ok.timestamp, 7);
    assert!(decode_entry(&entry("m", Json::Number(JsonNumber::NegInt(-7)))).is_none());
    assert!(decode_entry(&entry("m", Json::Number(JsonNumber::Float))).is_none());
    assert!(decode_entry(&entry("m", Json::Null)).is_none());
    assert!(decode_entry(&Json::Object(vec![(
        "message".to_string(),
        Json::Str("m".to_string())
    )]))
    .is_none());
    assert!(decode_entry(&Json::Array(vec![])).is_none());
    let mut fields = match entry("m", Json::Number(JsonNumber::PosInt(0))) {
        Json::Object(fields) => fields,
        _ => unreachable!(),
    };
    fields.push(("extra".to_string(), Json::Null));
    assert!(decode_entry(&Json::Object(fields)).is_some());
}

#[test]
fn formatting_shows_message_field_as_is() {
    let log = LogJSON(Json::Array(vec![entry(
        "http://h/ 1:1 hi",
        Json::Number(JsonNumber::PosInt(1)),
    )]));
    assert_eq!(log.messages(), vec!["http://h/ 1:1 hi"]);
}

#[test]
fn entry_decoding_from_array_form() {
    let four = Json::Array(vec![
        Json::Str("m".to_string()),
        Json::Str("INFO".to_string()),
        Json::Str("console-api".to_string()),
        Json::Number(JsonNumber::PosInt(3)),
    ]);
    let item = decode_entry(&four).unwrap();
    assert_eq!(item.message, "m");
    assert_eq!(item.level, "INFO");
    assert_eq!(item.source, "console-api");
    assert_eq!(item.timestamp, 3);
    let three = Json::Array(vec![
        Json::Str("m".to_string()),
        Json::Str("INFO".to_string()),
        Json::Str("console-api".to_string()),
    ]);
    assert!(decode_entry(&three).is_none());
    let log = LogJSON(Json::Array(vec![four, three]));
    assert_eq!(log.messages(), vec!["m".to_string(), String::new()]);
}
