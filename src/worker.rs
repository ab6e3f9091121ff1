//! The decisions of the session worker: what each work item asks of the
//! session, and how a fetched log is shown.
use vstd::prelude::*;
use crate::json::Json;
use crate::text::starts_with_text;
use crate::types::{DriverMethod, LogType};

verus! {

/// Whether `u` already names the `http` or `https` scheme.
pub open spec fn has_web_scheme(u: Seq<char>) -> bool {
    "http://"@.is_prefix_of(u) || "https://"@.is_prefix_of(u)
}

/// The address requested for the register value `u`: `u` itself when it
/// names a web scheme, else `u` behind `http://`.
pub open spec fn with_scheme(u: Seq<char>) -> Seq<char> {
    if has_web_scheme(u) {
        u
    } else {
        "http://"@ + u
    }
}

/// The address to load for the register value `url`.
pub fn navigate_target(url: &str) -> (r: String)
    ensures
        r@ == with_scheme(url@),
{
    if starts_with_text(url, "http://") || starts_with_text(url, "https://") {
        String::from_str(url)
    } else {
        String::from_str("http://").concat(url)
    }
}

/// One remote or local action of the worker, with its parameters.
#[derive(Debug)]
pub enum Task {
    /// Echo the last dumped page source.
    EchoPage,
    /// Print the session's log channels.
    ListLogTypes,
    /// Fetch and show the entries of a log channel.
    FetchLog(LogType),
    /// Load this address, then dump the page source.
    Load(String),
}

/// What the worker does for `item`, the URL register holding `urlbar`.
pub fn plan(item: DriverMethod, urlbar: &str) -> (r: Task)
    ensures
        match item {
            DriverMethod::Page => r is EchoPage,
            DriverMethod::LogTypes => r is ListLogTypes,
            DriverMethod::GetLog(channel) => r == Task::FetchLog(channel),
            DriverMethod::Goto => match r {
                Task::Load(address) => address@ == with_scheme(urlbar@),
                _ => false,
            },
        },
{
    match item {
        DriverMethod::Page => Task::EchoPage,
        DriverMethod::LogTypes => Task::ListLogTypes,
        DriverMethod::GetLog(channel) => Task::FetchLog(channel),
        DriverMethod::Goto => Task::Load(navigate_target(urlbar)),
    }
}

/// Whether a fetched log payload is an empty array: nothing new since the
/// last dump, which is then shown instead (and the payload is not dumped).
pub fn reads_dump(payload: &Json) -> (r: bool)
    ensures
        r == match *payload {
            Json::Array(items) => items@.len() == 0,
            _ => false,
        },
{
    match payload {
        Json::Array(items) => items.len() == 0,
        _ => false,
    }
}

/// The line above a shown log: the dump's location, quoted, when the URL
/// register is empty, else the URL as the speaker.
pub fn log_heading(url: &str, store: &str) -> (r: String)
    ensures
        r@ == if url@.len() == 0 {
            "\""@ + store@ + "\" reads:"@
        } else {
            url@ + " says:"@
        },
{
    if url.unicode_len() == 0 {
        String::from_str("\"").concat(store).concat("\" reads:")
    } else {
        String::from_str(url).concat(" says:")
    }
}

} // verus!
