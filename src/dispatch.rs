//! One line of input turned into at most one batch of work, with the argument
//! checks and the URL register updates done on the spot.
use vstd::prelude::*;
use crate::text::{split_words, text_eq, views, words};
use crate::types::{
    command_names, command_of_word, listed_names, Command, DriverMethod, LogType, ToCommand,
};

verus! {

/// What the shell does with one line of input.
#[derive(Debug)]
pub enum Reply {
    /// The line holds no word: prompt again.
    Idle,
    /// The word names no command: show the available commands.
    Commands(Vec<String>),
    /// Show the URL register, which holds this value.
    ShowUrlbar(String),
    /// The URL register was overwritten.
    UrlbarSet,
    /// Hand these to the session worker, each placed on the queue only once
    /// the one before it is.
    Enqueue(Vec<DriverMethod>),
    /// Wrong number of arguments for this command (for `Unrecognized`: any).
    Usage(Command),
    /// `page` was given an argument other than `refresh`.
    UnknownSubcommand(String),
    /// The command has no behaviour yet.
    Unimplemented(Command),
}

/// `r` hands exactly these items to the worker, in this order.
pub open spec fn enqueues(r: Reply, items: Seq<DriverMethod>) -> bool {
    match r {
        Reply::Enqueue(v) => v@ =~= items,
        _ => false,
    }
}

/// What `command` does with its arguments `args` (the words after the
/// command's own), given the URL register `before` it and `after` it.
pub open spec fn decided(
    command: Command,
    args: Seq<Seq<char>>,
    before: Seq<char>,
    r: Reply,
    after: Seq<char>,
) -> bool {
    let n = args.len();
    match command {
        Command::Unrecognized => after == before && if n == 0 {
            match r {
                Reply::Commands(names) => views(names@) == listed_names(),
                _ => false,
            }
        } else {
            r == Reply::Usage(Command::Unrecognized)
        },
        Command::Urlbar => if n == 0 {
            after == before && match r {
                Reply::ShowUrlbar(shown) => shown@ == before,
                _ => false,
            }
        } else if n == 1 {
            r is UrlbarSet && after == args[0]
        } else {
            r == Reply::Usage(Command::Urlbar) && after == before
        },
        Command::Page => after == before && if n == 0 {
            enqueues(r, seq![DriverMethod::Page])
        } else if n == 1 && args[0] == "refresh"@ {
            enqueues(r, seq![DriverMethod::Goto, DriverMethod::Page])
        } else if n == 1 {
            match r {
                Reply::UnknownSubcommand(sub) => sub@ == args[0],
                _ => false,
            }
        } else {
            r == Reply::Usage(Command::Page)
        },
        Command::ConsoleLog => after == before && if n == 0 {
            enqueues(r, seq![DriverMethod::GetLog(LogType::Browser)])
        } else {
            r == Reply::Usage(Command::ConsoleLog)
        },
        Command::LogTypes => after == before && if n == 0 {
            enqueues(r, seq![DriverMethod::LogTypes])
        } else {
            r == Reply::Usage(Command::LogTypes)
        },
        Command::Goto => if n == 1 {
            enqueues(r, seq![DriverMethod::Goto]) && after == args[0]
        } else {
            r == Reply::Usage(Command::Goto) && after == before
        },
        Command::Log => r == Reply::Unimplemented(Command::Log) && after == before,
    }
}

/// What one line does, given the URL register `before` it and `after` it:
/// nothing for a line without words, else what the command named by its
/// first word does with the other words.
pub open spec fn dispatched(line: Seq<char>, before: Seq<char>, r: Reply, after: Seq<char>) -> bool {
    let ws = words(line);
    if ws.len() == 0 {
        r is Idle && after == before
    } else {
        decided(command_of_word(ws[0]), ws.drop_first(), before, r, after)
    }
}

/// A line that is rejected (wrong number of arguments, an unknown `page`
/// subcommand, or a command without behaviour) leaves the URL register as it
/// was and hands no work to the worker.
pub proof fn lemma_rejected_line_changes_nothing(
    line: Seq<char>,
    before: Seq<char>,
    r: Reply,
    after: Seq<char>,
)
    requires
        dispatched(line, before, r, after),
        r is Usage || r is UnknownSubcommand || r is Unimplemented,
    ensures
        after == before,
        !(r is Enqueue),
{
}

/// `page refresh` hands the worker exactly two items, the navigation before
/// the page read, and leaves the URL register as it was.
pub proof fn lemma_refresh_navigates_first(
    args: Seq<Seq<char>>,
    before: Seq<char>,
    r: Reply,
    after: Seq<char>,
)
    requires
        decided(Command::Page, args, before, r, after),
        args == seq!["refresh"@],
    ensures
        enqueues(r, seq![DriverMethod::Goto, DriverMethod::Page]),
        after == before,
{
}

/// Carries out `command` with its arguments `args` against the URL register
/// `urlbar`.
pub fn decide(command: Command, args: &Vec<String>, urlbar: &mut String) -> (r: Reply)
    ensures
        decided(command, views(args@), old(urlbar)@, r, final(urlbar)@),
{
    let n = args.len();
    if n >= 1 {
        assert(views(args@)[0] == args@[0]@);
    }
    match command {
        Command::Unrecognized => {
            if n == 0 {
                Reply::Commands(command_names())
            } else {
                Reply::Usage(Command::Unrecognized)
            }
        },
        Command::Urlbar => {
            if n == 0 {
                Reply::ShowUrlbar(urlbar.clone())
            } else if n == 1 {
                *urlbar = args[0].clone();
                Reply::UrlbarSet
            } else {
                Reply::Usage(Command::Urlbar)
            }
        },
        Command::Page => {
            if n == 0 {
                Reply::Enqueue(vec![DriverMethod::Page])
            } else if n == 1 && text_eq(args[0].as_str(), "refresh") {
                Reply::Enqueue(vec![DriverMethod::Goto, DriverMethod::Page])
            } else if n == 1 {
                Reply::UnknownSubcommand(args[0].clone())
            } else {
                Reply::Usage(Command::Page)
            }
        },
        Command::ConsoleLog => {
            if n == 0 {
                Reply::Enqueue(vec![DriverMethod::GetLog(LogType::Browser)])
            } else {
                Reply::Usage(Command::ConsoleLog)
            }
        },
        Command::LogTypes => {
            if n == 0 {
                Reply::Enqueue(vec![DriverMethod::LogTypes])
            } else {
                Reply::Usage(Command::LogTypes)
            }
        },
        Command::Goto => {
            if n == 1 {
                *urlbar = args[0].clone();
                Reply::Enqueue(vec![DriverMethod::Goto])
            } else {
                Reply::Usage(Command::Goto)
            }
        },
        Command::Log => Reply::Unimplemented(Command::Log),
    }
}

/// Handles one line of input against the URL register `urlbar`.
pub fn dispatch(line: &str, urlbar: &mut String) -> (r: Reply)
    ensures
        dispatched(line@, old(urlbar)@, r, final(urlbar)@),
{
    let mut ws = split_words(line);
    if ws.len() == 0 {
        return Reply::Idle;
    }
    let ghost wv = views(ws@);
    let first = ws.remove(0);
    assert(wv[0] == first@);
    assert(views(ws@) =~= wv.drop_first());
    let command = first.as_str().to_command();
    decide(command, &ws, urlbar)
}

} // verus!
