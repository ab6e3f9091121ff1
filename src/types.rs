//! Commands typed at the prompt and how a word is classified into one, the
//! work items handed to the session worker, and the formatting of fetched logs.
use vstd::prelude::*;
use crate::json::{entry_or_default, is_entry, message_of, Json};
use crate::text::{
    all_ascii, ascii_lower, is_ascii_upper, split_words, text_eq, trimmed, unquote, unquoted, views,
    words,
};

verus! {

/// The closed set of commands the shell understands.
#[derive(Debug, Clone, Copy, PartialEq, Eq, Structural)]
pub enum Command {
    Goto,
    Urlbar,
    Page,
    LogTypes,
    Log,
    ConsoleLog,
    Unrecognized,
}

impl Command {
    /// The name of the command as written in its declaration.
    pub fn name(&self) -> (r: &'static str)
        ensures
            r@ == pascal_name(*self),
    {
        match self {
            Command::Goto => "Goto",
            Command::Urlbar => "Urlbar",
            Command::Page => "Page",
            Command::LogTypes => "LogTypes",
            Command::Log => "Log",
            Command::ConsoleLog => "ConsoleLog",
            Command::Unrecognized => "Unrecognized",
        }
    }
}

/// The command that a lower-cased, trimmed word names.
pub open spec fn command_for(w: Seq<char>) -> Command {
    if w == "goto"@ {
        Command::Goto
    } else if w == "urlbar"@ {
        Command::Urlbar
    } else if w == "page"@ {
        Command::Page
    } else if w == "log-types"@ || w == "lt"@ {
        Command::LogTypes
    } else if w == "log"@ {
        Command::Log
    } else if w == "console-log"@ || w == "cl"@ {
        Command::ConsoleLog
    } else {
        Command::Unrecognized
    }
}

/// What `str::to_lowercase` returns for the given characters.
pub uninterp spec fn lower_of(s: Seq<char>) -> Seq<char>;

/// The command named by a raw word: lower-cased first, then trimmed.
pub open spec fn command_of_word(w: Seq<char>) -> Command {
    command_for(trimmed(lower_of(w)))
}

/// Relies on `str::to_lowercase`: the result depends on the characters alone,
/// and an ASCII character maps to its ASCII lower case.
#[verifier::external_body]
fn lowercase(s: &str) -> (r: String)
    ensures
        r@ == lower_of(s@),
        all_ascii(s@) ==> r@ == s@.map_values(|c: char| ascii_lower(c)),
{
    s.to_lowercase()
}

/// Relies on `str::trim`: leading and trailing characters with the Unicode
/// `White_Space` property are removed.
#[verifier::external_body]
fn trim(s: &str) -> (r: &str)
    ensures
        r@ == trimmed(s@),
{
    s.trim()
}

/// Classifies a word that is already lower-cased and trimmed.
pub fn classify(w: &str) -> (r: Command)
    ensures
        r == command_for(w@),
{
    if text_eq(w, "goto") {
        Command::Goto
    } else if text_eq(w, "urlbar") {
        Command::Urlbar
    } else if text_eq(w, "page") {
        Command::Page
    } else if text_eq(w, "log-types") || text_eq(w, "lt") {
        Command::LogTypes
    } else if text_eq(w, "log") {
        Command::Log
    } else if text_eq(w, "console-log") || text_eq(w, "cl") {
        Command::ConsoleLog
    } else {
        Command::Unrecognized
    }
}

/// Conversion of typed input into a [`Command`].
pub trait ToCommand {
    fn to_command(&self) -> Command;
}

impl ToCommand for &str {
    /// Total: every string, the empty one included, names exactly one command.
    fn to_command(&self) -> (r: Command)
        ensures
            r == command_of_word((*self)@),
    {
        let lowered = lowercase(*self);
        let word = trim(lowered.as_str());
        classify(word)
    }
}

/// Every command, in declaration order.
pub open spec fn every_command() -> Seq<Command> {
    seq![
        Command::Goto,
        Command::Urlbar,
        Command::Page,
        Command::LogTypes,
        Command::Log,
        Command::ConsoleLog,
        Command::Unrecognized,
    ]
}

/// The commands offered to the user: every one but `Unrecognized`.
pub open spec fn listed() -> Seq<Command> {
    every_command().filter(|c: Command| c != Command::Unrecognized)
}

/// The declared name of each command.
pub open spec fn pascal_name(c: Command) -> Seq<char> {
    match c {
        Command::Goto => "Goto"@,
        Command::Urlbar => "Urlbar"@,
        Command::Page => "Page"@,
        Command::LogTypes => "LogTypes"@,
        Command::Log => "Log"@,
        Command::ConsoleLog => "ConsoleLog"@,
        Command::Unrecognized => "Unrecognized"@,
    }
}

/// The kebab-case form of an ASCII PascalCase name, after its first
/// character: each capital letter made small behind a `-`, every other
/// character kept.
pub open spec fn kebab_rest(s: Seq<char>) -> Seq<char>
    decreases s.len(),
{
    if s.len() == 0 {
        Seq::empty()
    } else {
        kebab_rest(s.drop_last()) + if is_ascii_upper(s.last()) {
            seq!['-', ascii_lower(s.last())]
        } else {
            seq![s.last()]
        }
    }
}

/// The kebab-case form of an ASCII PascalCase name: its first character made
/// small, then [`kebab_rest`] of the others.
pub open spec fn kebab(s: Seq<char>) -> Seq<char> {
    if s.len() == 0 {
        Seq::empty()
    } else {
        seq![ascii_lower(s[0])] + kebab_rest(s.drop_first())
    }
}

/// The names shown when input names no command.
pub open spec fn listed_names() -> Seq<Seq<char>> {
    listed().map_values(|c: Command| kebab(pascal_name(c)))
}

/// Relies on `case_style::CaseStyle::from_pascalcase` and `to_kebabcase`,
/// which go together: on ASCII input the first character is lowered, each
/// later capital letter is lowered behind a `-`, and the rest is kept.
#[verifier::external_body]
fn kebab_case(s: &str) -> (r: String)
    requires
        all_ascii(s@),
    ensures
        r@ == kebab(s@),
{
    case_style::CaseStyle::from_pascalcase(s).to_kebabcase()
}

proof fn lemma_names_are_ascii(c: Command)
    ensures
        all_ascii(pascal_name(c)),
{
    reveal_strlit("Goto");
    reveal_strlit("Urlbar");
    reveal_strlit("Page");
    reveal_strlit("LogTypes");
    reveal_strlit("Log");
    reveal_strlit("ConsoleLog");
    reveal_strlit("Unrecognized");
}

/// Every command, in declaration order.
pub fn all_commands() -> (r: Vec<Command>)
    ensures
        r@ == every_command(),
{
    let r = vec![
        Command::Goto,
        Command::Urlbar,
        Command::Page,
        Command::LogTypes,
        Command::Log,
        Command::ConsoleLog,
        Command::Unrecognized,
    ];
    assert(r@ =~= every_command());
    r
}

/// The kebab-case names of the commands offered to the user.
pub fn command_names() -> (r: Vec<String>)
    ensures
        views(r@) == listed_names(),
{
    let all = all_commands();
    let mut out: Vec<String> = Vec::new();
    let mut i: usize = 0;
    while i < all.len()
        invariant
            i <= all@.len(),
            all@ == every_command(),
            views(out@) == all@.subrange(0, i as int).filter(
                |c: Command| c != Command::Unrecognized,
            ).map_values(|c: Command| kebab(pascal_name(c))),
        decreases all.len() - i,
    {
        let c = all[i];
        let ghost before = out@;
        let ghost pre = all@.subrange(0, i as int);
        assert(all@.subrange(0, i + 1).drop_last() =~= pre);
        reveal(Seq::filter);
        if c != Command::Unrecognized {
            proof {
                lemma_names_are_ascii(c);
            }
            let name = kebab_case(c.name());
            out.push(name);
            assert(views(out@) =~= views(before).push(kebab(pascal_name(c))));
        }
        i = i + 1;
    }
    assert(all@.subrange(0, i as int) =~= all@);
    out
}

/// The commands offered are every one but `Unrecognized`, each once.
proof fn lemma_listed_commands()
    ensures
        listed() == seq![
            Command::Goto,
            Command::Urlbar,
            Command::Page,
            Command::LogTypes,
            Command::Log,
            Command::ConsoleLog,
        ],
{
    reveal(Seq::filter);
    let all = every_command();
    assert(all.take(7) =~= all);
    assert(all.take(7).drop_last() =~= all.take(6));
    lemma_filter_keeps_all(all.take(6));
    assert(listed() =~= all.take(6));
}

proof fn lemma_kebab_rest_concat(a: Seq<char>, b: Seq<char>)
    ensures
        kebab_rest(a + b) == kebab_rest(a) + kebab_rest(b),
    decreases b.len(),
{
    if b.len() == 0 {
        assert(a + b =~= a);
        assert(kebab_rest(a) + kebab_rest(b) =~= kebab_rest(a));
    } else {
        assert((a + b).drop_last() =~= a + b.drop_last());
        lemma_kebab_rest_concat(a, b.drop_last());
        let tail = if is_ascii_upper(b.last()) {
            seq!['-', ascii_lower(b.last())]
        } else {
            seq![b.last()]
        };
        assert(kebab_rest(a + b) =~= kebab_rest(a) + kebab_rest(b.drop_last()) + tail);
        assert(kebab_rest(a) + kebab_rest(b) =~= kebab_rest(a) + (kebab_rest(b.drop_last()) + tail));
    }
}

proof fn lemma_kebab_rest_keeps_small(s: Seq<char>)
    requires
        forall|i: int| 0 <= i < s.len() ==> !is_ascii_upper(#[trigger] s[i]),
    ensures
        kebab_rest(s) == s,
    decreases s.len(),
{
    if s.len() > 0 {
        lemma_kebab_rest_keeps_small(s.drop_last());
        assert(s.drop_last() + seq![s.last()] =~= s);
    }
}

proof fn lemma_kebab_rest_capital(c: char)
    requires
        is_ascii_upper(c),
    ensures
        kebab_rest(seq![c]) == seq!['-', ascii_lower(c)],
{
    assert(seq![c].drop_last() =~= Seq::<char>::empty());
    assert(seq![c].last() == c);
    assert(kebab_rest(Seq::<char>::empty()) == Seq::<char>::empty());
    assert(Seq::<char>::empty() + seq!['-', ascii_lower(c)] =~= seq!['-', ascii_lower(c)]);
}

/// `kebab` of a name made of one capital and small letters only.
proof fn lemma_kebab_one_word(s: Seq<char>)
    requires
        s.len() > 0,
        is_ascii_upper(s[0]),
        forall|i: int| 1 <= i < s.len() ==> !is_ascii_upper(#[trigger] s[i]),
    ensures
        kebab(s) == seq![ascii_lower(s[0])] + s.drop_first(),
{
    let t = s.drop_first();
    assert forall|i: int| 0 <= i < t.len() implies !is_ascii_upper(#[trigger] t[i]) by {
        assert(t[i] == s[i + 1]);
    }
    lemma_kebab_rest_keeps_small(t);
}

/// `kebab` of a name made of two such words, the second starting at `k`.
proof fn lemma_kebab_two_words(s: Seq<char>, k: int)
    requires
        1 < k < s.len(),
        is_ascii_upper(s[0]),
        is_ascii_upper(s[k]),
        forall|i: int| 1 <= i < s.len() && i != k ==> !is_ascii_upper(#[trigger] s[i]),
    ensures
        kebab(s) == seq![ascii_lower(s[0])] + s.subrange(1, k) + seq!['-', ascii_lower(s[k])]
            + s.subrange(k + 1, s.len() as int),
{
    let a = s.subrange(1, k);
    let b = s.subrange(k + 1, s.len() as int);
    assert(s.drop_first() =~= a + seq![s[k]] + b);
    assert forall|i: int| 0 <= i < a.len() implies !is_ascii_upper(#[trigger] a[i]) by {
        assert(a[i] == s[i + 1]);
    }
    assert forall|i: int| 0 <= i < b.len() implies !is_ascii_upper(#[trigger] b[i]) by {
        assert(b[i] == s[i + k + 1]);
    }
    lemma_kebab_rest_concat(a + seq![s[k]], b);
    lemma_kebab_rest_concat(a, seq![s[k]]);
    lemma_kebab_rest_keeps_small(a);
    lemma_kebab_rest_keeps_small(b);
    lemma_kebab_rest_capital(s[k]);
}

proof fn lemma_kebab_names()
    ensures
        kebab(pascal_name(Command::Goto)) == "goto"@,
        kebab(pascal_name(Command::Urlbar)) == "urlbar"@,
        kebab(pascal_name(Command::Page)) == "page"@,
        kebab(pascal_name(Command::LogTypes)) == "log-types"@,
        kebab(pascal_name(Command::Log)) == "log"@,
        kebab(pascal_name(Command::ConsoleLog)) == "console-log"@,
{
    reveal_strlit("Goto");
    reveal_strlit("Urlbar");
    reveal_strlit("Page");
    reveal_strlit("LogTypes");
    reveal_strlit("Log");
    reveal_strlit("ConsoleLog");
    reveal_strlit("goto");
    reveal_strlit("urlbar");
    reveal_strlit("page");
    reveal_strlit("log-types");
    reveal_strlit("log");
    reveal_strlit("console-log");
    lemma_kebab_one_word("Goto"@);
    assert(kebab("Goto"@) =~= "goto"@);
    lemma_kebab_one_word("Urlbar"@);
    assert(kebab("Urlbar"@) =~= "urlbar"@);
    lemma_kebab_one_word("Page"@);
    assert(kebab("Page"@) =~= "page"@);
    lemma_kebab_one_word("Log"@);
    assert(kebab("Log"@) =~= "log"@);
    lemma_kebab_two_words("LogTypes"@, 3);
    assert(kebab("LogTypes"@) =~= "log-types"@);
    lemma_kebab_two_words("ConsoleLog"@, 7);
    assert(kebab("ConsoleLog"@) =~= "console-log"@);
}

/// When input names no command, the shell lists every other command, each
/// exactly once, under the names `goto`, `urlbar`, `page`, `log-types`, `log`
/// and `console-log`, none of them twice.
pub proof fn lemma_listing_exactly_once()
    ensures
        forall|c: Command| #[trigger] listed().contains(c) <==> c != Command::Unrecognized,
        listed().no_duplicates(),
        listed_names() == seq!["goto"@, "urlbar"@, "page"@, "log-types"@, "log"@, "console-log"@],
        listed_names().no_duplicates(),
{
    lemma_listed_commands();
    lemma_kebab_names();
    let l = listed();
    assert forall|c: Command| #[trigger] l.contains(c) <==> c != Command::Unrecognized by {
        if c != Command::Unrecognized {
            let i: int = match c {
                Command::Goto => 0,
                Command::Urlbar => 1,
                Command::Page => 2,
                Command::LogTypes => 3,
                Command::Log => 4,
                Command::ConsoleLog => 5,
                Command::Unrecognized => 6,
            };
            assert(l[i] == c);
        }
    }
    let names = seq!["goto"@, "urlbar"@, "page"@, "log-types"@, "log"@, "console-log"@];
    assert(listed_names() =~= names);
    reveal_strlit("goto");
    reveal_strlit("urlbar");
    reveal_strlit("page");
    reveal_strlit("log-types");
    reveal_strlit("log");
    reveal_strlit("console-log");
    assert(names.no_duplicates()) by {
        assert forall|i: int, j: int| 0 <= i < names.len() && 0 <= j < names.len() && i != j
            implies names[i] != names[j] by {
            assert(names[i].len() != names[j].len() || names[i][0] != names[j][0]
                || names[i][1] != names[j][1] || names[i][2] != names[j][2]);
        }
    }
}

proof fn lemma_filter_keeps_all(s: Seq<Command>)
    requires
        forall|i: int| 0 <= i < s.len() ==> s[i] != Command::Unrecognized,
    ensures
        s.filter(|d: Command| d != Command::Unrecognized) == s,
    decreases s.len(),
{
    reveal(Seq::filter);
    if s.len() > 0 {
        lemma_filter_keeps_all(s.drop_last());
        assert(s.drop_last().push(s.last()) =~= s);
    } else {
        assert(s.filter(|d: Command| d != Command::Unrecognized) =~= s);
    }
}

/// A log channel of the remote session.
#[derive(Debug, Clone, Copy, PartialEq, Eq, Structural)]
pub enum LogType {
    Browser,
    Driver,
    Client,
    Server,
    Performance,
}

impl LogType {
    /// The channel's name in the automation protocol.
    pub fn as_str(&self) -> (r: &'static str)
        ensures
            r@ == match *self {
                LogType::Browser => "browser"@,
                LogType::Driver => "driver"@,
                LogType::Client => "client"@,
                LogType::Server => "server"@,
                LogType::Performance => "performance"@,
            },
    {
        match self {
            LogType::Browser => "browser",
            LogType::Driver => "driver",
            LogType::Client => "client",
            LogType::Server => "server",
            LogType::Performance => "performance",
        }
    }
}

/// A unit of work for the session worker, with every parameter resolved.
#[derive(Debug, Clone, Copy, PartialEq, Eq, Structural)]
pub enum DriverMethod {
    /// Show the last page source that was dumped.
    Page,
    /// List the session's log channels.
    LogTypes,
    /// Fetch the entries of one log channel.
    GetLog(LogType),
    /// Load the address held in the URL register.
    Goto,
}

/// Each word, quotes trimmed, preceded by one space.
pub open spec fn spaced(ws: Seq<Seq<char>>) -> Seq<char>
    decreases ws.len(),
{
    if ws.len() == 0 {
        Seq::empty()
    } else {
        spaced(ws.drop_last()) + " "@ + unquoted(ws.last())
    }
}

/// A console message without its leading URL: the second word in brackets,
/// then the rest, each word with its double quotes trimmed.
pub open spec fn beheaded(m: Seq<char>) -> Seq<char> {
    let ws = words(m);
    if ws.len() < 2 {
        Seq::empty()
    } else {
        "["@ + unquoted(ws[1]) + "]"@ + spaced(ws.subrange(2, ws.len() as int))
    }
}

/// Drops the first word of a console message (the URL it came from), puts
/// the second in brackets and trims double quotes around every word.
pub fn behead(message: String) -> (r: String)
    ensures
        r@ == beheaded(message@),
{
    let ws = split_words(message.as_str());
    let ghost wv = views(ws@);
    if ws.len() < 2 {
        return String::new();
    }
    let mut out = String::from_str("[");
    let first = unquote(ws[1].as_str());
    out.append(first.as_str());
    out.append("]");
    let ghost head = out@;
    assert(wv.subrange(2, 2) =~= Seq::<Seq<char>>::empty());
    assert(head + spaced(wv.subrange(2, 2)) =~= head);
    let mut i: usize = 2;
    while i < ws.len()
        invariant
            wv == views(ws@),
            wv == words(message@),
            2 <= i <= ws.len(),
            head == "["@ + unquoted(wv[1]) + "]"@,
            out@ == head + spaced(wv.subrange(2, i as int)),
        decreases ws.len() - i,
    {
        let w = unquote(ws[i].as_str());
        out.append(" ");
        out.append(w.as_str());
        assert(wv.subrange(2, i + 1).drop_last() =~= wv.subrange(2, i as int));
        assert(out@ =~= head + spaced(wv.subrange(2, i + 1)));
        i = i + 1;
    }
    out
}

/// The lines shown for a log payload: for an array, one line per element in
/// order, the `message` field of the entry it decodes to (empty where the
/// element is not an entry); for anything else, no line.
pub open spec fn formatted(v: Json) -> Seq<Seq<char>> {
    match v {
        Json::Array(items) => items@.map_values(|e: Json| message_of(e)),
        _ => Seq::empty(),
    }
}

/// A log payload as the session returned it, to be shown line by line.
pub struct LogJSON(pub Json);

impl Default for LogJSON {
    /// The payload that stands for "no data".
    fn default() -> (r: Self)
        ensures
            r.0 is Null,
    {
        LogJSON(Json::Null)
    }
}

impl LogJSON {
    /// The lines to show, one per element of an array payload and none for
    /// any other. It leaves the payload as it is, so it can be taken again.
    pub fn messages(&self) -> (r: Vec<String>)
        ensures
            views(r@) == formatted(self.0),
            !(self.0 is Array) ==> r@.len() == 0,
            match self.0 {
                Json::Array(items) => {
                    &&& r@.len() == items@.len()
                    &&& forall|i: int|
                        0 <= i < items@.len() && !is_entry(#[trigger] items@[i])
                            ==> r@[i]@.len() == 0
                },
                _ => true,
            },
    {
        match &self.0 {
            Json::Array(items) => {
                let mut out: Vec<String> = Vec::new();
                let mut i: usize = 0;
                while i < items.len()
                    invariant
                        i <= items@.len(),
                        self.0 == Json::Array(*items),
                        views(out@) == items@.subrange(0, i as int).map_values(
                            |e: Json| message_of(e),
                        ),
                    decreases items.len() - i,
                {
                    let item = entry_or_default(&items[i]);
                    let line = item.message;
                    let ghost before = out@;
                    out.push(line);
                    assert(views(out@) =~= views(before).push(line@));
                    assert(items@.subrange(0, i + 1) =~= items@.subrange(0, i as int).push(
                        items@[i as int],
                    ));
                    i = i + 1;
                }
                assert(items@.subrange(0, i as int) =~= items@);
                assert forall|k: int|
                    0 <= k < items@.len() && !is_entry(#[trigger] items@[k])
                        implies out@[k]@.len() == 0 by {
                    assert(views(out@)[k] == out@[k]@);
                }
                out
            },
            _ => Vec::new(),
        }
    }

    /// The lines to show, as [`LogJSON::messages`] gives them.
    pub fn into_iter(self) -> (r: Vec<String>)
        ensures
            views(r@) == formatted(self.0),
    {
        self.messages()
    }
}

} // verus!
