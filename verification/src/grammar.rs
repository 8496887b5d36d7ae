//! The command grammar: which sequences of words are commands.
//!
//! ```text
//! line    := "quit" | "http" verb uri word* | "interactive"
//! verb    := "get" | "put"
//! ```
//!
//! `interactive` is a command only where entering the read loop is allowed.
//! A word of two or more characters that begins with `-` is a flag, wherever
//! it stands: `-h` and `--help` ask for help on the command they follow, `-V`
//! and `--version` ask for the version, any other flag is a violation. The
//! words are read from left to right and the first violation is reported.

use crate::command::{Command, CommandView, HttpCommand, HttpCommandView, Verb};
use crate::words::{lemma_texts_push, texts};
use vstd::prelude::*;
use vstd::string::*;

verus! {

/// The name and version of the shell.
pub const VERSION: &'static str = "cli 0.0.1";

/// The page on the commands where entering the read loop is allowed.
pub const HELP_ENTRY: &'static str =
    "usage: [interactive | quit | http (get | put) <uri> [<word>...]]\n    interactive  Read commands from the terminal.\n    quit         End the program.\n    http         Make an HTTP call.";

/// The page on the commands of the read loop.
pub const HELP_SHELL: &'static str =
    "usage: [quit | http (get | put) <uri> [<word>...]]\n    quit  End the program.\n    http  Make an HTTP call.";

/// The page on `quit`.
pub const HELP_QUIT: &'static str = "usage: quit\n    End the program.";

/// The page on `interactive`.
pub const HELP_INTERACTIVE: &'static str = "usage: interactive\n    Read commands from the terminal.";

/// The page on `http`.
pub const HELP_HTTP: &'static str =
    "usage: http (get | put) <uri> [<word>...]\n    get  Make an HTTP GET call.\n    put  Make an HTTP PUT call.";

/// The page on `http get`.
pub const HELP_GET: &'static str = "usage: http get <uri> [<word>...]\n    Make an HTTP GET call.";

/// The page on `http put`.
pub const HELP_PUT: &'static str = "usage: http put <uri> [<word>...]\n    Make an HTTP PUT call.";

/// A page of help.
#[derive(Clone, Copy, Debug, PartialEq, Eq, Structural)]
pub enum Topic {
    /// The commands, `interactive` among them.
    Entry,
    /// The commands of the read loop.
    Shell,
    Quit,
    Interactive,
    Http,
    Get,
    Put,
}

impl Topic {
    /// The text of the page.
    pub open spec fn text(self) -> Seq<char> {
        match self {
            Topic::Entry => HELP_ENTRY@,
            Topic::Shell => HELP_SHELL@,
            Topic::Quit => HELP_QUIT@,
            Topic::Interactive => HELP_INTERACTIVE@,
            Topic::Http => HELP_HTTP@,
            Topic::Get => HELP_GET@,
            Topic::Put => HELP_PUT@,
        }
    }

    /// The page on the commands.
    pub open spec fn top(allow_interactive: bool) -> Topic {
        if allow_interactive {
            Topic::Entry
        } else {
            Topic::Shell
        }
    }

    /// The page on a verb.
    pub fn for_verb(verb: Verb) -> (t: Topic)
        ensures
            t == Topic::of_verb(verb),
    {
        match verb {
            Verb::Get => Topic::Get,
            Verb::Put => Topic::Put,
        }
    }

    /// The page on a verb.
    pub open spec fn of_verb(verb: Verb) -> Topic {
        match verb {
            Verb::Get => Topic::Get,
            Verb::Put => Topic::Put,
        }
    }

    /// The text of the page.
    pub fn help(&self) -> (r: &'static str)
        ensures
            r@ == self.text(),
    {
        match self {
            Topic::Entry => HELP_ENTRY,
            Topic::Shell => HELP_SHELL,
            Topic::Quit => HELP_QUIT,
            Topic::Interactive => HELP_INTERACTIVE,
            Topic::Http => HELP_HTTP,
            Topic::Get => HELP_GET,
            Topic::Put => HELP_PUT,
        }
    }
}

/// The kinds of violation of the grammar.
#[derive(Clone, Copy, Debug, PartialEq, Eq, Structural)]
pub enum Violation {
    /// A word stands where a command or a verb is expected and is neither.
    UnknownCommand,
    /// The words end where a verb or an address is still required.
    MissingArgument,
    /// A flag that is none of the help and version flags.
    UnknownFlag,
    /// A word follows a command that takes none.
    UnexpectedArgument,
}

/// A violation of the grammar, with the word at which it was found; for a
/// missing argument, the word after which it is missing.
#[derive(Clone, Debug, PartialEq, Eq)]
pub struct GrammarError {
    pub kind: Violation,
    pub token: String,
}

/// Why a sequence of words gave no command.
#[derive(Clone, Debug, PartialEq, Eq)]
pub enum ParseError {
    /// The words violate the grammar.
    Grammar(GrammarError),
    /// Help was asked for; the text is the page to show.
    HelpRequested(String),
    /// The version was asked for.
    VersionRequested,
}

/// What a `GrammarError` holds.
pub struct GrammarErrorView {
    pub kind: Violation,
    pub token: Seq<char>,
}

/// What a `ParseError` holds.
pub enum ParseErrorView {
    Grammar(GrammarErrorView),
    HelpRequested(Seq<char>),
    VersionRequested,
}

impl View for GrammarError {
    type V = GrammarErrorView;

    open spec fn view(&self) -> GrammarErrorView {
        GrammarErrorView { kind: self.kind, token: self.token@ }
    }
}

impl View for ParseError {
    type V = ParseErrorView;

    open spec fn view(&self) -> ParseErrorView {
        match self {
            ParseError::Grammar(e) => ParseErrorView::Grammar(e@),
            ParseError::HelpRequested(t) => ParseErrorView::HelpRequested(t@),
            ParseError::VersionRequested => ParseErrorView::VersionRequested,
        }
    }
}

impl Violation {
    /// How a message on a violation of this kind begins.
    pub open spec fn opening(self) -> Seq<char> {
        match self {
            Violation::UnknownCommand => "unknown command '"@,
            Violation::MissingArgument => "missing argument after '"@,
            Violation::UnknownFlag => "unknown flag '"@,
            Violation::UnexpectedArgument => "unexpected argument '"@,
        }
    }

    fn opening_text(&self) -> (r: &'static str)
        ensures
            r@ == self.opening(),
    {
        match self {
            Violation::UnknownCommand => "unknown command '",
            Violation::MissingArgument => "missing argument after '",
            Violation::UnknownFlag => "unknown flag '",
            Violation::UnexpectedArgument => "unexpected argument '",
        }
    }
}

impl GrammarErrorView {
    /// The message: the kind's opening, the word, and a closing quote.
    pub open spec fn message(self) -> Seq<char> {
        self.kind.opening() + self.token + "'"@
    }
}

impl GrammarError {
    /// The message that describes the violation.
    pub fn message(&self) -> (r: String)
        ensures
            r@ == self@.message(),
    {
        let mut r = String::from_str(self.kind.opening_text());
        r.append(self.token.as_str());
        r.append("'");
        r
    }
}

impl ParseErrorView {
    /// What is shown for it: the message of a violation, the page of help,
    /// or the name and version of the shell.
    pub open spec fn message(self) -> Seq<char> {
        match self {
            ParseErrorView::Grammar(e) => e.message(),
            ParseErrorView::HelpRequested(text) => text,
            ParseErrorView::VersionRequested => VERSION@,
        }
    }
}

impl ParseError {
    /// What is shown for it.
    pub fn message(&self) -> (r: String)
        ensures
            r@ == self@.message(),
    {
        match self {
            ParseError::Grammar(e) => e.message(),
            ParseError::HelpRequested(text) => text.clone(),
            ParseError::VersionRequested => String::from_str(VERSION),
        }
    }

    /// Whether it is a violation of the grammar, not a request for help or
    /// for the version.
    pub fn is_violation(&self) -> (b: bool)
        ensures
            b == (self@ is Grammar),
    {
        match self {
            ParseError::Grammar(_) => true,
            _ => false,
        }
    }
}

/// A word of two or more characters that begins with `-`.
pub open spec fn is_flag(t: Seq<char>) -> bool {
    t.len() >= 2 && t[0] == '-'
}

/// A flag that asks for help.
pub open spec fn is_help_flag(t: Seq<char>) -> bool {
    t == "-h"@ || t == "--help"@
}

/// A flag that asks for the version.
pub open spec fn is_version_flag(t: Seq<char>) -> bool {
    t == "-V"@ || t == "--version"@
}

/// What the flag `t` gives where `topic` is the page on the command it
/// follows.
pub open spec fn flag_signal(t: Seq<char>, topic: Topic) -> ParseErrorView {
    if is_help_flag(t) {
        ParseErrorView::HelpRequested(topic.text())
    } else if is_version_flag(t) {
        ParseErrorView::VersionRequested
    } else {
        ParseErrorView::Grammar(GrammarErrorView { kind: Violation::UnknownFlag, token: t })
    }
}

/// The place of the first flag among `ts`; their number where none is a flag.
pub open spec fn first_flag(ts: Seq<Seq<char>>) -> nat
    decreases ts.len(),
{
    if ts.len() == 0 || is_flag(ts[0]) {
        0
    } else {
        1 + first_flag(ts.skip(1))
    }
}

/// The result of reading a sequence of words.
pub type Parsed = Result<Option<CommandView>, ParseErrorView>;

/// The result that reports a violation.
pub open spec fn violation(kind: Violation, token: Seq<char>) -> Parsed {
    Err(ParseErrorView::Grammar(GrammarErrorView { kind, token }))
}

/// What follows a command that takes no argument.
pub open spec fn parse_bare(rest: Seq<Seq<char>>, topic: Topic, command: CommandView) -> Parsed {
    if rest.len() == 0 {
        Ok(Some(command))
    } else if is_flag(rest[0]) {
        Err(flag_signal(rest[0], topic))
    } else {
        violation(Violation::UnexpectedArgument, rest[0])
    }
}

/// What follows a verb: the address and the words of the body.
pub open spec fn parse_call(verb: Verb, rest: Seq<Seq<char>>) -> Parsed {
    if first_flag(rest) < rest.len() {
        Err(flag_signal(rest[first_flag(rest) as int], Topic::of_verb(verb)))
    } else if rest.len() == 0 || rest[0].len() == 0 {
        violation(Violation::MissingArgument, verb.word())
    } else {
        Ok(Some(CommandView::Http(HttpCommandView { verb, uri: rest[0], body: rest.skip(1) })))
    }
}

/// What follows `http`.
pub open spec fn parse_http(rest: Seq<Seq<char>>) -> Parsed {
    if rest.len() == 0 {
        violation(Violation::MissingArgument, "http"@)
    } else if is_flag(rest[0]) {
        Err(flag_signal(rest[0], Topic::Http))
    } else if rest[0] == "get"@ {
        parse_call(Verb::Get, rest.skip(1))
    } else if rest[0] == "put"@ {
        parse_call(Verb::Put, rest.skip(1))
    } else {
        violation(Violation::UnknownCommand, rest[0])
    }
}

/// The command that the words `ts` make, `None` where there are no words,
/// or why they make none.
pub open spec fn parse_spec(ts: Seq<Seq<char>>, allow_interactive: bool) -> Parsed {
    if ts.len() == 0 {
        Ok(None)
    } else if is_flag(ts[0]) {
        Err(flag_signal(ts[0], Topic::top(allow_interactive)))
    } else if ts[0] == "quit"@ {
        parse_bare(ts.skip(1), Topic::Quit, CommandView::Quit)
    } else if allow_interactive && ts[0] == "interactive"@ {
        parse_bare(ts.skip(1), Topic::Interactive, CommandView::EnterInteractive)
    } else if ts[0] == "http"@ {
        parse_http(ts.skip(1))
    } else {
        violation(Violation::UnknownCommand, ts[0])
    }
}

/// What a result of `parse` holds.
pub open spec fn parsed_view(r: Result<Option<Command>, ParseError>) -> Parsed {
    match r {
        Ok(None) => Ok(None),
        Ok(Some(c)) => Ok(Some(c@)),
        Err(e) => Err(e@),
    }
}

/// Where no word before `k` is a flag, and the word at `k` is one or the
/// words end there, `k` is the place of the first flag.
pub proof fn lemma_first_flag_is(ts: Seq<Seq<char>>, k: nat)
    requires
        k <= ts.len(),
        forall|i: int| 0 <= i < k ==> !is_flag(#[trigger] ts[i]),
        k < ts.len() ==> is_flag(ts[k as int]),
    ensures
        first_flag(ts) == k,
    decreases k,
{
    if k > 0 {
        let rest = ts.skip(1);
        assert forall|i: int| 0 <= i < k - 1 implies !is_flag(#[trigger] rest[i]) by {
            assert(rest[i] == ts[i + 1]);
        }
        lemma_first_flag_is(rest, (k - 1) as nat);
    }
}

/// No word in `ts` is a flag.
pub open spec fn flag_free(ts: Seq<Seq<char>>) -> bool {
    forall|i: int| 0 <= i < ts.len() ==> !is_flag(#[trigger] ts[i])
}

/// The words that spell a command.
pub open spec fn sentence(c: CommandView) -> Seq<Seq<char>> {
    match c {
        CommandView::Quit => seq!["quit"@],
        CommandView::EnterInteractive => seq!["interactive"@],
        CommandView::Http(h) => seq!["http"@, h.verb.word(), h.uri] + h.body,
    }
}

/// A command that its sentence can spell: the address is not empty, and
/// neither the address nor a word of the body is a flag.
pub open spec fn spellable(c: CommandView) -> bool {
    match c {
        CommandView::Http(h) => h.wf() && !is_flag(h.uri) && flag_free(h.body),
        _ => true,
    }
}

/// The words of the grammar are five different words, none of them a flag.
pub proof fn lemma_keywords()
    ensures
        !is_flag("quit"@),
        !is_flag("interactive"@),
        !is_flag("http"@),
        !is_flag("get"@),
        !is_flag("put"@),
        "quit"@ != "interactive"@,
        "quit"@ != "http"@,
        "interactive"@ != "http"@,
        "get"@ != "put"@,
{
    reveal_strlit("quit");
    reveal_strlit("interactive");
    reveal_strlit("http");
    reveal_strlit("get");
    reveal_strlit("put");
    assert("quit"@[0] == 'q');
    assert("interactive"@[0] == 'i');
    assert("http"@[0] == 'h');
    assert("get"@[0] == 'g');
    assert("put"@[0] == 'p');
}

/// The sentence of a command is read as that command.
pub proof fn lemma_parse_sentence(c: CommandView, allow_interactive: bool)
    requires
        spellable(c),
        c is EnterInteractive ==> allow_interactive,
    ensures
        parse_spec(sentence(c), allow_interactive) == Ok::<Option<CommandView>, ParseErrorView>(
            Some(c),
        ),
{
    lemma_keywords();
    let ts = sentence(c);
    match c {
        CommandView::Http(h) => {
            let rest = ts.skip(1).skip(1);
            assert(rest =~= seq![h.uri] + h.body);
            assert forall|i: int| 0 <= i < rest.len() implies !is_flag(#[trigger] rest[i]) by {
                if i > 0 {
                    assert(rest[i] == h.body[i - 1]);
                }
            }
            lemma_first_flag_is(rest, rest.len());
            assert(rest.skip(1) =~= h.body);
            assert(ts[1] == h.verb.word());
        },
        _ => {
            assert(ts.skip(1).len() == 0);
        },
    }
}

/// The first flag stands where `first_flag` says, and no word before it is
/// a flag.
pub proof fn lemma_first_flag(ts: Seq<Seq<char>>)
    ensures
        first_flag(ts) <= ts.len(),
        forall|i: int| 0 <= i < first_flag(ts) ==> !is_flag(#[trigger] ts[i]),
        first_flag(ts) < ts.len() ==> is_flag(ts[first_flag(ts) as int]),
    decreases ts.len(),
{
    if !(ts.len() == 0 || is_flag(ts[0])) {
        let rest = ts.skip(1);
        lemma_first_flag(rest);
        assert forall|i: int| 0 <= i < first_flag(ts) implies !is_flag(#[trigger] ts[i]) by {
            if i > 0 {
                assert(ts[i] == rest[i - 1]);
            }
        }
        if first_flag(ts) < ts.len() {
            assert(ts[first_flag(ts) as int] == rest[first_flag(rest) as int]);
        }
    }
}

/// Words that are read as a command are the sentence of that command, and
/// the command is one that a sentence can spell.
pub proof fn lemma_accepted_is_sentence(ts: Seq<Seq<char>>, allow_interactive: bool)
    ensures
        parse_spec(ts, allow_interactive) matches Ok(Some(c)) ==> ts == sentence(c) && spellable(c)
            && (c is EnterInteractive ==> allow_interactive),
        parse_spec(ts, allow_interactive) == Ok::<Option<CommandView>, ParseErrorView>(None)
            <==> ts.len() == 0,
{
    if let Ok(Some(c)) = parse_spec(ts, allow_interactive) {
        let rest = ts.skip(1);
        match c {
            CommandView::Http(h) => {
                let args = rest.skip(1);
                lemma_first_flag(args);
                assert(ts =~= sentence(c));
                assert forall|i: int| 0 <= i < h.body.len() implies !is_flag(
                    #[trigger] h.body[i],
                ) by {
                    assert(h.body[i] == args[i + 1]);
                }
            },
            _ => {
                assert(ts =~= sentence(c));
            },
        }
    }
}

fn same_text(t: &String, word: &str) -> (b: bool)
    ensures
        b == (t@ == word@),
{
    let w = String::from_str(word);
    t.eq(&w)
}

fn is_flag_token(t: &String) -> (b: bool)
    ensures
        b == is_flag(t@),
{
    let s = t.as_str();
    s.unicode_len() >= 2 && s.get_char(0) == '-'
}

fn flag_error(t: &String, topic: Topic) -> (e: ParseError)
    ensures
        e@ == flag_signal(t@, topic),
{
    if same_text(t, "-h") || same_text(t, "--help") {
        ParseError::HelpRequested(String::from_str(topic.help()))
    } else if same_text(t, "-V") || same_text(t, "--version") {
        ParseError::VersionRequested
    } else {
        ParseError::Grammar(GrammarError { kind: Violation::UnknownFlag, token: t.clone() })
    }
}

fn grammar_error(kind: Violation, token: String) -> (r: Result<Option<Command>, ParseError>)
    ensures
        parsed_view(r) == violation(kind, token@),
{
    Err(ParseError::Grammar(GrammarError { kind, token }))
}

fn read_bare(tokens: &Vec<String>, topic: Topic, command: Command) -> (r: Result<
    Option<Command>,
    ParseError,
>)
    requires
        tokens.len() >= 1,
    ensures
        parsed_view(r) == parse_bare(texts(tokens@).skip(1), topic, command@),
{
    if tokens.len() == 1 {
        Ok(Some(command))
    } else if is_flag_token(&tokens[1]) {
        Err(flag_error(&tokens[1], topic))
    } else {
        grammar_error(Violation::UnexpectedArgument, tokens[1].clone())
    }
}

fn read_call(tokens: &Vec<String>, verb: Verb) -> (r: Result<Option<Command>, ParseError>)
    requires
        tokens.len() >= 2,
    ensures
        parsed_view(r) == parse_call(verb, texts(tokens@).skip(2)),
{
    let ghost rest = texts(tokens@).skip(2);
    let n = tokens.len();
    let mut i: usize = 2;
    while i < n
        invariant
            2 <= i <= n,
            n == tokens.len(),
            rest == texts(tokens@).skip(2),
            forall|k: int| 0 <= k < i - 2 ==> !is_flag(#[trigger] rest[k]),
        decreases n - i,
    {
        if is_flag_token(&tokens[i]) {
            proof {
                lemma_first_flag_is(rest, (i - 2) as nat);
            }
            return Err(flag_error(&tokens[i], Topic::for_verb(verb)));
        }
        i = i + 1;
    }
    proof {
        lemma_first_flag_is(rest, rest.len());
    }
    if n == 2 || tokens[2].as_str().unicode_len() == 0 {
        return grammar_error(Violation::MissingArgument, String::from_str(verb.command_word()));
    }
    let uri = tokens[2].clone();
    let mut body: Vec<String> = Vec::new();
    let mut j: usize = 3;
    while j < n
        invariant
            3 <= j <= n,
            n == tokens.len(),
            rest == texts(tokens@).skip(2),
            texts(body@) == rest.subrange(1, j - 2),
        decreases n - j,
    {
        let word = tokens[j].clone();
        proof {
            lemma_texts_push(body@, word);
            assert(rest.subrange(1, j - 2).push(rest[j - 2]) =~= rest.subrange(1, j + 1 - 2));
        }
        body.push(word);
        j = j + 1;
    }
    assert(rest.subrange(1, n - 2) =~= rest.skip(1));
    Ok(Some(Command::Http(HttpCommand { verb, uri, body })))
}

fn read_http(tokens: &Vec<String>) -> (r: Result<Option<Command>, ParseError>)
    requires
        tokens.len() >= 1,
    ensures
        parsed_view(r) == parse_http(texts(tokens@).skip(1)),
{
    let ghost rest = texts(tokens@).skip(1);
    assert(tokens.len() >= 2 ==> rest.skip(1) =~= texts(tokens@).skip(2));
    if tokens.len() == 1 {
        grammar_error(Violation::MissingArgument, String::from_str("http"))
    } else if is_flag_token(&tokens[1]) {
        Err(flag_error(&tokens[1], Topic::Http))
    } else if same_text(&tokens[1], "get") {
        read_call(tokens, Verb::Get)
    } else if same_text(&tokens[1], "put") {
        read_call(tokens, Verb::Put)
    } else {
        grammar_error(Violation::UnknownCommand, tokens[1].clone())
    }
}

/// Reads a command from its words.
///
/// No words give `Ok(None)`. Otherwise the result is the command, or the
/// first reason, from the left, for which the words are none.
pub fn parse(tokens: &Vec<String>, allow_interactive: bool) -> (r: Result<
    Option<Command>,
    ParseError,
>)
    ensures
        parsed_view(r) == parse_spec(texts(tokens@), allow_interactive),
        r matches Ok(Some(c)) ==> c@.wf(),
{
    if tokens.len() == 0 {
        Ok(None)
    } else if is_flag_token(&tokens[0]) {
        let topic = if allow_interactive {
            Topic::Entry
        } else {
            Topic::Shell
        };
        Err(flag_error(&tokens[0], topic))
    } else if same_text(&tokens[0], "quit") {
        read_bare(tokens, Topic::Quit, Command::Quit)
    } else if allow_interactive && same_text(&tokens[0], "interactive") {
        read_bare(tokens, Topic::Interactive, Command::EnterInteractive)
    } else if same_text(&tokens[0], "http") {
        read_http(tokens)
    } else {
        grammar_error(Violation::UnknownCommand, tokens[0].clone())
    }
}

} // verus!
