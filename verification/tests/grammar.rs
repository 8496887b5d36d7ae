use qcli::command::{Command, HttpCommand, Verb};
use qcli::grammar::{
    parse, GrammarError, ParseError, Topic, Violation, HELP_ENTRY, HELP_GET, HELP_HTTP,
    HELP_INTERACTIVE, HELP_PUT, HELP_QUIT, HELP_SHELL, VERSION,
};

fn tokens(words: &[&str]) -> Vec<String> {
    words.iter().map(|w| w.to_string()).collect()
}

fn violation(kind: Violation, token: &str) -> Result<Option<Command>, ParseError> {
    Err(ParseError::Grammar(GrammarError { kind, token: token.to_string() }))
}

fn help(text: &str) -> Result<Option<Command>, ParseError> {
    Err(ParseError::HelpRequested(text.to_string()))
}

#[test]
fn no_words_are_no_command() {
    assert_eq!(parse(&tokens(&[]), false), Ok(None));
    assert_eq!(parse(&tokens(&[]), true), Ok(None));
}

#[test]
fn quit_is_read() {
    assert_eq!(parse(&tokens(&["quit"]), false), Ok(Some(Command::Quit)));
    assert_eq!(parse(&tokens(&["quit"]), true), Ok(Some(Command::Quit)));
}

#[test]
fn quit_takes_no_argument() {
    assert_eq!(
        parse(&tokens(&["quit", "now"]), false),
        violation(Violation::UnexpectedArgument, "now")
    );
}

#[test]
fn get_with_an_address() {
    assert_eq!(
        parse(&tokens(&["http", "get", "https://example.test/a"]), false),
        Ok(Some(Command::Http(HttpCommand {
            verb: Verb::Get,
            uri: "https://example.test/a".to_string(),
            body: vec![],
        })))
    );
}

#[test]
fn put_with_a_body() {
    assert_eq!(
        parse(&tokens(&["http", "put", "https://example.test/a", "hello", "world"]), false),
        Ok(Some(Command::Http(HttpCommand {
            verb: Verb::Put,
            uri: "https://example.test/a".to_string(),
            body: tokens(&["hello", "world"]),
        })))
    );
}

#[test]
fn unknown_command() {
    assert_eq!(parse(&tokens(&["bogus"]), false), violation(Violation::UnknownCommand, "bogus"));
    assert_eq!(
        parse(&tokens(&["bogus", "quit"]), true),
        violation(Violation::UnknownCommand, "bogus")
    );
    assert_eq!(parse(&tokens(&["QUIT"]), false), violation(Violation::UnknownCommand, "QUIT"));
}

#[test]
fn unknown_verb() {
    assert_eq!(
        parse(&tokens(&["http", "post", "x"]), false),
        violation(Violation::UnknownCommand, "post")
    );
}

#[test]
fn missing_verb() {
    assert_eq!(parse(&tokens(&["http"]), false), violation(Violation::MissingArgument, "http"));
}

#[test]
fn missing_address() {
    assert_eq!(
        parse(&tokens(&["http", "get"]), false),
        violation(Violation::MissingArgument, "get")
    );
    assert_eq!(
        parse(&tokens(&["http", "put"]), false),
        violation(Violation::MissingArgument, "put")
    );
}

#[test]
fn empty_address_is_missing() {
    assert_eq!(
        parse(&tokens(&["http", "get", ""]), false),
        violation(Violation::MissingArgument, "get")
    );
}

#[test]
fn unknown_flag() {
    assert_eq!(parse(&tokens(&["-x"]), false), violation(Violation::UnknownFlag, "-x"));
    assert_eq!(
        parse(&tokens(&["-c", "cli.yaml", "quit"]), false),
        violation(Violation::UnknownFlag, "-c")
    );
    assert_eq!(parse(&tokens(&["quit", "--now"]), false), violation(Violation::UnknownFlag, "--now"));
    assert_eq!(parse(&tokens(&["http", "--fast"]), false), violation(Violation::UnknownFlag, "--fast"));
    assert_eq!(
        parse(&tokens(&["http", "get", "x", "y", "-z", "-h"]), false),
        violation(Violation::UnknownFlag, "-z")
    );
    assert_eq!(parse(&tokens(&["--"]), false), violation(Violation::UnknownFlag, "--"));
}

#[test]
fn a_lone_hyphen_is_a_word() {
    assert_eq!(parse(&tokens(&["-"]), false), violation(Violation::UnknownCommand, "-"));
    assert_eq!(
        parse(&tokens(&["http", "put", "-", "-"]), false),
        Ok(Some(Command::Http(HttpCommand {
            verb: Verb::Put,
            uri: "-".to_string(),
            body: tokens(&["-"]),
        })))
    );
}

#[test]
fn help_at_each_level() {
    assert_eq!(parse(&tokens(&["-h"]), false), help(HELP_SHELL));
    assert_eq!(parse(&tokens(&["--help"]), false), help(HELP_SHELL));
    assert_eq!(parse(&tokens(&["--help"]), true), help(HELP_ENTRY));
    assert_eq!(parse(&tokens(&["quit", "-h"]), false), help(HELP_QUIT));
    assert_eq!(parse(&tokens(&["interactive", "--help"]), true), help(HELP_INTERACTIVE));
    assert_eq!(parse(&tokens(&["http", "--help"]), false), help(HELP_HTTP));
    assert_eq!(parse(&tokens(&["http", "get", "-h"]), false), help(HELP_GET));
    assert_eq!(parse(&tokens(&["http", "put", "x", "y", "--help"]), false), help(HELP_PUT));
}

#[test]
fn version_at_each_level() {
    assert_eq!(parse(&tokens(&["-V"]), false), Err(ParseError::VersionRequested));
    assert_eq!(parse(&tokens(&["--version"]), true), Err(ParseError::VersionRequested));
    assert_eq!(parse(&tokens(&["quit", "-V"]), false), Err(ParseError::VersionRequested));
    assert_eq!(parse(&tokens(&["http", "-V"]), false), Err(ParseError::VersionRequested));
    assert_eq!(
        parse(&tokens(&["http", "get", "x", "--version"]), false),
        Err(ParseError::VersionRequested)
    );
}

#[test]
fn the_first_violation_wins() {
    assert_eq!(
        parse(&tokens(&["quit", "now", "--help"]), false),
        violation(Violation::UnexpectedArgument, "now")
    );
    assert_eq!(
        parse(&tokens(&["bogus", "--help"]), false),
        violation(Violation::UnknownCommand, "bogus")
    );
    assert_eq!(parse(&tokens(&["http", "get", "-h", "-z"]), false), help(HELP_GET));
}

#[test]
fn interactive_only_where_allowed() {
    assert_eq!(parse(&tokens(&["interactive"]), true), Ok(Some(Command::EnterInteractive)));
    assert_eq!(
        parse(&tokens(&["interactive"]), false),
        violation(Violation::UnknownCommand, "interactive")
    );
    assert_eq!(
        parse(&tokens(&["interactive", "x"]), true),
        violation(Violation::UnexpectedArgument, "x")
    );
}

#[test]
fn messages_name_the_word() {
    let message = |kind: Violation, token: &str| {
        GrammarError { kind, token: token.to_string() }.message()
    };
    assert_eq!(message(Violation::UnknownCommand, "bogus"), "unknown command 'bogus'");
    assert_eq!(message(Violation::MissingArgument, "http"), "missing argument after 'http'");
    assert_eq!(message(Violation::UnknownFlag, "-x"), "unknown flag '-x'");
    assert_eq!(message(Violation::UnexpectedArgument, "now"), "unexpected argument 'now'");
}

#[test]
fn what_is_shown_for_each_reason() {
    let e = ParseError::Grammar(GrammarError {
        kind: Violation::UnknownCommand,
        token: "bogus".to_string(),
    });
    assert_eq!(e.message(), "unknown command 'bogus'");
    assert!(e.is_violation());
    let e = ParseError::HelpRequested(HELP_QUIT.to_string());
    assert_eq!(e.message(), HELP_QUIT);
    assert!(!e.is_violation());
    let e = ParseError::VersionRequested;
    assert_eq!(e.message(), VERSION);
    assert_eq!(e.message(), "cli 0.0.1");
    assert!(!e.is_violation());
}

#[test]
fn each_topic_has_its_page() {
    assert_eq!(Topic::Entry.help(), HELP_ENTRY);
    assert_eq!(Topic::Shell.help(), HELP_SHELL);
    assert_eq!(Topic::Quit.help(), HELP_QUIT);
    assert_eq!(Topic::Interactive.help(), HELP_INTERACTIVE);
    assert_eq!(Topic::Http.help(), HELP_HTTP);
    assert_eq!(Topic::Get.help(), HELP_GET);
    assert_eq!(Topic::Put.help(), HELP_PUT);
    assert_eq!(Topic::for_verb(Verb::Get), Topic::Get);
    assert_eq!(Topic::for_verb(Verb::Put), Topic::Put);
    assert!(HELP_SHELL.starts_with("usage: "));
    assert!(!HELP_SHELL.contains("interactive"));
    assert!(HELP_ENTRY.contains("interactive"));
}

#[test]
fn verbs_have_their_command_words() {
    assert_eq!(Verb::Get.command_word(), "get");
    assert_eq!(Verb::Put.command_word(), "put");
}
