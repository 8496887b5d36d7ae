//! The dispatcher: from a line to what is to be done for it.

use crate::action::{
    action_views, lemma_action_views_push, print_out, to_stderr, to_stdout, Action, ActionView,
    Output, OutputView, Stream,
};
use crate::command::{Command, CommandView};
use crate::grammar::{
    lemma_accepted_is_sentence, lemma_parse_sentence, parse, parse_spec, parsed_view, ParseError,
    ParseErrorView, Parsed,
};
use crate::http::{failure_text, FormattedResponse, HttpError};
use crate::words::{
    all_space, is_word, lemma_words_after_space, lemma_words_ignore_padding, lemma_words_of_word,
    split_words, texts, words,
};
use vstd::prelude::*;
use vstd::string::*;

verus! {

/// How the handling of one line ended.
#[derive(Clone, Debug, PartialEq, Eq)]
pub enum ParseOutcome {
    /// Stay in the loop.
    Continue,
    /// Leave the loop.
    Exit,
    /// Report the error and stay in the loop.
    Error(ParseError),
}

/// What a `ParseOutcome` holds.
pub enum ParseOutcomeView {
    Continue,
    Exit,
    Error(ParseErrorView),
}

impl View for ParseOutcome {
    type V = ParseOutcomeView;

    open spec fn view(&self) -> ParseOutcomeView {
        match self {
            ParseOutcome::Continue => ParseOutcomeView::Continue,
            ParseOutcome::Exit => ParseOutcomeView::Exit,
            ParseOutcome::Error(e) => ParseOutcomeView::Error(e@),
        }
    }
}

/// What is to be done for one line, and how its handling ends.
#[derive(Clone, Debug, PartialEq, Eq)]
pub struct Dispatch {
    pub outcome: ParseOutcome,
    pub actions: Vec<Action>,
}

/// What a `Dispatch` holds.
pub struct DispatchView {
    pub outcome: ParseOutcomeView,
    pub actions: Seq<ActionView>,
}

impl View for Dispatch {
    type V = DispatchView;

    open spec fn view(&self) -> DispatchView {
        DispatchView { outcome: self.outcome@, actions: action_views(self.actions@) }
    }
}

/// What is done for a sequence of words that was read as `p`.
///
/// No words: nothing. `quit`: nothing, and the loop is left. `interactive`:
/// the read loop runs, and the shell is left after it. An HTTP command: its
/// echo is printed, then the call is made. No command: what is shown for
/// the reason is printed.
pub open spec fn dispatch_parsed(p: Parsed) -> DispatchView {
    match p {
        Ok(None) => DispatchView { outcome: ParseOutcomeView::Continue, actions: seq![] },
        Ok(Some(CommandView::Quit)) => DispatchView {
            outcome: ParseOutcomeView::Exit,
            actions: seq![],
        },
        Ok(Some(CommandView::EnterInteractive)) => DispatchView {
            outcome: ParseOutcomeView::Exit,
            actions: seq![ActionView::EnterLoop],
        },
        Ok(Some(CommandView::Http(c))) => DispatchView {
            outcome: ParseOutcomeView::Continue,
            actions: seq![ActionView::Print(to_stdout(c.echo())), ActionView::Call(c.request())],
        },
        Err(e) => DispatchView {
            outcome: ParseOutcomeView::Continue,
            actions: seq![ActionView::Print(OutputView { stream: stream_of(e), text: e.message() })],
        },
    }
}

/// Where what is shown for `e` goes: a violation to standard error, help
/// and the version to standard output.
pub open spec fn stream_of(e: ParseErrorView) -> Stream {
    if e is Grammar {
        Stream::Stderr
    } else {
        Stream::Stdout
    }
}

/// The exit code of a run of one command: 1 where the words violate the
/// grammar, else 0.
pub open spec fn exit_code_spec(p: Parsed) -> u8 {
    if p matches Err(ParseErrorView::Grammar(_)) {
        1
    } else {
        0
    }
}

/// What is done for the line `line`: for its words, as the grammar reads
/// them.
pub open spec fn dispatch_spec(line: Seq<char>, allow_interactive: bool) -> DispatchView {
    dispatch_parsed(parse_spec(words(line), allow_interactive))
}

impl DispatchView {
    /// The handling ends in `Continue` or `Exit`.
    pub open spec fn settled(self) -> bool {
        self.outcome is Continue || self.outcome is Exit
    }

    /// Each action is a line to print or a call to make: nothing that is
    /// done touches the prompt or the history.
    pub open spec fn leaves_terminal(self) -> bool {
        forall|i: int|
            0 <= i < self.actions.len() ==> (#[trigger] self.actions[i]).leaves_terminal()
    }
}

/// Whether `p` is the command to enter the read loop.
pub open spec fn enters_loop(p: Parsed) -> bool {
    p matches Ok(Some(c)) && c is EnterInteractive
}

/// Whatever was read, its handling ends in `Continue` or `Exit`; and but
/// for `interactive`, which hands the terminal to the read loop, nothing
/// that is done touches the prompt or the history.
pub proof fn lemma_dispatch_settled(p: Parsed)
    ensures
        dispatch_parsed(p).settled(),
        dispatch_parsed(p).leaves_terminal() <==> !enters_loop(p),
{
    let d = dispatch_parsed(p);
    if enters_loop(p) {
        assert(!d.actions[0].leaves_terminal());
    }
}

/// Where entering the read loop is not allowed, nothing that is done for a
/// line touches the prompt or the history.
pub proof fn lemma_dispatch_leaves_terminal(ts: Seq<Seq<char>>)
    ensures
        !enters_loop(parse_spec(ts, false)),
        dispatch_parsed(parse_spec(ts, false)).leaves_terminal(),
{
    lemma_accepted_is_sentence(ts, false);
    lemma_dispatch_settled(parse_spec(ts, false));
}

/// The handling of a line ends in `Exit` only for `quit` and for
/// `interactive`.
pub proof fn lemma_exit_only_on_command(p: Parsed)
    ensures
        dispatch_parsed(p).outcome is Exit <==> (p matches Ok(Some(c)) && (c is Quit
            || c is EnterInteractive)),
{
}

/// `quit` ends the loop, whatever white space stands around it: nothing is
/// done for the line, and its handling ends in `Exit`.
pub proof fn lemma_quit_exits(pre: Seq<char>, post: Seq<char>, allow_interactive: bool)
    requires
        all_space(pre),
        all_space(post),
    ensures
        words(pre + "quit"@ + post) == seq!["quit"@],
        dispatch_spec(pre + "quit"@ + post, allow_interactive) == (DispatchView {
            outcome: ParseOutcomeView::Exit,
            actions: seq![],
        }),
{
    reveal_strlit("quit");
    assert(is_word("quit"@)) by {
        assert("quit"@ =~= seq!['q', 'u', 'i', 't']);
    }
    lemma_words_ignore_padding(pre, "quit"@, post);
    lemma_words_of_word("quit"@);
    lemma_parse_sentence(CommandView::Quit, allow_interactive);
}

/// A line without a word asks for nothing: nothing is done, and its
/// handling ends in `Continue`.
pub proof fn lemma_blank_line(line: Seq<char>, allow_interactive: bool)
    requires
        all_space(line),
    ensures
        dispatch_spec(line, allow_interactive) == (DispatchView {
            outcome: ParseOutcomeView::Continue,
            actions: seq![],
        }),
{
    assert(line + Seq::<char>::empty() =~= line);
    lemma_words_after_space(line, Seq::<char>::empty());
}

/// What is to be done for the result of reading a sequence of words.
pub fn act(parsed: Result<Option<Command>, ParseError>) -> (d: Dispatch)
    ensures
        d@ == dispatch_parsed(parsed_view(parsed)),
        d@.settled(),
        d@.leaves_terminal() <==> !enters_loop(parsed_view(parsed)),
{
    let mut actions: Vec<Action> = Vec::new();
    let ghost none = action_views(actions@);
    assert(none =~= seq![]);
    let outcome = match parsed {
        Ok(None) => ParseOutcome::Continue,
        Ok(Some(Command::Quit)) => ParseOutcome::Exit,
        Ok(Some(Command::EnterInteractive)) => {
            proof {
                lemma_action_views_push(actions@, Action::EnterLoop);
            }
            actions.push(Action::EnterLoop);
            ParseOutcome::Exit
        },
        Ok(Some(Command::Http(c))) => {
            let echo = print_out(c.echo());
            let call = Action::Call(c.request());
            proof {
                lemma_action_views_push(actions@, echo);
                lemma_action_views_push(actions@.push(echo), call);
            }
            actions.push(echo);
            actions.push(call);
            ParseOutcome::Continue
        },
        Err(e) => {
            let stream = if e.is_violation() {
                Stream::Stderr
            } else {
                Stream::Stdout
            };
            let a = Action::Print(Output { stream, text: e.message() });
            proof {
                lemma_action_views_push(actions@, a);
            }
            actions.push(a);
            ParseOutcome::Continue
        },
    };
    let d = Dispatch { outcome, actions };
    proof {
        assert(d@.actions =~= dispatch_parsed(parsed_view(parsed)).actions);
        lemma_dispatch_settled(parsed_view(parsed));
    }
    d
}

/// The exit code of a run of one command that was read as `parsed`.
pub fn exit_code(parsed: &Result<Option<Command>, ParseError>) -> (code: u8)
    ensures
        code == exit_code_spec(parsed_view(*parsed)),
{
    match parsed {
        Err(ParseError::Grammar(_)) => 1,
        _ => 0,
    }
}

/// What is to be done for a command given by its words.
pub fn dispatch_words(tokens: &Vec<String>, allow_interactive: bool) -> (d: Dispatch)
    ensures
        d@ == dispatch_parsed(parse_spec(texts(tokens@), allow_interactive)),
        d@.settled(),
        !allow_interactive ==> d@.leaves_terminal(),
{
    proof {
        lemma_dispatch_leaves_terminal(texts(tokens@));
    }
    act(parse(tokens, allow_interactive))
}

/// What is to be done for a line.
pub fn dispatch(line: &str, allow_interactive: bool) -> (d: Dispatch)
    ensures
        d@ == dispatch_spec(line@, allow_interactive),
        d@.settled(),
        !allow_interactive ==> d@.leaves_terminal(),
{
    let tokens = split_words(line);
    dispatch_words(&tokens, allow_interactive)
}

/// The line that reports the outcome of a call: the text of the response
/// on standard output, or the message of the failure on standard error.
pub fn report(result: &Result<FormattedResponse, HttpError>) -> (o: Output)
    ensures
        match *result {
            Ok(f) => o@ == to_stdout(f.text@),
            Err(e) => o@ == to_stderr(failure_text(e.cause@)),
        },
{
    match result {
        Ok(f) => Output { stream: Stream::Stdout, text: f.text.clone() },
        Err(e) => Output { stream: Stream::Stderr, text: e.message() },
    }
}

} // verus!
