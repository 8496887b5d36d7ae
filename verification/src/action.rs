//! What the shell asks of its surroundings: lines to print, calls to make,
//! changes to the terminal.

use crate::http::{HttpRequest, HttpRequestView};
use vstd::prelude::*;

verus! {

/// Where a line is printed.
#[derive(Clone, Copy, Debug, PartialEq, Eq, Structural)]
pub enum Stream {
    Stdout,
    Stderr,
}

/// A line to print.
#[derive(Clone, Debug, PartialEq, Eq)]
pub struct Output {
    pub stream: Stream,
    pub text: String,
}

/// What an `Output` holds.
pub struct OutputView {
    pub stream: Stream,
    pub text: Seq<char>,
}

impl View for Output {
    type V = OutputView;

    open spec fn view(&self) -> OutputView {
        OutputView { stream: self.stream, text: self.text@ }
    }
}

/// A line for standard output.
pub open spec fn to_stdout(text: Seq<char>) -> OutputView {
    OutputView { stream: Stream::Stdout, text }
}

/// A line for standard error.
pub open spec fn to_stderr(text: Seq<char>) -> OutputView {
    OutputView { stream: Stream::Stderr, text }
}

/// One thing to do, in the order given.
#[derive(Clone, Debug, PartialEq, Eq)]
pub enum Action {
    /// Print the line.
    Print(Output),
    /// Make the call, once, and print what `report` makes of its outcome.
    Call(HttpRequest),
    /// Run the read loop until it ends.
    EnterLoop,
    /// Show the text as the prompt.
    SetPrompt(String),
    /// Write the history out.
    SaveHistory,
}

/// What an `Action` holds.
pub enum ActionView {
    Print(OutputView),
    Call(HttpRequestView),
    EnterLoop,
    SetPrompt(Seq<char>),
    SaveHistory,
}

impl View for Action {
    type V = ActionView;

    open spec fn view(&self) -> ActionView {
        match self {
            Action::Print(o) => ActionView::Print(o@),
            Action::Call(r) => ActionView::Call(r@),
            Action::EnterLoop => ActionView::EnterLoop,
            Action::SetPrompt(t) => ActionView::SetPrompt(t@),
            Action::SaveHistory => ActionView::SaveHistory,
        }
    }
}

impl ActionView {
    /// The action is a line to print or a call to make: neither the prompt
    /// nor the history is touched by it.
    pub open spec fn leaves_terminal(self) -> bool {
        self is Print || self is Call
    }
}

/// What a list of actions holds.
pub open spec fn action_views(v: Seq<Action>) -> Seq<ActionView> {
    Seq::new(v.len(), |i: int| v[i]@)
}

/// The actions of a list with one action more.
pub proof fn lemma_action_views_push(v: Seq<Action>, a: Action)
    ensures
        action_views(v.push(a)) == action_views(v).push(a@),
{
    assert(action_views(v.push(a)) =~= action_views(v).push(a@));
}

/// A line for standard output.
pub fn print_out(text: String) -> (a: Action)
    ensures
        a@ == ActionView::Print(to_stdout(text@)),
{
    Action::Print(Output { stream: Stream::Stdout, text })
}

/// A line for standard error.
pub fn print_err(text: String) -> (a: Action)
    ensures
        a@ == ActionView::Print(to_stderr(text@)),
{
    Action::Print(Output { stream: Stream::Stderr, text })
}

} // verus!
