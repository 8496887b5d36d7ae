//! The read loop as a state machine: from the session and an event of the
//! terminal to the next session and what is to be done.

use crate::action::{
    action_views, lemma_action_views_push, print_err, print_out, to_stderr, to_stdout, Action,
    ActionView,
};
use crate::command::CommandView;
use crate::dispatch::{
    dispatch, dispatch_spec, lemma_dispatch_leaves_terminal, lemma_exit_only_on_command,
    ParseOutcome,
};
use crate::grammar::{lemma_accepted_is_sentence, lemma_parse_sentence, parse_spec};
use crate::prompt::{
    applied_all, coalesce, latest, lemma_coalescing, update_texts, PromptUpdate,
};
use crate::words::words;
use vstd::prelude::*;
use vstd::string::*;

verus! {

/// How long one poll of the terminal waits for a line, in milliseconds: the
/// bound on how late a prompt update is shown.
pub const POLL_MILLIS: u64 = 1000;

/// The prompt that a session starts with.
pub const INITIAL_PROMPT: &'static str = "cli> ";

/// What is printed when the terminal signals the end of input.
pub const EOF_HINT: &'static str = "Use the \"quit\" command to exit the application.";

/// Whether the loop goes on.
#[derive(Clone, Copy, Debug, PartialEq, Eq, Structural)]
pub enum Phase {
    Running,
    Exiting,
}

/// What one poll of the terminal gave.
#[derive(Clone, Debug, PartialEq, Eq)]
pub enum Event {
    /// A line was entered.
    Line(String),
    /// No line came in time; the updates are those queued since the last
    /// such event, oldest first.
    TimedOut(Vec<PromptUpdate>),
    /// The terminal signalled the end of input.
    Eof,
    /// A signal was delivered; the text names it.
    Signal(String),
    /// The terminal failed; the text says how.
    SourceError(String),
}

/// What an `Event` holds.
pub enum EventView {
    Line(Seq<char>),
    TimedOut(Seq<Seq<char>>),
    Eof,
    Signal(Seq<char>),
    SourceError(Seq<char>),
}

impl View for Event {
    type V = EventView;

    open spec fn view(&self) -> EventView {
        match self {
            Event::Line(l) => EventView::Line(l@),
            Event::TimedOut(b) => EventView::TimedOut(update_texts(b@)),
            Event::Eof => EventView::Eof,
            Event::Signal(s) => EventView::Signal(s@),
            Event::SourceError(e) => EventView::SourceError(e@),
        }
    }
}

/// An interactive session: its phase, and the text of its prompt.
#[derive(Clone, Debug, PartialEq, Eq)]
pub struct Session {
    phase: Phase,
    prompt: String,
}

/// What a `Session` holds.
pub struct SessionView {
    pub phase: Phase,
    pub prompt: Seq<char>,
}

/// A step of the loop: the session after it, and what is to be done.
pub struct StepView {
    pub next: SessionView,
    pub actions: Seq<ActionView>,
}

/// The line printed for a signal.
pub open spec fn signal_text(name: Seq<char>) -> Seq<char> {
    "Caught signal: "@ + name
}

/// The line printed for a failure of the terminal.
pub open spec fn source_error_text(error: Seq<char>) -> Seq<char> {
    "Failed on readline: "@ + error
}

/// The step that a running session takes on an event.
///
/// A line is dispatched; where that ends in `Exit` the history is written
/// out and the session is exiting. A timeout applies the newest of the
/// queued updates as the prompt, where there is one. The end of input, a
/// signal and a failure of the terminal are each told in one line. A session
/// that is exiting does nothing more.
pub open spec fn step_spec(s: SessionView, e: EventView) -> StepView {
    if s.phase == Phase::Exiting {
        StepView { next: s, actions: seq![] }
    } else {
        match e {
            EventView::Line(line) => {
                let d = dispatch_spec(line, false);
                if d.outcome is Exit {
                    StepView {
                        next: SessionView { phase: Phase::Exiting, prompt: s.prompt },
                        actions: d.actions.push(ActionView::SaveHistory),
                    }
                } else {
                    StepView { next: s, actions: d.actions }
                }
            },
            EventView::TimedOut(batch) => match latest(batch) {
                Some(text) => StepView {
                    next: SessionView { phase: s.phase, prompt: text },
                    actions: seq![ActionView::SetPrompt(text)],
                },
                None => StepView { next: s, actions: seq![] },
            },
            EventView::Eof => StepView {
                next: s,
                actions: seq![ActionView::Print(to_stdout(EOF_HINT@))],
            },
            EventView::Signal(name) => StepView {
                next: s,
                actions: seq![ActionView::Print(to_stdout(signal_text(name)))],
            },
            EventView::SourceError(error) => StepView {
                next: s,
                actions: seq![ActionView::Print(to_stderr(source_error_text(error)))],
            },
        }
    }
}

/// The update that a step applies: for a running session on a timeout, the
/// newest of the queued updates.
pub open spec fn applied_update(s: SessionView, e: EventView) -> Option<Seq<char>> {
    match e {
        EventView::TimedOut(batch) if s.phase == Phase::Running => latest(batch),
        _ => None,
    }
}

/// The prompt changes only when a poll times out with updates queued, and
/// then to the newest of them, once: to set it is all that is done. On any
/// other step the prompt stays and no action sets it.
pub proof fn lemma_prompt_follows_newest(s: SessionView, e: EventView)
    ensures
        match applied_update(s, e) {
            Some(text) => step_spec(s, e).next.prompt == text && step_spec(s, e).actions
                == seq![ActionView::SetPrompt(text)],
            None => step_spec(s, e).next.prompt == s.prompt && forall|i: int|
                0 <= i < step_spec(s, e).actions.len() ==> !(#[trigger] step_spec(s, e).actions[i]
                    is SetPrompt),
        },
{
    if s.phase == Phase::Running {
        if let EventView::Line(line) = e {
            lemma_dispatch_leaves_terminal(words(line));
            let d = dispatch_spec(line, false);
            assert forall|i: int| 0 <= i < step_spec(s, e).actions.len() implies !(
            #[trigger] step_spec(s, e).actions[i] is SetPrompt) by {
                if i < d.actions.len() {
                    assert(d.actions[i].leaves_terminal());
                }
            }
        }
    }
}

/// To apply a batch of queued updates is to apply its newest alone: the
/// step on a timeout with the batch is the step on a timeout with the last
/// of the batch, and the prompt after it is the prompt after each update of
/// the batch in turn.
pub proof fn lemma_step_coalesces(s: SessionView, batch: Seq<Seq<char>>)
    requires
        batch.len() > 0,
    ensures
        step_spec(s, EventView::TimedOut(batch)) == step_spec(
            s,
            EventView::TimedOut(seq![batch.last()]),
        ),
        s.phase == Phase::Running ==> step_spec(s, EventView::TimedOut(batch)).next.prompt
            == applied_all(s.prompt, batch),
{
    lemma_coalescing(s.prompt, batch);
}

/// The lines on which a running session leaves the loop: those whose words
/// are `quit` alone.
pub open spec fn is_quit(e: EventView) -> bool {
    e matches EventView::Line(line) && words(line) == seq!["quit"@]
}

/// A running session leaves the loop on `quit` and on nothing else, and
/// then to write the history out is all that is done; a session that is
/// exiting stays as it is.
pub proof fn lemma_leaves_on_quit(s: SessionView, e: EventView)
    ensures
        s.phase == Phase::Exiting ==> step_spec(s, e).next == s,
        s.phase == Phase::Running ==> (step_spec(s, e).next.phase == Phase::Exiting <==> is_quit(
            e,
        )),
        s.phase == Phase::Running && is_quit(e) ==> step_spec(s, e).actions
            == seq![ActionView::SaveHistory],
{
    if s.phase == Phase::Running {
        if let EventView::Line(line) = e {
            lemma_exit_only_on_command(parse_spec(words(line), false));
            lemma_accepted_is_sentence(words(line), false);
            if is_quit(e) {
                lemma_parse_sentence(CommandView::Quit, false);
            }
            if dispatch_spec(line, false).outcome is Exit {
                assert(dispatch_spec(line, false).actions.push(ActionView::SaveHistory)
                    =~= seq![ActionView::SaveHistory]);
            }
        }
    }
}

impl View for Session {
    type V = SessionView;

    closed spec fn view(&self) -> SessionView {
        SessionView { phase: self.phase, prompt: self.prompt@ }
    }
}

fn one(a: Action) -> (v: Vec<Action>)
    ensures
        action_views(v@) == seq![a@],
{
    let mut v: Vec<Action> = Vec::new();
    v.push(a);
    assert(action_views(v@) =~= seq![a@]);
    v
}

fn none() -> (v: Vec<Action>)
    ensures
        action_views(v@) == Seq::<ActionView>::empty(),
{
    let v: Vec<Action> = Vec::new();
    assert(action_views(v@) =~= Seq::<ActionView>::empty());
    v
}

impl Session {
    /// A running session with the initial prompt.
    pub fn new() -> (s: Session)
        ensures
            s@ == (SessionView { phase: Phase::Running, prompt: INITIAL_PROMPT@ }),
    {
        Session { phase: Phase::Running, prompt: String::from_str(INITIAL_PROMPT) }
    }

    /// The phase of the session.
    pub fn phase(&self) -> (p: Phase)
        ensures
            p == self@.phase,
    {
        self.phase
    }

    /// Whether the loop goes on.
    pub fn is_running(&self) -> (b: bool)
        ensures
            b == (self@.phase == Phase::Running),
    {
        match self.phase {
            Phase::Running => true,
            Phase::Exiting => false,
        }
    }

    /// The text of the prompt.
    pub fn prompt(&self) -> (p: &str)
        ensures
            p@ == self@.prompt,
    {
        self.prompt.as_str()
    }

    /// Takes the step for `event` and gives what is to be done, in order.
    pub fn step(&mut self, event: Event) -> (actions: Vec<Action>)
        ensures
            final(self)@ == step_spec(old(self)@, event@).next,
            action_views(actions@) == step_spec(old(self)@, event@).actions,
    {
        if !self.is_running() {
            return none();
        }
        match event {
            Event::Line(line) => {
                let d = dispatch(line.as_str(), false);
                let mut actions = d.actions;
                match d.outcome {
                    ParseOutcome::Exit => {
                        proof {
                            lemma_action_views_push(actions@, Action::SaveHistory);
                        }
                        actions.push(Action::SaveHistory);
                        self.phase = Phase::Exiting;
                    },
                    _ => {},
                }
                actions
            },
            Event::TimedOut(batch) => {
                match coalesce(batch) {
                    Some(update) => {
                        self.prompt = update.text.clone();
                        one(Action::SetPrompt(update.text))
                    },
                    None => none(),
                }
            },
            Event::Eof => one(print_out(String::from_str(EOF_HINT))),
            Event::Signal(name) => {
                let mut text = String::from_str("Caught signal: ");
                text.append(name.as_str());
                one(print_out(text))
            },
            Event::SourceError(error) => {
                let mut text = String::from_str("Failed on readline: ");
                text.append(error.as_str());
                one(print_err(text))
            },
        }
    }
}

} // verus!
