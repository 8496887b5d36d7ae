//! The commands of the shell.

use crate::words::texts;
use vstd::prelude::*;

verus! {

/// The method of an HTTP command.
#[derive(Clone, Copy, Debug, PartialEq, Eq, Structural)]
pub enum Verb {
    Get,
    Put,
}

/// An HTTP command: a verb, the address, and the words of the body.
#[derive(Clone, Debug, PartialEq, Eq)]
pub struct HttpCommand {
    pub verb: Verb,
    pub uri: String,
    pub body: Vec<String>,
}

/// A command.
#[derive(Clone, Debug, PartialEq, Eq)]
pub enum Command {
    /// Leave the shell.
    Quit,
    /// Make an HTTP call.
    Http(HttpCommand),
    /// Enter the read loop.
    EnterInteractive,
}

/// What an `HttpCommand` holds.
pub struct HttpCommandView {
    pub verb: Verb,
    pub uri: Seq<char>,
    pub body: Seq<Seq<char>>,
}

/// What a `Command` holds.
pub enum CommandView {
    Quit,
    Http(HttpCommandView),
    EnterInteractive,
}

impl View for HttpCommand {
    type V = HttpCommandView;

    open spec fn view(&self) -> HttpCommandView {
        HttpCommandView {
            verb: self.verb,
            uri: self.uri@,
            body: texts(self.body@),
        }
    }
}

impl View for Command {
    type V = CommandView;

    open spec fn view(&self) -> CommandView {
        match self {
            Command::Quit => CommandView::Quit,
            Command::Http(c) => CommandView::Http(c@),
            Command::EnterInteractive => CommandView::EnterInteractive,
        }
    }
}

impl HttpCommandView {
    /// The address is not empty.
    pub open spec fn wf(self) -> bool {
        self.uri.len() > 0
    }
}

impl CommandView {
    /// An HTTP command in it is well formed.
    pub open spec fn wf(self) -> bool {
        match self {
            CommandView::Http(c) => c.wf(),
            _ => true,
        }
    }
}

impl Verb {
    /// The word that selects the verb in a command line.
    pub open spec fn word(self) -> Seq<char> {
        match self {
            Verb::Get => "get"@,
            Verb::Put => "put"@,
        }
    }

    /// The method's name as a request carries it.
    pub open spec fn method(self) -> Seq<char> {
        match self {
            Verb::Get => "GET"@,
            Verb::Put => "PUT"@,
        }
    }

    /// The word that selects the verb in a command line.
    pub fn command_word(&self) -> (r: &'static str)
        ensures
            r@ == self.word(),
    {
        match self {
            Verb::Get => "get",
            Verb::Put => "put",
        }
    }

    /// The method's name, in upper case.
    pub fn name(&self) -> (r: &'static str)
        ensures
            r@ == self.method(),
    {
        match self {
            Verb::Get => "GET",
            Verb::Put => "PUT",
        }
    }
}

} // verus!
