//! The HTTP action: the request that a command asks for, the line that
//! echoes it, and what is shown of the outcome of the call.

use crate::command::{HttpCommand, HttpCommandView, Verb};
use crate::words::{
    all_space, is_word, lemma_words_before_space, lemma_words_of_word, lemma_words_push_word, texts,
    words,
};
use vstd::prelude::*;
use vstd::string::*;

verus! {

/// The words `parts`, joined by single spaces.
pub open spec fn joined(parts: Seq<Seq<char>>) -> Seq<char>
    decreases parts.len(),
{
    if parts.len() == 0 {
        Seq::empty()
    } else if parts.len() == 1 {
        parts[0]
    } else {
        joined(parts.drop_last()) + seq![' '] + parts.last()
    }
}

/// Words that are joined and split again are the same words.
pub proof fn lemma_words_of_joined(parts: Seq<Seq<char>>)
    requires
        forall|i: int| 0 <= i < parts.len() ==> is_word(#[trigger] parts[i]),
    ensures
        words(joined(parts)) == parts,
    decreases parts.len(),
{
    if parts.len() == 0 {
        assert(words(joined(parts)) =~= parts);
    } else if parts.len() == 1 {
        lemma_words_of_word(parts[0]);
        assert(seq![parts[0]] =~= parts);
    } else {
        let init = parts.drop_last();
        assert forall|i: int| 0 <= i < init.len() implies is_word(#[trigger] init[i]) by {
            assert(init[i] == parts[i]);
        }
        lemma_words_of_joined(init);
        let gap = seq![' '];
        assert(all_space(gap));
        lemma_words_before_space(joined(init), gap);
        lemma_words_push_word(joined(init) + gap, parts.last());
        assert(init.push(parts.last()) =~= parts);
    }
}

/// Joins `parts` by single spaces.
pub fn join_words(parts: &Vec<String>) -> (r: String)
    ensures
        r@ == joined(texts(parts@)),
{
    let ghost ts = texts(parts@);
    let mut r = String::new();
    let mut i: usize = 0;
    while i < parts.len()
        invariant
            i <= parts.len(),
            ts == texts(parts@),
            r@ == joined(ts.take(i as int)),
        decreases parts.len() - i,
    {
        proof {
            reveal_strlit(" ");
            assert(ts.take(i + 1).drop_last() =~= ts.take(i as int));
            assert(" "@ =~= seq![' ']);
        }
        if i > 0 {
            r.append(" ");
        }
        r.append(parts[i].as_str());
        proof {
            if i == 0 {
                assert(r@ =~= ts[0]);
            }
        }
        i = i + 1;
    }
    assert(ts.take(i as int) =~= ts);
    r
}

/// A request to the transport: the method, the address, and the payload
/// where there is one.
#[derive(Clone, Debug, PartialEq, Eq)]
pub struct HttpRequest {
    pub verb: Verb,
    pub uri: String,
    pub body: Option<String>,
}

/// What an `HttpRequest` holds.
pub struct HttpRequestView {
    pub verb: Verb,
    pub uri: Seq<char>,
    pub body: Option<Seq<char>>,
}

impl View for HttpRequest {
    type V = HttpRequestView;

    open spec fn view(&self) -> HttpRequestView {
        HttpRequestView {
            verb: self.verb,
            uri: self.uri@,
            body: match self.body {
                Some(b) => Some(b@),
                None => None,
            },
        }
    }
}

impl HttpCommandView {
    /// The request that the command asks for: its verb and address, and as
    /// payload the words of the body joined by single spaces, or none where
    /// the body has no words.
    pub open spec fn request(self) -> HttpRequestView {
        HttpRequestView {
            verb: self.verb,
            uri: self.uri,
            body: if self.body.len() == 0 {
                None
            } else {
                Some(joined(self.body))
            },
        }
    }

    /// The line that echoes the command: the method and the address, and
    /// the joined body between `<` and `>` where the body has words.
    pub open spec fn echo(self) -> Seq<char> {
        let head = self.verb.method() + seq![' '] + self.uri;
        if self.body.len() == 0 {
            head
        } else {
            head + " <"@ + joined(self.body) + ">"@
        }
    }
}

impl HttpCommand {
    /// The request that the command asks for.
    pub fn request(&self) -> (r: HttpRequest)
        ensures
            r@ == self@.request(),
    {
        let body = if self.body.len() == 0 {
            None
        } else {
            Some(join_words(&self.body))
        };
        HttpRequest { verb: self.verb, uri: self.uri.clone(), body }
    }

    /// The line that echoes the command.
    pub fn echo(&self) -> (r: String)
        ensures
            r@ == self@.echo(),
    {
        proof {
            reveal_strlit(" ");
            assert(" "@ =~= seq![' ']);
        }
        let mut r = String::from_str(self.verb.name());
        r.append(" ");
        r.append(self.uri.as_str());
        if self.body.len() > 0 {
            let body = join_words(&self.body);
            r.append(" <");
            r.append(body.as_str());
            r.append(">");
        }
        r
    }
}

/// The character of a decimal digit.
pub open spec fn digit(d: nat) -> char {
    if d == 0 {
        '0'
    } else if d == 1 {
        '1'
    } else if d == 2 {
        '2'
    } else if d == 3 {
        '3'
    } else if d == 4 {
        '4'
    } else if d == 5 {
        '5'
    } else if d == 6 {
        '6'
    } else if d == 7 {
        '7'
    } else if d == 8 {
        '8'
    } else {
        '9'
    }
}

/// The decimal numeral of `n`, without leading zeros.
pub open spec fn decimal(n: nat) -> Seq<char>
    decreases n,
{
    if n < 10 {
        seq![digit(n)]
    } else {
        decimal(n / 10).push(digit(n % 10))
    }
}

fn digit_text(d: u16) -> (r: &'static str)
    requires
        d < 10,
    ensures
        r@ == seq![digit(d as nat)],
{
    proof {
        reveal_strlit("0");
        reveal_strlit("1");
        reveal_strlit("2");
        reveal_strlit("3");
        reveal_strlit("4");
        reveal_strlit("5");
        reveal_strlit("6");
        reveal_strlit("7");
        reveal_strlit("8");
        reveal_strlit("9");
    }
    let r = if d == 0 {
        "0"
    } else if d == 1 {
        "1"
    } else if d == 2 {
        "2"
    } else if d == 3 {
        "3"
    } else if d == 4 {
        "4"
    } else if d == 5 {
        "5"
    } else if d == 6 {
        "6"
    } else if d == 7 {
        "7"
    } else if d == 8 {
        "8"
    } else {
        "9"
    };
    assert(r@ =~= seq![digit(d as nat)]);
    r
}

/// The decimal numeral of `n`.
pub fn decimal_text(n: u16) -> (r: String)
    ensures
        r@ == decimal(n as nat),
    decreases n,
{
    if n < 10 {
        String::from_str(digit_text(n))
    } else {
        let mut r = decimal_text(n / 10);
        r.append(digit_text(n % 10));
        r
    }
}

/// A header of a response.
#[derive(Clone, Debug, PartialEq, Eq)]
pub struct Header {
    pub name: String,
    pub value: String,
}

/// What the transport returned: the status code and the headers.
#[derive(Clone, Debug, PartialEq, Eq)]
pub struct Reply {
    pub status: u16,
    pub headers: Vec<Header>,
}

/// What is shown of a response: the status code and the text to print.
#[derive(Clone, Debug, PartialEq, Eq)]
pub struct FormattedResponse {
    pub status: u16,
    pub text: String,
}

/// A failure of the transport, with its cause.
#[derive(Clone, Debug, PartialEq, Eq)]
pub struct HttpError {
    pub cause: String,
}

/// The lines of the headers `hs`, each begun by a line feed: the name, a
/// colon and a space, the value.
pub open spec fn header_lines(hs: Seq<Header>) -> Seq<char>
    decreases hs.len(),
{
    if hs.len() == 0 {
        Seq::empty()
    } else {
        header_lines(hs.drop_last()) + "\n"@ + hs.last().name@ + ": "@ + hs.last().value@
    }
}

/// The text shown of a response: `HTTP`, the status code, and the header
/// lines.
pub open spec fn response_text(status: u16, headers: Seq<Header>) -> Seq<char> {
    "HTTP "@ + decimal(status as nat) + header_lines(headers)
}

/// The message shown of a failure: it ends with the cause.
pub open spec fn failure_text(cause: Seq<char>) -> Seq<char> {
    "http call failed: "@ + cause
}

/// A status code from 200 to 299.
pub open spec fn is_success(status: u16) -> bool {
    200 <= status <= 299
}

impl FormattedResponse {
    /// Whether the status code is one of success.
    pub fn success(&self) -> (b: bool)
        ensures
            b == is_success(self.status),
    {
        200 <= self.status && self.status <= 299
    }
}

impl HttpError {
    /// The message shown of the failure.
    pub fn message(&self) -> (r: String)
        ensures
            r@ == failure_text(self.cause@),
    {
        let mut r = String::from_str("http call failed: ");
        r.append(self.cause.as_str());
        r
    }
}

/// Formats a response.
pub fn format_reply(reply: &Reply) -> (r: FormattedResponse)
    ensures
        r.status == reply.status,
        r.text@ == response_text(reply.status, reply.headers@),
{
    let mut text = String::from_str("HTTP ");
    let code = decimal_text(reply.status);
    text.append(code.as_str());
    let ghost head = text@;
    let mut i: usize = 0;
    while i < reply.headers.len()
        invariant
            i <= reply.headers.len(),
            text@ == head + header_lines(reply.headers@.take(i as int)),
        decreases reply.headers.len() - i,
    {
        assert(reply.headers@.take(i + 1).drop_last() =~= reply.headers@.take(i as int));
        text.append("\n");
        text.append(reply.headers[i].name.as_str());
        text.append(": ");
        text.append(reply.headers[i].value.as_str());
        i = i + 1;
    }
    assert(reply.headers@.take(i as int) =~= reply.headers@);
    FormattedResponse { status: reply.status, text }
}

/// The result of the HTTP action, from what the one call to the transport
/// gave: a reply of any status code is formatted, a failure is kept with
/// its cause.
pub fn conclude(outcome: Result<Reply, String>) -> (r: Result<FormattedResponse, HttpError>)
    ensures
        match outcome {
            Ok(reply) => r matches Ok(f) && f.status == reply.status && f.text@ == response_text(
                reply.status,
                reply.headers@,
            ),
            Err(cause) => r matches Err(e) && e.cause@ == cause@,
        },
{
    match outcome {
        Ok(reply) => Ok(format_reply(&reply)),
        Err(cause) => Err(HttpError { cause }),
    }
}

} // verus!
