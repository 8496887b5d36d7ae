//! Prompt updates: the text of a prompt that shows the time, and the
//! coalescing of queued updates.

use vstd::prelude::*;
use vstd::string::*;

verus! {

/// The time between two prompt updates, in milliseconds.
pub const TICK_MILLIS: u64 = 1000;

/// The format of the time in a prompt: weekday, month, day, year, and the
/// time of day.
pub const TIME_FORMAT: &'static str = "%a %b %e %Y %T";

/// A new text for the prompt.
#[derive(Clone, Debug, PartialEq, Eq)]
pub struct PromptUpdate {
    pub text: String,
}

impl View for PromptUpdate {
    type V = Seq<char>;

    open spec fn view(&self) -> Seq<char> {
        self.text@
    }
}

/// The texts of a batch of updates, oldest first.
pub open spec fn update_texts(batch: Seq<PromptUpdate>) -> Seq<Seq<char>> {
    Seq::new(batch.len(), |i: int| batch[i]@)
}

/// The prompt that shows the time `time`.
pub open spec fn prompt_text(time: Seq<char>) -> Seq<char> {
    "cli <"@ + time + "> "@
}

/// The update that shows the time `time`.
pub fn prompt_for(time: &str) -> (u: PromptUpdate)
    ensures
        u@ == prompt_text(time@),
{
    let mut text = String::from_str("cli <");
    text.append(time);
    text.append("> ");
    PromptUpdate { text }
}

/// The shape of a time in `TIME_FORMAT`: a weekday, a month and a day in
/// three, three and two columns, a year of four characters or more, and a
/// time of day in eight, with single spaces between them and colons in the
/// time of day.
pub open spec fn is_time_text(t: Seq<char>) -> bool {
    &&& t.len() >= 24
    &&& t[3] == ' '
    &&& t[7] == ' '
    &&& t[10] == ' '
    &&& t[t.len() - 9] == ' '
    &&& t[t.len() - 6] == ':'
    &&& t[t.len() - 3] == ':'
}

/// The text that chrono gives for a reading of the clock: for the moment
/// `secs` seconds after the beginning of 1970 in universal time, shown
/// `offset` seconds east of it, in the format `format`; `None` where chrono
/// has no such zone or no such moment.
pub uninterp spec fn time_text(secs: int, offset: int, format: Seq<char>) -> Option<Seq<char>>;

/// The text of a string that may be there.
pub open spec fn text_view(r: Option<String>) -> Option<Seq<char>> {
    match r {
        Some(t) => Some(t@),
        None => None,
    }
}

/// The text of a reading of the clock.
///
/// Calls chrono: `FixedOffset::east_opt` for the zone, `DateTime::from_timestamp`
/// for the moment, then `DateTime::with_timezone` and `DateTime::format`,
/// and takes the text of what that gives. The result is a function of the
/// three arguments alone, and `time_text` is its name. Three things are
/// claimed of it besides. Chrono has a zone only for an offset of less than
/// a day, so there is no text for any other. Of a text, its shape: chrono
/// writes the names of weekday and month in three letters, the day and each
/// part of the time of day in two columns, the year in four characters or
/// more, and the spaces and colons of the format as they stand. Formatting
/// fails on a specifier that chrono does not know: the one format admitted
/// is `TIME_FORMAT`, each specifier of which it knows.
#[verifier::external_body]
fn time_text_at(secs: i64, offset: i32, format: &str) -> (r: Option<String>)
    requires
        format@ == TIME_FORMAT@,
    ensures
        text_view(r) == time_text(secs as int, offset as int, format@),
        r matches Some(t) ==> is_time_text(t@),
        !(-86_400 < offset < 86_400) ==> r is None,
{
    let zone = chrono::FixedOffset::east_opt(offset)?;
    let moment = chrono::DateTime::from_timestamp(secs, 0)?;
    Some(moment.with_timezone(&zone).format(format).to_string())
}

/// The update for a reading of the clock: the prompt that shows the moment
/// `secs` seconds after the beginning of 1970 in universal time as the
/// local time of a zone `offset` seconds east of it, in `TIME_FORMAT`.
/// There is none where the reading has no time text, as for an offset of a
/// day or more.
pub fn update_at(secs: i64, offset: i32) -> (r: Option<PromptUpdate>)
    ensures
        match time_text(secs as int, offset as int, TIME_FORMAT@) {
            Some(time) => is_time_text(time) && (r matches Some(u) && u@ == prompt_text(time)),
            None => r is None,
        },
        !(-86_400 < offset < 86_400) ==> r is None,
{
    match time_text_at(secs, offset, TIME_FORMAT) {
        Some(time) => Some(prompt_for(time.as_str())),
        None => None,
    }
}

/// The prompt after the update `update`.
pub open spec fn applied(prompt: Seq<char>, update: Seq<char>) -> Seq<char> {
    update
}

/// The prompt after each update of `batch`, applied oldest first.
pub open spec fn applied_all(prompt: Seq<char>, batch: Seq<Seq<char>>) -> Seq<char>
    decreases batch.len(),
{
    if batch.len() == 0 {
        prompt
    } else {
        applied_all(applied(prompt, batch[0]), batch.skip(1))
    }
}

/// The one update that a batch comes to: its newest, where it has any.
pub open spec fn latest(batch: Seq<Seq<char>>) -> Option<Seq<char>> {
    if batch.len() == 0 {
        None
    } else {
        Some(batch.last())
    }
}

/// The prompt after what `latest` keeps of a batch.
pub open spec fn coalesced(prompt: Seq<char>, batch: Seq<Seq<char>>) -> Seq<char> {
    match latest(batch) {
        Some(update) => applied(prompt, update),
        None => prompt,
    }
}

/// Coalescing loses nothing: to apply every update of a batch in turn gives
/// the prompt that applying its newest alone gives, and an empty batch
/// leaves the prompt as it is.
pub proof fn lemma_coalescing(prompt: Seq<char>, batch: Seq<Seq<char>>)
    ensures
        applied_all(prompt, batch) == coalesced(prompt, batch),
        batch.len() > 0 ==> applied_all(prompt, batch) == applied(prompt, batch.last()),
        batch.len() > 0 ==> applied_all(prompt, batch) == applied_all(prompt, seq![batch.last()]),
    decreases batch.len(),
{
    if batch.len() > 0 {
        let rest = batch.skip(1);
        lemma_coalescing(applied(prompt, batch[0]), rest);
        if rest.len() > 0 {
            assert(rest.last() == batch.last());
        }
        let one = seq![batch.last()];
        assert(one.skip(1).len() == 0);
        assert(applied_all(prompt, one) == applied_all(applied(prompt, one[0]), one.skip(1)));
    }
}

/// Keeps the newest update of a batch and drops the others.
pub fn coalesce(batch: Vec<PromptUpdate>) -> (r: Option<PromptUpdate>)
    ensures
        match r {
            Some(u) => latest(update_texts(batch@)) == Some(u@),
            None => latest(update_texts(batch@)) == None::<Seq<char>>,
        },
{
    let mut batch = batch;
    batch.pop()
}

} // verus!
