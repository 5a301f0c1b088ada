//! A message dialog that can close itself: which messages it shows, what its
//! button says, and what a tick of its timer leads to.

use vstd::prelude::*;
use crate::text::{decimal_text, push_decimal};

verus! {

/// The message of a dialog that was given none.
pub open spec fn default_message_text() -> Seq<char> {
    "Hello from Simple Message Box!"@
}

/// The message of a dialog that was given none.
pub fn default_message() -> (message: &'static str)
    ensures
        message@ == default_message_text(),
{
    "Hello from Simple Message Box!"
}

/// The messages without those that are empty, in their order.
pub open spec fn without_empty(messages: Seq<Seq<char>>) -> Seq<Seq<char>>
    decreases messages.len(),
{
    if messages.len() == 0 {
        messages
    } else {
        let earlier = without_empty(messages.drop_last());
        if messages.last().len() > 0 {
            earlier.push(messages.last())
        } else {
            earlier
        }
    }
}

/// The messages that the dialog shows: those given that are not empty, or
/// the default message where none was given at all.
pub open spec fn shown_messages(messages: Seq<Seq<char>>) -> Seq<Seq<char>> {
    if messages.len() == 0 {
        seq![default_message_text()]
    } else {
        without_empty(messages)
    }
}

/// Picks the messages that the dialog shows.
pub fn messages_to_show(messages: &Vec<String>) -> (shown: Vec<String>)
    ensures
        shown.deep_view() == shown_messages(messages.deep_view()),
{
    let mut shown: Vec<String> = Vec::new();
    if messages.len() == 0 {
        shown.push(String::from_str(default_message()));
        assert(shown.deep_view() =~= seq![default_message_text()]);
        return shown;
    }
    let mut at: usize = 0;
    assert(shown.deep_view() =~= without_empty(messages.deep_view().take(0)));
    while at < messages.len()
        invariant
            at <= messages.len(),
            shown.deep_view() == without_empty(messages.deep_view().take(at as int)),
        decreases messages.len() - at,
    {
        let ghost before = shown.deep_view();
        proof {
            let upto = messages.deep_view().take(at + 1);
            assert(upto.drop_last() =~= messages.deep_view().take(at as int));
            assert(upto.last() == messages[at as int]@);
        }
        if !messages[at].as_str().is_empty() {
            let message = messages[at].clone();
            shown.push(message);
            assert(shown.deep_view() =~= before.push(messages[at as int]@));
        }
        at += 1;
    }
    assert(messages.deep_view().take(at as int) =~= messages.deep_view());
    shown
}

/// No shown message is empty, and a dialog that was given a message that is
/// not empty shows one at least.
pub proof fn lemma_shown_messages_have_text(messages: Seq<Seq<char>>)
    ensures
        forall|i: int|
            0 <= i < without_empty(messages).len() ==> (#[trigger] without_empty(messages)[i]).len()
                > 0,
        without_empty(messages).len() <= messages.len(),
    decreases messages.len(),
{
    if messages.len() > 0 {
        lemma_shown_messages_have_text(messages.drop_last());
    }
}

/// What the button says when `seconds` are left: negative stands for a
/// dialog that does not close itself.
pub open spec fn label_text(seconds: i64) -> Seq<char> {
    if seconds >= 2 {
        "Close in "@ + decimal_text(seconds as nat) + " seconds"@
    } else if seconds == 1 {
        "Close in 1 second"@
    } else if seconds == 0 {
        "Close now"@
    } else {
        "Close"@
    }
}

/// Words the button.
pub fn button_label(seconds: i64) -> (label: String)
    ensures
        label@ == label_text(seconds),
{
    if seconds >= 2 {
        let mut label = String::from_str("Close in ");
        push_decimal(&mut label, seconds as u64);
        label.append(" seconds");
        label
    } else if seconds == 1 {
        String::from_str("Close in 1 second")
    } else if seconds == 0 {
        String::from_str("Close now")
    } else {
        String::from_str("Close")
    }
}

/// What a tick of the timer leads to.
#[derive(Clone, Copy, Debug, PartialEq, Eq, Structural)]
pub enum Tick {
    /// Nothing: the dialog does not close itself, or the clock went back.
    Idle,
    /// The button shows that so many whole seconds are left.
    Show { seconds: i64 },
    /// The time is up: the button shows zero and the dialog closes.
    Close,
}

/// What a tick leads to, for a dialog that closes itself `timeout_ms`
/// milliseconds after it was opened (zero: never), `elapsed_ms` after it was
/// opened (`None`: the clock stands before the opening).
pub open spec fn tick_of(timeout_ms: u64, elapsed_ms: Option<u128>) -> Tick {
    match elapsed_ms {
        Some(elapsed) if timeout_ms > 0 => if elapsed >= timeout_ms {
            Tick::Close
        } else {
            Tick::Show { seconds: ((timeout_ms - elapsed) / 1000) as i64 }
        },
        _ => Tick::Idle,
    }
}

/// Decides what a tick of the timer leads to.
pub fn tick(timeout_ms: u64, elapsed_ms: Option<u128>) -> (outcome: Tick)
    ensures
        outcome == tick_of(timeout_ms, elapsed_ms),
{
    if timeout_ms == 0 {
        return Tick::Idle;
    }
    match elapsed_ms {
        None => Tick::Idle,
        Some(elapsed) => {
            if elapsed >= timeout_ms as u128 {
                Tick::Close
            } else {
                let left: u64 = timeout_ms - (elapsed as u64);
                Tick::Show { seconds: (left / 1000) as i64 }
            }
        },
    }
}

/// While time is left the button never shows more seconds than are left, and
/// it shows a whole second less only once that second has begun.
pub proof fn lemma_tick_counts_down(timeout_ms: u64, elapsed_ms: u128)
    requires
        timeout_ms > 0,
        elapsed_ms < timeout_ms,
    ensures
        tick_of(timeout_ms, Some(elapsed_ms)) matches Tick::Show { seconds } && seconds * 1000
            <= timeout_ms - elapsed_ms < (seconds + 1) * 1000,
{
}

} // verus!
