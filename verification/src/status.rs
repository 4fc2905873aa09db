//! The status line and its bounded history of recent messages.

use vstd::prelude::*;

verus! {

/// How many recent messages the status log keeps.
pub const STATUS_HISTORY_LIMIT: usize = 200;

#[derive(Clone, Copy, Debug, PartialEq, Eq, Structural)]
pub enum StatusLevel {
    Info,
    Error,
}

#[derive(Clone, Debug, PartialEq)]
pub struct StatusEntry {
    pub message: String,
    pub level: StatusLevel,
}

impl StatusEntry {
    /// An informational entry, as a value.
    pub open spec fn new_spec(message: String) -> StatusEntry {
        StatusEntry { message: message, level: StatusLevel::Info }
    }

    /// An entry that reports a failure, as a value.
    pub open spec fn new_error_spec(message: String) -> StatusEntry {
        StatusEntry { message: message, level: StatusLevel::Error }
    }

    /// An informational entry.
    pub fn new(message: String) -> (e: StatusEntry)
        ensures
            e.message == message,
            e.level == StatusLevel::Info,
    {
        StatusEntry { message, level: StatusLevel::Info }
    }

    /// An entry that reports a failure.
    pub fn new_error(message: String) -> (e: StatusEntry)
        ensures
            e.message == message,
            e.level == StatusLevel::Error,
    {
        StatusEntry { message, level: StatusLevel::Error }
    }
}

/// The entries a history keeps: the newest `STATUS_HISTORY_LIMIT` of them.
pub open spec fn retained(h: Seq<StatusEntry>) -> Seq<StatusEntry> {
    if h.len() > STATUS_HISTORY_LIMIT {
        h.subrange(h.len() - STATUS_HISTORY_LIMIT, h.len() as int)
    } else {
        h
    }
}

/// Makes `entry` the current status and appends it to the history, dropping
/// the oldest entries beyond the limit.
pub fn push_entry(status: &mut String, status_history: &mut Vec<StatusEntry>, entry: StatusEntry)
    ensures
        *final(status) == entry.message,
        final(status_history)@ == retained(old(status_history)@.push(entry)),
{
    *status = entry.message.clone();
    status_history.push(entry);
    if status_history.len() > STATUS_HISTORY_LIMIT {
        let overflow = status_history.len() - STATUS_HISTORY_LIMIT;
        let kept = status_history.split_off(overflow);
        *status_history = kept;
    }
}

/// The history never holds more than `STATUS_HISTORY_LIMIT` entries.
pub proof fn lemma_history_bounded(h: Seq<StatusEntry>, e: StatusEntry)
    ensures
        retained(h.push(e)).len() <= STATUS_HISTORY_LIMIT,
        retained(h.push(e)).len() == if h.len() < STATUS_HISTORY_LIMIT {
            h.len() + 1
        } else {
            STATUS_HISTORY_LIMIT as nat
        },
{
}

/// A pushed message is always the newest entry of the history, and the
/// history is what came before with the new entry at the end, less its
/// oldest entries: nothing is reordered or altered.
pub proof fn lemma_push_keeps_order(h: Seq<StatusEntry>, e: StatusEntry)
    ensures
        retained(h.push(e)).len() >= 1,
        retained(h.push(e)).last() == e,
        exists|k: int|
            0 <= k <= h.len() && retained(h.push(e)) == #[trigger] h.push(e).subrange(
                k,
                (h.len() + 1) as int,
            ),
{
    let s = h.push(e);
    if s.len() > STATUS_HISTORY_LIMIT {
        assert(retained(s) == s.subrange(s.len() - STATUS_HISTORY_LIMIT, s.len() as int));
    } else {
        assert(retained(s) == s.subrange(0, s.len() as int));
    }
}

} // verus!
