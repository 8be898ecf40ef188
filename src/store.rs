use vstd::prelude::*;

verus! {

/// The one key under which the reset epoch is persisted.
pub const COUNTER_KEY: &'static str = "social_timer_count";

/// What a read of the persisted epoch gave.
#[derive(Debug, Clone, Copy, PartialEq, Eq, Structural)]
pub enum ReadOutcome {
    Found(u64),
    Missing,
    Failed,
}

/// A failure of the key-value store that is handed on to the caller.
#[derive(Debug, Clone, Copy, PartialEq, Eq, Structural)]
pub enum StoreError {
    /// The store could not be opened.
    Open,
    /// Writing the epoch failed.
    Write,
}

/// What to do after reading: answer at once, or first persist an epoch.
#[derive(Debug, Clone, Copy, PartialEq, Eq, Structural)]
pub enum StoreStep {
    Done(u64),
    Write(u64),
}

/// The read step of get-or-initialize: a stored epoch is returned unchanged;
/// a missing one, or a failed read, is healed by writing the fallback.
pub open spec fn read_step(read: ReadOutcome, fallback: u64) -> StoreStep {
    match read {
        ReadOutcome::Found(c) => StoreStep::Done(c),
        _ => StoreStep::Write(fallback),
    }
}

/// What a write of `epoch` answers once the store has replied.
pub open spec fn write_answer(epoch: u64, written: Result<(), StoreError>) -> Result<u64, StoreError> {
    match written {
        Ok(()) => Ok(epoch),
        Err(e) => Err(e),
    }
}

pub fn get_count_step(read: ReadOutcome, fallback: u64) -> (r: StoreStep)
    ensures
        r == read_step(read, fallback),
{
    match read {
        ReadOutcome::Found(c) => StoreStep::Done(c),
        _ => StoreStep::Write(fallback),
    }
}

/// Completes a write of `epoch`, by get-or-initialize or by a reset: the
/// epoch on success, the store's failure otherwise.
pub fn finish_write(epoch: u64, written: Result<(), StoreError>) -> (r: Result<u64, StoreError>)
    ensures
        r == write_answer(epoch, written),
{
    match written {
        Ok(()) => Ok(epoch),
        Err(e) => Err(e),
    }
}

/// What a store that works reports for its content.
pub open spec fn read_of(stored: Option<u64>) -> ReadOutcome {
    match stored {
        Some(c) => ReadOutcome::Found(c),
        None => ReadOutcome::Missing,
    }
}

/// A get-or-initialize on a store that works: the answer and the content after it.
pub open spec fn serve_get(stored: Option<u64>, fallback: u64) -> (Result<u64, StoreError>, Option<u64>) {
    match read_step(read_of(stored), fallback) {
        StoreStep::Done(c) => (Ok(c), stored),
        StoreStep::Write(v) => (write_answer(v, Ok(())), Some(v)),
    }
}

/// A reset on a store that works: the answer and the content after it.
pub open spec fn serve_reset(stored: Option<u64>, epoch: u64) -> (Result<u64, StoreError>, Option<u64>) {
    (write_answer(epoch, Ok(())), Some(epoch))
}

/// Initialization happens once: on an empty store get-or-initialize returns
/// the fallback and stores it; a later call with any other fallback returns
/// the first one and leaves the store as it is.
pub proof fn lemma_initialization_idempotent(first: u64, second: u64)
    ensures
        serve_get(None, first) == (Ok::<u64, StoreError>(first), Some(first)),
        serve_get(Some(first), second) == (Ok::<u64, StoreError>(first), Some(first)),
{
}

/// A failed read is treated like a missing epoch: the fallback is written.
pub proof fn lemma_failed_read_heals(fallback: u64)
    ensures
        read_step(ReadOutcome::Failed, fallback) == read_step(ReadOutcome::Missing, fallback),
        read_step(ReadOutcome::Missing, fallback) == StoreStep::Write(fallback),
{
}

/// Last write wins: after a reset the store holds the new epoch, and
/// get-or-initialize returns it whatever its fallback.
pub proof fn lemma_reset_then_get(stored: Option<u64>, epoch: u64, fallback: u64)
    ensures
        serve_reset(stored, epoch) == (Ok::<u64, StoreError>(epoch), Some(epoch)),
        serve_get(serve_reset(stored, epoch).1, fallback) == (Ok::<u64, StoreError>(epoch), Some(epoch)),
{
}

} // verus!
