//! Debounced, serialized settings persistence: the decisions of the writer.
//!
//! A save request takes a sequence number and waits for a quiet period of
//! 100 ms after the most recent request; a pass whose request has been
//! superseded gives way to the newer one, so the last change of a burst is
//! the one written. At most one write runs at a time: a request that finds a
//! write in flight marks it pending, and the finishing writer runs once more.

use vstd::prelude::*;

verus! {

/// Length of the quiet period after the latest save request, in nanoseconds.
pub const SAVE_DEBOUNCE_NANOS: u128 = 100_000_000;

/// What a waiting save pass does next.
#[derive(Debug, Clone, Copy, PartialEq, Eq, Structural)]
pub enum DebounceStep {
    /// Sleep this many nanoseconds, then look again.
    Wait(u128),
    /// The quiet period has passed and this pass holds the latest request: write.
    Proceed,
    /// A newer request has arrived: leave the write to it.
    Superseded,
}

/// Decide the next step of the pass holding request `my_seq`, when the latest
/// request is `latest_seq` and was made `elapsed_nanos` ago.
pub fn debounce_step(my_seq: u64, latest_seq: u64, elapsed_nanos: u128) -> (step: DebounceStep)
    ensures
        elapsed_nanos <= SAVE_DEBOUNCE_NANOS ==> step == DebounceStep::Wait(
            (SAVE_DEBOUNCE_NANOS - elapsed_nanos) as u128,
        ),
        elapsed_nanos > SAVE_DEBOUNCE_NANOS && my_seq == latest_seq ==> step
            == DebounceStep::Proceed,
        elapsed_nanos > SAVE_DEBOUNCE_NANOS && my_seq != latest_seq ==> step
            == DebounceStep::Superseded,
{
    if elapsed_nanos <= SAVE_DEBOUNCE_NANOS {
        DebounceStep::Wait(SAVE_DEBOUNCE_NANOS - elapsed_nanos)
    } else if latest_seq == my_seq {
        DebounceStep::Proceed
    } else {
        DebounceStep::Superseded
    }
}

/// Shared state of the settings writer.
#[derive(Debug, Clone, Copy, PartialEq, Eq, Structural)]
pub struct SaveWriter {
    /// Sequence number the next save request will take.
    pub next_seq: u64,
    /// Whether a disk write is running.
    pub in_flight: bool,
    /// Whether a request arrived while a write was running.
    pub pending: bool,
}

/// The writer after a pass tries to start a write, and whether it may.
pub open spec fn begin_write_spec(w: SaveWriter) -> (SaveWriter, bool) {
    if w.in_flight {
        (SaveWriter { pending: true, ..w }, false)
    } else {
        (SaveWriter { in_flight: true, ..w }, true)
    }
}

/// The writer after a write finishes, and whether the writer must run again.
pub open spec fn finish_write_spec(w: SaveWriter) -> (SaveWriter, bool) {
    (SaveWriter { in_flight: false, pending: false, ..w }, w.pending)
}

impl SaveWriter {
    /// An idle writer whose first request takes sequence number 0.
    pub fn new() -> (w: SaveWriter)
        ensures
            w.next_seq == 0,
            !w.in_flight,
            !w.pending,
    {
        SaveWriter { next_seq: 0, in_flight: false, pending: false }
    }

    /// Take the sequence number of a new save request.
    pub fn next_request(&mut self) -> (seq: u64)
        ensures
            seq == old(self).next_seq,
            final(self).next_seq == (if old(self).next_seq == u64::MAX {
                0
            } else {
                (old(self).next_seq + 1) as u64
            }),
            final(self).in_flight == old(self).in_flight,
            final(self).pending == old(self).pending,
    {
        let seq = self.next_seq;
        self.next_seq = if seq == u64::MAX {
            0
        } else {
            seq + 1
        };
        seq
    }

    /// Try to start a disk write; `false` when another write runs, in which
    /// case the request is left pending for that writer.
    pub fn begin_write(&mut self) -> (start: bool)
        ensures
            (*final(self), start) == begin_write_spec(*old(self)),
    {
        if self.in_flight {
            self.pending = true;
            false
        } else {
            self.in_flight = true;
            true
        }
    }

    /// Mark the write finished; `true` when a request arrived meanwhile and
    /// the writer must run again.
    pub fn finish_write(&mut self) -> (again: bool)
        ensures
            (*final(self), again) == finish_write_spec(*old(self)),
    {
        self.in_flight = false;
        let again = self.pending;
        self.pending = false;
        again
    }
}

/// At most one write runs at a time: a pass may write only when none is in
/// flight, and a pass that is refused leaves its request pending.
pub proof fn writes_are_serialized(w: SaveWriter)
    ensures
        begin_write_spec(w).1 ==> !w.in_flight && begin_write_spec(w).0.in_flight,
        !begin_write_spec(w).1 ==> w.in_flight && begin_write_spec(w).0.pending,
        begin_write_spec(w).0.next_seq == w.next_seq,
{
}

/// No request is lost: a request that arrives while a write runs makes the
/// writer run once more when that write finishes, and a finish with nothing
/// pending ends the drain with the writer idle.
pub proof fn no_request_lost(w: SaveWriter)
    requires
        w.in_flight,
    ensures
        finish_write_spec(begin_write_spec(w).0).1,
        !finish_write_spec(finish_write_spec(begin_write_spec(w).0).0).1,
        !finish_write_spec(w).0.in_flight && !finish_write_spec(w).0.pending,
{
}

} // verus!
