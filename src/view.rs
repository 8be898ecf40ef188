use vstd::prelude::*;

use crate::breakdown::{breakdown_of, ElapsedTime};
use crate::store::{serve_get, serve_reset, write_answer, StoreError};

verus! {

/// Relies on wasm_timer::SystemTime::now and UNIX_EPOCH: the seconds since
/// the Unix epoch, or nothing when the clock stands before it.
#[verifier::external_body]
fn current_epoch() -> (r: Option<u64>) {
    match wasm_timer::SystemTime::now().duration_since(wasm_timer::UNIX_EPOCH) {
        Ok(d) => Some(d.as_secs()),
        Err(_) => None,
    }
}

/// The client's state: its clock, the marker that keys the fetch of the
/// stored epoch, the epoch the elapsed time is counted from, and whether
/// that epoch has arrived (`ready`) or is still being fetched.
#[derive(Debug, Clone, Copy, PartialEq, Eq, Structural)]
pub struct TimerView {
    pub now: u64,
    pub marker: u64,
    pub reference: u64,
    pub ready: bool,
}

/// Seconds from `reference` to `now`; zero when the reference lies ahead.
pub open spec fn elapsed_between(reference: u64, now: u64) -> nat {
    if now >= reference {
        (now - reference) as nat
    } else {
        0
    }
}

impl TimerView {
    pub open spec fn spec_elapsed(&self) -> nat {
        elapsed_between(self.reference, self.now)
    }

    /// What a confirmed reset to `epoch` makes of the view: the clock, the
    /// reference and the marker all at `epoch`. A view goes back to loading
    /// only when the marker moves, since only then is the stored epoch
    /// fetched again.
    pub open spec fn after_reset(self, epoch: u64) -> TimerView {
        TimerView {
            now: epoch,
            marker: epoch,
            reference: epoch,
            ready: self.ready && self.marker == epoch,
        }
    }

    /// A view that starts loading at `now`; the stored epoch is fetched with
    /// `now` as both marker and fallback.
    pub fn new(now: u64) -> (r: Self)
        ensures
            r == (TimerView { now: now, marker: now, reference: now, ready: false }),
    {
        TimerView { now, marker: now, reference: now, ready: false }
    }

    /// A view that starts loading at the clock's time, or nothing when the
    /// clock gives none.
    pub fn start_from_clock() -> (r: Option<Self>)
        ensures
            r matches Some(v) ==> v.marker == v.now && v.reference == v.now && !v.ready,
    {
        match current_epoch() {
            Some(now) => Some(TimerView::new(now)),
            None => None,
        }
    }

    pub fn is_loading(&self) -> (r: bool)
        ensures
            r == !self.ready,
    {
        !self.ready
    }

    /// One tick of the client clock.
    pub fn tick(&mut self, now: u64)
        ensures
            *final(self) == (TimerView { now: now, ..*old(self) }),
    {
        self.now = now;
    }

    /// Reads the clock and ticks to it; leaves the view as it is and returns
    /// false when the clock gives nothing.
    pub fn tick_from_clock(&mut self) -> (r: bool)
        ensures
            r ==> *final(self) == (TimerView { now: final(self).now, ..*old(self) }),
            !r ==> *final(self) == *old(self),
    {
        match current_epoch() {
            Some(now) => {
                self.tick(now);
                true
            },
            None => false,
        }
    }

    /// Takes the stored epoch fetched for `marker`. An answer for an older
    /// marker is stale and is dropped.
    pub fn reconcile(&mut self, marker: u64, epoch: u64) -> (r: bool)
        ensures
            r == (marker == old(self).marker),
            r ==> *final(self) == (TimerView { reference: epoch, ready: true, ..*old(self) }),
            !r ==> *final(self) == *old(self),
    {
        if marker == self.marker {
            self.reference = epoch;
            self.ready = true;
            true
        } else {
            false
        }
    }

    /// Applies the store's reply to a reset to `epoch`. Only a confirmed
    /// write moves the view; a failed one is handed back and changes nothing.
    pub fn complete_reset(&mut self, epoch: u64, written: Result<(), StoreError>) -> (r: Result<u64, StoreError>)
        ensures
            r == write_answer(epoch, written),
            written is Ok ==> *final(self) == old(self).after_reset(epoch),
            written is Err ==> *final(self) == *old(self),
    {
        match written {
            Ok(()) => {
                self.ready = self.ready && epoch == self.marker;
                self.now = epoch;
                self.marker = epoch;
                self.reference = epoch;
                Ok(epoch)
            },
            Err(e) => Err(e),
        }
    }

    /// Seconds since the reference epoch.
    pub fn elapsed(&self) -> (r: u64)
        ensures
            r == self.spec_elapsed(),
    {
        if self.now >= self.reference {
            self.now - self.reference
        } else {
            0
        }
    }

    /// The breakdown to show, or nothing while the stored epoch is loading.
    pub fn display(&self) -> (r: Option<ElapsedTime>)
        ensures
            !self.ready ==> r is None,
            self.ready ==> r == Some(breakdown_of(self.spec_elapsed())),
    {
        if self.ready {
            Some(ElapsedTime::get_elapsed_time(self.elapsed()))
        } else {
            None
        }
    }
}

/// A confirmed reset to `epoch` leaves the store holding `epoch` and the
/// elapsed duration at zero; when the fetch that the new marker asks for
/// returns, the view is ready and still shows zero.
pub proof fn lemma_reset_zeroes_elapsed(stored: Option<u64>, v: TimerView, epoch: u64)
    ensures
        serve_reset(stored, epoch).1 == Some(epoch),
        v.after_reset(epoch).spec_elapsed() == 0,
        ({
            let w = v.after_reset(epoch);
            let fetched = serve_get(serve_reset(stored, epoch).1, w.marker).0;
            fetched == Ok::<u64, StoreError>(epoch) && (TimerView { reference: epoch, ready: true, ..w }).spec_elapsed() == 0
        }),
{
}

/// A reset sends a ready view back to loading only when it moves the marker,
/// which is what asks for the stored epoch again.
pub proof fn lemma_loading_only_on_marker_change(v: TimerView, epoch: u64)
    ensures
        v.ready && !v.after_reset(epoch).ready ==> v.marker != epoch,
        v.ready && v.marker == epoch ==> v.after_reset(epoch).ready,
{
}

} // verus!
