use vstd::prelude::*;

verus! {

/// Holds the handle of the one periodic callback a client runs, so that a
/// new schedule always replaces the old one and never runs beside it.
pub struct IntervalSlot<H> {
    active: Option<H>,
}

impl<H> IntervalSlot<H> {
    pub closed spec fn active(&self) -> Option<H> {
        self.active
    }

    pub fn new() -> (r: Self)
        ensures
            r.active() is None,
    {
        IntervalSlot { active: None }
    }

    pub fn is_active(&self) -> (r: bool)
        ensures
            r == self.active() is Some,
    {
        self.active.is_some()
    }

    /// Installs `handle` and hands back the previous one, which the caller
    /// cancels before the new schedule first fires.
    pub fn replace(&mut self, handle: H) -> (previous: Option<H>)
        ensures
            final(self).active() == Some(handle),
            previous == old(self).active(),
    {
        let previous = self.active.take();
        self.active = Some(handle);
        previous
    }

    /// Takes out the active handle, if any, for the caller to cancel.
    pub fn clear(&mut self) -> (previous: Option<H>)
        ensures
            final(self).active() is None,
            previous == old(self).active(),
    {
        self.active.take()
    }
}

} // verus!
