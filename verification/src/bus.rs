//! The shared-bus arbiter: one physical transport, many logical device
//! handles. A handle may transfer only while it holds the bus, and the grant
//! is exclusive, so transactions of different pipelines serialize and never
//! interleave. The arbiter also carries an instrumented transaction counter —
//! how many transfers are in flight right now, and the highest that count has
//! ever been — which is how the exclusion guarantee is stated and checked.

use vstd::prelude::*;

verus! {

/// The arbiter of one physical bus. `holder` is the task index the bus is
/// granted to; `in_flight` counts transfers running at this instant;
/// `high_water` is the largest value `in_flight` has ever reached.
#[derive(Clone, Copy, PartialEq, Eq, Structural, Debug)]
pub struct BusArbiter {
    pub holder: Option<usize>,
    pub in_flight: u32,
    pub high_water: u32,
}

impl BusArbiter {
    /// Nobody holds the bus and nothing is in flight.
    pub open spec fn idle(self) -> bool {
        &&& self.holder is None
        &&& self.in_flight == 0
    }

    pub fn new() -> (b: BusArbiter)
        ensures
            b.idle(),
            b.high_water == 0,
    {
        BusArbiter { holder: None, in_flight: 0, high_water: 0 }
    }

    /// Try to take the bus for one task. The grant is exclusive: it succeeds
    /// exactly when nobody holds the bus, and a refused caller changes
    /// nothing — it stays suspended and tries again when scheduled.
    pub fn acquire(&mut self, task: usize) -> (granted: bool)
        ensures
            granted == (old(self).holder is None),
            granted ==> *final(self) == (BusArbiter { holder: Some(task), ..*old(self) }),
            !granted ==> *final(self) == *old(self),
    {
        match self.holder {
            None => {
                self.holder = Some(task);
                true
            },
            Some(_) => false,
        }
    }

    /// Give the bus back; only the holder may.
    pub fn release(&mut self, task: usize)
        requires
            old(self).holder == Some(task),
        ensures
            *final(self) == (BusArbiter { holder: None, ..*old(self) }),
    {
        self.holder = None;
    }

    /// A transfer starts on the wire; only the holder may start one. The
    /// instrumented counter goes up and the high-water mark follows it.
    pub fn begin_transfer(&mut self, task: usize)
        requires
            old(self).holder == Some(task),
            old(self).in_flight < u32::MAX,
        ensures
            final(self).holder == old(self).holder,
            final(self).in_flight == old(self).in_flight + 1,
            final(self).high_water == if old(self).in_flight + 1 > old(self).high_water {
                old(self).in_flight + 1
            } else {
                old(self).high_water as int
            },
    {
        self.in_flight = self.in_flight + 1;
        if self.in_flight > self.high_water {
            self.high_water = self.in_flight;
        }
    }

    /// The transfer leaves the wire.
    pub fn end_transfer(&mut self, task: usize)
        requires
            old(self).holder == Some(task),
            old(self).in_flight > 0,
        ensures
            *final(self) == (BusArbiter {
                in_flight: (old(self).in_flight - 1) as u32,
                ..*old(self)
            }),
    {
        self.in_flight = self.in_flight - 1;
    }
}

} // verus!
