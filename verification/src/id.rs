use vstd::prelude::*;

verus! {

/// An identifier of one content unit: the replica (`client_id`) that created
/// it, paired with that replica's monotonically increasing counter. Counters
/// are non-negative and never reused within one replica.
#[derive(Clone, Copy, Debug, PartialEq, Eq, Hash, Structural)]
pub struct ID {
    pub client_id: u64,
    pub counter: i32,
}

impl ID {
    pub fn new(client_id: u64, counter: i32) -> (r: ID)
        ensures
            r == (ID { client_id, counter }),
    {
        ID { client_id, counter }
    }

    /// The identifier `delta` steps further along the same replica's counter.
    pub open spec fn spec_inc(self, delta: int) -> ID {
        ID { client_id: self.client_id, counter: (self.counter + delta) as i32 }
    }

    pub fn inc(&self, delta: i32) -> (r: ID)
        requires
            i32::MIN <= self.counter + delta <= i32::MAX,
        ensures
            r == self.spec_inc(delta as int),
            r.client_id == self.client_id,
            r.counter == self.counter + delta,
    {
        ID { client_id: self.client_id, counter: self.counter + delta }
    }
}

/// A half-open interval `[from, to)` of one replica's counters.
#[derive(Clone, Copy, Debug, PartialEq, Eq, Hash, Structural)]
pub struct CounterSpan {
    pub from: i32,
    pub to: i32,
}

/// A contiguous counter interval belonging to one replica, used to test
/// whether an external event touches a span.
#[derive(Clone, Copy, Debug, PartialEq, Eq, Hash, Structural)]
pub struct IdSpan {
    pub client_id: u64,
    pub counter: CounterSpan,
}

impl IdSpan {
    pub fn new(client_id: u64, from: i32, to: i32) -> (r: IdSpan)
        ensures
            r == (IdSpan { client_id, counter: CounterSpan { from, to } }),
    {
        IdSpan { client_id, counter: CounterSpan { from, to } }
    }
}

} // verus!
