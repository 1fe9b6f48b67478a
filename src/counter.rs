//! Native iterator types: a counter that declares only the advance
//! capability, and a countdown that declares both.
use vstd::prelude::*;
use crate::host::HostValue;
use crate::outcome::IterNextOutput;
use crate::protocol::{PyIterIterProtocol, PyIterNextProtocol, PyIterProtocol, PyIterSlots};

verus! {

/// The largest value a `Counter` yields.
pub const COUNTER_LIMIT: u32 = 5;

/// Yields `1, 2, ..., COUNTER_LIMIT`, then ends with no payload on every
/// later call.
#[derive(PartialEq, Eq, Structural, Clone, Copy, Debug)]
pub struct Counter {
    pub count: u32,
}

impl Counter {
    pub fn new() -> (r: Counter)
        ensures
            r.count == 0,
    {
        Counter { count: 0 }
    }
}

impl PyIterProtocol for Counter {
}

impl PyIterNextProtocol for Counter {
    type Result = Option<u32>;

    open spec fn next_output(&self) -> Option<u32> {
        if self.count < COUNTER_LIMIT {
            Some((self.count + 1) as u32)
        } else {
            None
        }
    }

    open spec fn next_state(&self) -> Counter {
        if self.count < COUNTER_LIMIT {
            Counter { count: (self.count + 1) as u32 }
        } else {
            *self
        }
    }

    fn __next__(slf: &mut Counter) -> (r: Option<u32>) {
        if slf.count < COUNTER_LIMIT {
            slf.count = slf.count + 1;
            Some(slf.count)
        } else {
            None
        }
    }
}

impl PyIterSlots for Counter {
}

/// Yields `remaining - 1, ..., 1, 0` and then ends with no payload; begins
/// iteration by handing the host its own handle.
#[derive(PartialEq, Eq, Structural, Clone, Copy, Debug)]
pub struct Countdown {
    /// The host handle of this object.
    pub handle: usize,
    pub remaining: u64,
}

impl PyIterProtocol for Countdown {
}

impl PyIterIterProtocol for Countdown {
    type Result = HostValue;

    open spec fn iter_output(&self) -> HostValue {
        HostValue::Object(self.handle)
    }

    fn __iter__(slf: &Countdown) -> (r: HostValue) {
        HostValue::Object(slf.handle)
    }
}

impl PyIterNextProtocol for Countdown {
    type Result = IterNextOutput<u64, ()>;

    open spec fn next_output(&self) -> IterNextOutput<u64, ()> {
        if self.remaining > 0 {
            IterNextOutput::Yield((self.remaining - 1) as u64)
        } else {
            IterNextOutput::Return(())
        }
    }

    open spec fn next_state(&self) -> Countdown {
        if self.remaining > 0 {
            Countdown { remaining: (self.remaining - 1) as u64, ..*self }
        } else {
            *self
        }
    }

    fn __next__(slf: &mut Countdown) -> (r: IterNextOutput<u64, ()>) {
        if slf.remaining > 0 {
            slf.remaining = slf.remaining - 1;
            IterNextOutput::Yield(slf.remaining)
        } else {
            IterNextOutput::Return(())
        }
    }
}

impl PyIterSlots for Countdown {
}

} // verus!
