use vstd::prelude::*;

verus! {

/// One price bar. Prices are whole ticks (the smallest price increment the caller
/// chose), volume is in whole units.
#[derive(Clone, Copy, Debug, PartialEq, Eq, Structural)]
pub struct Bar {
    pub open: u32,
    pub high: u32,
    pub low: u32,
    pub close: u32,
    pub volume: u32,
}

impl Bar {
    /// The low is the lowest of the bar's prices.
    pub open spec fn wf(&self) -> bool {
        self.low <= self.open && self.low <= self.close && self.low <= self.high
    }

    /// High plus low plus close: three times the typical price, kept exact.
    pub open spec fn hlc(&self) -> int {
        self.high + self.low + self.close
    }

    /// The typical price `(high + low + close) / 3`, rounded down to a tick.
    pub open spec fn typical(&self) -> int {
        self.hlc() / 3
    }
}

} // verus!
