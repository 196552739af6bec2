use vstd::prelude::*;

use crate::bar::Bar;

verus! {

/// `|x|`.
pub open spec fn abs(x: int) -> int {
    if x < 0 {
        -x
    } else {
        x
    }
}

/// The true range of `b`: its own range widened to the previous close, where one exists.
pub open spec fn true_range_of(previous_close: Option<u32>, b: Bar) -> int {
    let range = b.high - b.low;
    match previous_close {
        None => range,
        Some(c) => {
            let up = abs(b.high - c);
            let down = abs(b.low - c);
            let wider = if up > down {
                up
            } else {
                down
            };
            if wider > range {
                wider
            } else {
                range
            }
        },
    }
}

/// One-bar volatility: the greatest of the bar's range and its distances from the
/// previous close.
pub struct TrueRange {
    previous_close: Option<u32>,
}

impl View for TrueRange {
    type V = Option<u32>;

    /// The close of the bar before, if one was seen.
    closed spec fn view(&self) -> Option<u32> {
        self.previous_close
    }
}

impl TrueRange {
    /// A true range that has seen no bar.
    pub fn new() -> (r: Self)
        ensures
            r@ == None::<u32>,
    {
        TrueRange { previous_close: None }
    }

    /// The true range of `b`; `b` then becomes the previous bar.
    pub fn next(&mut self, b: &Bar) -> (r: u64)
        requires
            b.wf(),
        ensures
            r == true_range_of(old(self)@, *b),
            r <= 0xffff_ffff,
            final(self)@ == Some(b.close),
    {
        let range: u64 = (b.high - b.low) as u64;
        let r = match self.previous_close {
            None => range,
            Some(c) => {
                let up: u64 = if b.high >= c {
                    (b.high - c) as u64
                } else {
                    (c - b.high) as u64
                };
                let down: u64 = if b.low >= c {
                    (b.low - c) as u64
                } else {
                    (c - b.low) as u64
                };
                let wider: u64 = if up > down {
                    up
                } else {
                    down
                };
                if wider > range {
                    wider
                } else {
                    range
                }
            },
        };
        self.previous_close = Some(b.close);
        r
    }

    /// Forgets the previous bar.
    pub fn reset(&mut self)
        ensures
            final(self)@ == None::<u32>,
    {
        self.previous_close = None;
    }
}

} // verus!
