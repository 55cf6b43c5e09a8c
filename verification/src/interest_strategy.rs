//! The interest rate as a piecewise-linear curve of the pool's utilization.

use crate::decimal::{spec_add, spec_mul, spec_sub, Decimal};
use crate::utils::{err_text, is_valid_rate, message, spec_is_valid_rate};
use vstd::prelude::*;

verus! {

/// A point of the curve: from `usage` on, the rate grows by `slope` per unit
/// of utilization.
#[derive(Clone, Copy, Debug, PartialEq, Eq, Structural)]
pub struct ISInputBreakPoint {
    pub usage: Decimal,
    pub slope: Decimal,
}

/// A rate at zero utilization and the points at which the slope changes.
#[derive(Debug)]
pub struct InterestStrategy {
    pub initial_rate: Decimal,
    pub break_points: Vec<ISInputBreakPoint>,
}

pub open spec fn err_breakpoint_usage() -> Seq<char> {
    "Breakpoint usage must be between 0 and 1"@
}

pub open spec fn err_breakpoint_order() -> Seq<char> {
    "Breakpoint usages must be strictly increasing"@
}

pub open spec fn err_rate_overflow() -> Seq<char> {
    "Interest rate overflow"@
}

/// Every usage lies in `[0, 1]` and each is larger than the one before.
pub open spec fn breakpoints_valid(bps: Seq<ISInputBreakPoint>) -> bool {
    &&& forall|i: int| 0 <= i < bps.len() ==> spec_is_valid_rate(#[trigger] bps[i].usage@)
    &&& forall|i: int, j: int| 0 <= i < j < bps.len() ==> bps[i].usage@ < bps[j].usage@
}

/// The complaint about the first point, from index `i` on, whose usage is out
/// of range or not above its predecessor's.
pub open spec fn breakpoints_error(bps: Seq<ISInputBreakPoint>, i: int) -> Option<Seq<char>>
    decreases bps.len() - i,
{
    if i < 0 || i >= bps.len() {
        None
    } else if !spec_is_valid_rate(bps[i].usage@) {
        Some(err_breakpoint_usage())
    } else if i > 0 && bps[i].usage@ <= bps[i - 1].usage@ {
        Some(err_breakpoint_order())
    } else {
        breakpoints_error(bps, i + 1)
    }
}

/// The end of the segment that starts at point `i`, cut at `usage`.
pub open spec fn segment_end(bps: Seq<ISInputBreakPoint>, i: int, usage: int) -> int {
    if i + 1 < bps.len() && bps[i + 1].usage@ < usage {
        bps[i + 1].usage@
    } else {
        usage
    }
}

/// The rate reached at `usage` when the walk stands before point `i` with
/// `rate` accumulated: each segment below `usage` adds its slope times its
/// covered width. Nothing if an amount leaves the range on the way.
pub open spec fn rate_from(bps: Seq<ISInputBreakPoint>, i: int, usage: int, rate: int) -> Option<int>
    decreases bps.len() - i,
{
    if i < 0 || i >= bps.len() || usage <= bps[i].usage@ {
        Some(rate)
    } else {
        match spec_sub(segment_end(bps, i, usage), bps[i].usage@) {
            None => None,
            Some(width) => match spec_mul(bps[i].slope@, width) {
                None => None,
                Some(increase) => match spec_add(rate, increase) {
                    None => None,
                    Some(next) => rate_from(bps, i + 1, usage, next),
                },
            },
        }
    }
}

impl InterestStrategy {
    /// Whether the points are in range and in order.
    pub open spec fn valid(self) -> bool {
        breakpoints_valid(self.break_points@)
    }

    /// The rate at `usage`, if it can be computed.
    pub open spec fn spec_rate(self, usage: int) -> Option<int> {
        rate_from(self.break_points@, 0, usage, self.initial_rate@)
    }

    /// A flat curve at rate zero.
    pub fn new() -> (r: InterestStrategy)
        ensures
            r.initial_rate@ == 0,
            r.break_points@.len() == 0,
            r.valid(),
    {
        InterestStrategy { initial_rate: Decimal::zero(), break_points: Vec::new() }
    }

    /// Replaces the curve if every usage lies in `[0, 1]` and the usages
    /// strictly increase; otherwise keeps the old curve and reports the first
    /// offending point.
    pub fn set_breakpoints(&mut self, initial_rate: Decimal, break_points: Vec<ISInputBreakPoint>) -> (r:
        Result<(), String>)
        ensures
            err_text(r) == breakpoints_error(break_points@, 0),
            r.is_ok() <==> breakpoints_valid(break_points@),
            r.is_ok() ==> final(self).initial_rate == initial_rate && final(self).break_points@
                == break_points@,
            r.is_err() ==> *final(self) == *old(self),
    {
        let n = break_points.len();
        let mut i: usize = 0;
        while i < n
            invariant
                n == break_points@.len(),
                0 <= i <= n,
                breakpoints_error(break_points@, 0) == breakpoints_error(break_points@, i as int),
                forall|k: int| 0 <= k < i ==> spec_is_valid_rate(#[trigger] break_points@[k].usage@),
                forall|k: int, l: int| 0 <= k < l < i ==> break_points@[k].usage@ < break_points@[l].usage@,
            decreases n - i,
        {
            let point = break_points[i];
            if !is_valid_rate(point.usage) {
                return Err(message("Breakpoint usage must be between 0 and 1"));
            }
            if i > 0 {
                let previous = break_points[i - 1];
                if point.usage.le(previous.usage) {
                    assert(!(break_points@[i - 1].usage@ < break_points@[i as int].usage@));
                    return Err(message("Breakpoint usages must be strictly increasing"));
                }
                assert forall|k: int, l: int| 0 <= k < l < i + 1 implies break_points@[k].usage@
                    < break_points@[l].usage@ by {
                    if l == i && k < i - 1 {
                        assert(break_points@[k].usage@ < break_points@[i - 1].usage@);
                    }
                }
            }
            i = i + 1;
        }
        self.initial_rate = initial_rate;
        self.break_points = break_points;
        Ok(())
    }

    /// The rate at the given utilization: the initial rate plus, for each
    /// segment that starts below the utilization, its slope times the part of
    /// it that the utilization covers.
    pub fn get_interest_rate(&self, usage: Decimal) -> (r: Result<Decimal, String>)
        ensures
            match r {
                Ok(rate) => self.spec_rate(usage@) == Some(rate@),
                Err(e) => self.spec_rate(usage@).is_none() && e@ == err_rate_overflow(),
            },
    {
        let n = self.break_points.len();
        let mut rate = self.initial_rate;
        let mut i: usize = 0;
        while i < n
            invariant
                n == self.break_points@.len(),
                0 <= i <= n,
                self.spec_rate(usage@) == rate_from(self.break_points@, i as int, usage@, rate@),
            decreases n - i,
        {
            let point = self.break_points[i];
            if usage.le(point.usage) {
                return Ok(rate);
            }
            let mut end = usage;
            if i + 1 < n {
                let next = self.break_points[i + 1];
                if next.usage.lt(usage) {
                    end = next.usage;
                }
            }
            assert(end@ == segment_end(self.break_points@, i as int, usage@));
            let width = match end.checked_sub(point.usage) {
                Some(w) => w,
                None => {
                    return Err(message("Interest rate overflow"));
                },
            };
            let increase = match point.slope.checked_mul(width) {
                Some(v) => v,
                None => {
                    return Err(message("Interest rate overflow"));
                },
            };
            rate = match rate.checked_add(increase) {
                Some(v) => v,
                None => {
                    return Err(message("Interest rate overflow"));
                },
            };
            i = i + 1;
        }
        Ok(rate)
    }
}

impl Clone for InterestStrategy {
    fn clone(&self) -> (r: InterestStrategy)
        ensures
            r.initial_rate == self.initial_rate,
            r.break_points@ == self.break_points@,
    {
        let mut points: Vec<ISInputBreakPoint> = Vec::new();
        let n = self.break_points.len();
        let mut i: usize = 0;
        while i < n
            invariant
                n == self.break_points@.len(),
                0 <= i <= n,
                points@ == self.break_points@.subrange(0, i as int),
            decreases n - i,
        {
            points.push(self.break_points[i]);
            assert(points@ == self.break_points@.subrange(0, i + 1));
            i = i + 1;
        }
        assert(points@ == self.break_points@);
        InterestStrategy { initial_rate: self.initial_rate, break_points: points }
    }
}

/// With no negative slope on a valid curve, the walk never lowers the rate.
pub proof fn lemma_rate_not_below_start(bps: Seq<ISInputBreakPoint>, i: int, usage: int, rate: int)
    requires
        breakpoints_valid(bps),
        0 <= i,
        forall|k: int| 0 <= k < bps.len() ==> #[trigger] bps[k].slope@ >= 0,
    ensures
        match rate_from(bps, i, usage, rate) {
            Some(v) => v >= rate,
            None => true,
        },
    decreases bps.len() - i,
{
    if i < bps.len() && usage > bps[i].usage@ {
        let end = segment_end(bps, i, usage);
        if i + 1 < bps.len() {
            assert(bps[i].usage@ < bps[i + 1].usage@);
        }
        let width = end - bps[i].usage@;
        assert(width >= 0);
        let slope = bps[i].slope@;
        assert(slope >= 0);
        assert(slope * width >= 0) by (nonlinear_arith)
            requires
                slope >= 0,
                width >= 0,
        ;
        match spec_mul(slope, width) {
            Some(increase) => {
                assert(increase >= 0);
                match spec_add(rate, increase) {
                    Some(next) => {
                        lemma_rate_not_below_start(bps, i + 1, usage, next);
                    },
                    None => {},
                }
            },
            None => {},
        }
    }
}

} // verus!
