use libc::c_int;
use vstd::prelude::*;

verus! {

/// A range of integration: `Bounded(a, b)` is `[a, b]`, `UpperInf(lo)` is
/// `[lo, +inf)`, `LowerInf(hi)` is `(-inf, hi]` and `Infinite` the whole line.
#[derive(Clone, Copy, Debug, PartialEq)]
pub enum QuadpackInterval<T> {
    Bounded(T, T),
    UpperInf(T),
    LowerInf(T),
    Infinite,
}

/// The QUADPACK routine that integrates over an interval, with the arguments
/// that describe the interval to it: QAGS takes the finite ends `a` and `b`;
/// QAGI takes a finite `bound` and `inf`, which is 1 for `[bound, +inf)`, -1
/// for `(-inf, bound]` and 2 for the whole line (where `bound` is not used).
#[derive(Clone, Copy, Debug, PartialEq)]
pub enum QuadpackRoutine<T> {
    Qags { a: T, b: T },
    Qagi { bound: T, inf: c_int },
}

impl<T: Copy + Default> QuadpackInterval<T> {
    /// Chooses QAGS for a finite interval and QAGI for an infinite one; for
    /// the whole line the unused bound is `T::default()` (zero for floats).
    pub fn routine(self) -> (r: QuadpackRoutine<T>)
        ensures
            match self {
                QuadpackInterval::Bounded(a, b) => r == QuadpackRoutine::Qags { a, b },
                QuadpackInterval::UpperInf(lo) => r == QuadpackRoutine::Qagi { bound: lo, inf: 1 },
                QuadpackInterval::LowerInf(hi) => r == QuadpackRoutine::Qagi { bound: hi, inf: -1i32 },
                QuadpackInterval::Infinite => r matches QuadpackRoutine::Qagi { bound, inf } && inf
                    == 2 && call_ensures(T::default, (), bound),
            },
    {
        match self {
            QuadpackInterval::Bounded(a, b) => QuadpackRoutine::Qags { a, b },
            QuadpackInterval::UpperInf(lo) => QuadpackRoutine::Qagi { bound: lo, inf: 1 },
            QuadpackInterval::LowerInf(hi) => QuadpackRoutine::Qagi { bound: hi, inf: -1 },
            QuadpackInterval::Infinite => QuadpackRoutine::Qagi { bound: T::default(), inf: 2 },
        }
    }
}

} // verus!
