use libc::c_int;
use vstd::prelude::*;

verus! {

/// Why a QUADPACK integration routine gave up; each variant is one nonzero
/// value of the routine's `ier` output.
#[derive(Clone, Copy, Debug, PartialEq, Eq)]
pub enum QuadpackError {
    MaxSubdivisions,
    RoundoffError,
    BadIntegrand,
    NoConverge,
    Divergent,
    InvalidInput,
}

/// The `ier` value by which QUADPACK reports each error.
pub open spec fn error_code(e: QuadpackError) -> int {
    match e {
        QuadpackError::MaxSubdivisions => 1,
        QuadpackError::RoundoffError => 2,
        QuadpackError::BadIntegrand => 3,
        QuadpackError::NoConverge => 4,
        QuadpackError::Divergent => 5,
        QuadpackError::InvalidInput => 6,
    }
}

/// A converged integral: its value, QUADPACK's estimate of the absolute
/// error, the number of integrand evaluations and of subintervals used.
#[derive(Clone, Copy, Debug, PartialEq)]
pub struct QuadpackResult<T> {
    pub value: T,
    pub abserr: T,
    pub neval: usize,
    pub nsubdiv: usize,
}

/// Interprets what a QUADPACK routine wrote back: `ier` is its status, `value`
/// and `abserr` the integral and error estimate, `neval` and `last` the number
/// of evaluations and of subintervals. Status 0 is success; 1 to 6 are the
/// documented failures. The counts are converted as Rust's `as` does.
pub fn result_from_status<T>(
    ier: c_int,
    value: T,
    abserr: T,
    neval: c_int,
    last: c_int,
) -> (r: Result<QuadpackResult<T>, QuadpackError>)
    requires
        0 <= ier <= 6,
    ensures
        r is Ok <==> ier == 0,
        ier == 0 ==> r == Ok::<QuadpackResult<T>, QuadpackError>(
            QuadpackResult { value, abserr, neval: neval as usize, nsubdiv: last as usize },
        ),
        r matches Err(e) ==> error_code(e) == ier,
{
    match ier {
        0 => Ok(QuadpackResult { value, abserr, neval: neval as usize, nsubdiv: last as usize }),
        1 => Err(QuadpackError::MaxSubdivisions),
        2 => Err(QuadpackError::RoundoffError),
        3 => Err(QuadpackError::BadIntegrand),
        4 => Err(QuadpackError::NoConverge),
        5 => Err(QuadpackError::Divergent),
        _ => Err(QuadpackError::InvalidInput),
    }
}

/// Distinct errors have distinct status codes, and every code lies in 1..=6:
/// a status code names at most one error.
pub proof fn error_code_injective(e1: QuadpackError, e2: QuadpackError)
    ensures
        1 <= error_code(e1) <= 6,
        error_code(e1) == error_code(e2) ==> e1 == e2,
{
}

} // verus!
