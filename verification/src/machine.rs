use libc::c_int;
use vstd::prelude::*;

verus! {

/// The machine constants that the Fortran code asks for through `R1MACH` and
/// `D1MACH`, by code 1 to 5: the smallest positive normal number, the largest
/// number, the smallest and the largest relative spacing (half the epsilon and
/// the epsilon), and the decimal logarithm of the radix.
#[derive(Clone, Copy, Debug, PartialEq, Eq)]
pub enum MachineConstant {
    SmallestPositive,
    Largest,
    SmallestSpacing,
    LargestSpacing,
    Log10Radix,
}

impl MachineConstant {
    /// The code by which the Fortran code asks for the constant.
    pub open spec fn code(self) -> int {
        match self {
            MachineConstant::SmallestPositive => 1,
            MachineConstant::Largest => 2,
            MachineConstant::SmallestSpacing => 3,
            MachineConstant::LargestSpacing => 4,
            MachineConstant::Log10Radix => 5,
        }
    }

    /// The constant asked for by `code`; there is none outside 1 to 5.
    pub fn from_code(code: c_int) -> (r: Option<MachineConstant>)
        ensures
            r is Some <==> 1 <= code <= 5,
            r matches Some(k) ==> k.code() == code,
    {
        match code {
            1 => Some(MachineConstant::SmallestPositive),
            2 => Some(MachineConstant::Largest),
            3 => Some(MachineConstant::SmallestSpacing),
            4 => Some(MachineConstant::LargestSpacing),
            5 => Some(MachineConstant::Log10Radix),
            _ => None,
        }
    }
}

/// Each constant has its own code: a code asks for at most one constant.
pub proof fn machine_code_injective(k1: MachineConstant, k2: MachineConstant)
    ensures
        1 <= k1.code() <= 5,
        k1.code() == k2.code() ==> k1 == k2,
{
}

} // verus!
