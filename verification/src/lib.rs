//! Verified core of a QUADPACK binding: workspace sizing, the choice of
//! integration routine for an interval, the meaning of QUADPACK's status codes
//! and of the machine-constant queries that the Fortran code makes.

pub mod interval;
pub mod machine;
pub mod scratch;
pub mod status;

pub use interval::QuadpackInterval::{Bounded, Infinite, LowerInf, UpperInf};
pub use interval::{QuadpackInterval, QuadpackRoutine};
pub use machine::{machine_code_injective, MachineConstant};
pub use scratch::{bytes_per_subdiv, subdivs_for_bytes, QuadpackScratch};
pub use status::{error_code, error_code_injective, result_from_status, QuadpackError, QuadpackResult};
