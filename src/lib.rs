//! Native bridge operations and the greeting command of the desktop shell,
//! each stated as a pure function with an exact contract.

pub mod decimal;
pub mod bridge;
pub mod greeting;
