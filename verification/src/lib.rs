//! Typed access to the parameters of the Gurobi optimizer's C interface.

pub mod constants;
pub mod cstr;
pub mod double;
pub mod native;
pub mod param;
pub mod status;
pub mod text;
