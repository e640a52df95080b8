//! Building blocks of an adaptive Dormand-Prince 5(4) integrator for
//! `dy/dt = f(t, y)`.
//!
//! - `tableau`: the method's coefficients as exact rationals, with the
//!   consistency, quadrature, stage and third-order conditions proved.
//! - `driver`: the integration driver as a state machine over step reports:
//!   configuration checks, acceptance and rejection, statistics, the evaluation
//!   ceiling, terminal states, and which output samples fall due.
//! - `table`: the rows of the two-column table of samples handed to an exporter.
use vstd::prelude::*;

pub mod driver;
pub mod table;
pub mod tableau;

verus! {

} // verus!
