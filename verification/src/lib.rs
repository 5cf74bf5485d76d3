//! Traffic at a four-way junction, simulated in fixed-point arithmetic.
//!
//! Every vehicle decides for itself, from the positions of the others, whether
//! it may go on: there is no traffic light and no negotiation. The crate holds
//! the geometry of the junction, the vehicles and their clearance tests, the
//! fleet with its per-tick pass and its eviction, and the running statistics.
//!
//! Quantities are integers. Lengths and coordinates are thousandths of a pixel
//! and speeds are thousandths of a speed unit (see [`units::SCALE`]); angles are
//! thousandths of a radian; times are ticks, sixty to the second. A product of
//! a length and a decimal factor is rounded towards zero, and a coordinate that
//! would leave the range of `i64` stops at the end of that range.
//!
//! The functions state what they need as `requires` and what they give as
//! `ensures`. A caller that is not verified can test the main conditions at
//! run time with the `is_wf` functions.

pub mod car;
mod chance;
pub mod intersection;
pub mod state;
pub mod statistics;
pub mod units;
