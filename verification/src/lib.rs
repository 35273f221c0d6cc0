//! A per-sample audio filter engine in Q32 fixed point.
//!
//! Four switchable lowpass filter emulations stand behind one interface
//! (`bank::Filter`), fed by an exponential parameter smoother
//! (`smoother::ParameterSmoother`) whose smoothing time may be derived from
//! a musical duration and a tempo (`sync`). Every signal value, parameter
//! and coefficient is a Q32 fixed-point number: an `i64` holding the real
//! value scaled by 2^32, kept within a saturation range so that every
//! operation is total.

pub mod fixed;
pub mod approx;
pub mod arp4075;
pub mod le13700;
pub mod moog;
pub mod roland;
pub mod bank;
pub mod smoother;
pub mod sync;
pub mod params;
pub mod engine;
