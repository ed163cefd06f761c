//! Core of a temperature/humidity charting front end: auto-scaling of the two
//! vertical axes, binding of fetched measurement batches to renderable series,
//! and the decisions around one measurement fetch.
//!
//! Sample values are carried as fixed-point integers in thousandths of a unit
//! (milli-degrees, milli-percent), so that axis arithmetic is exact.

pub mod scale;
pub mod chart;
pub mod fetch;
