//! A small verified error-propagation pipeline: two fallible integer
//! stages chained with short-circuit failure propagation, and a driver
//! that runs the pipeline over a fixed range of inputs.

pub mod decimal;
pub mod driver;
pub mod pipeline;
