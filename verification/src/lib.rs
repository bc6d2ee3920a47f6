//! An in-process metrics core: thread-sharded aggregation of counters,
//! a sampler registry driving periodic collection, a multi-resolution
//! time-series store, and a name registry for exposing live metrics.

pub mod combiner;
pub mod recorder;
pub mod sampler;
pub mod reducer;
pub mod series;
pub mod text;
pub mod status;
pub mod variable;
pub mod window;
