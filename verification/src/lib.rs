//! A streaming sink that hands parameterised PostgreSQL writes from a fast
//! producer to a single background worker over a queue, with depth-based
//! backpressure towards the producer.

pub mod channel;
pub mod errors;
pub mod flow;
pub mod pool;
pub mod row;
pub mod sink;
pub mod worker;
