//! Offloading of blocking calls from an event loop to an elastic pool of
//! worker threads, with cancellation of the work in flight.

pub mod cancel;
pub mod io;
pub mod pool;
pub mod task;
