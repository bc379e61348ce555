//! Coordination between the single game thread, which alone may touch the
//! simulation state, and the asynchronous tasks that ask it for work and
//! listen for what it reports.

pub mod results;
pub mod mapping;
pub mod fog;
pub mod setup;
pub mod messages;
pub mod requests;
pub mod context;
