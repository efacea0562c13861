//! Integer core of a Monte Carlo path tracer: render configuration, the
//! division of the sample budget among workers, the film's pixel layout,
//! progress reporting, the axis bookkeeping of axis-aligned faces and the
//! index-based scene store.

pub mod face;
pub mod coordinator;
pub mod config;
pub mod progress;
pub mod scene;
pub mod integrator;
pub mod film;
