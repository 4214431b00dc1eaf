//! Core of a weighted round-robin load balancer.
//!
//! - `backend`: the backends of one run, addresses and weights, and what
//!   makes a list of them acceptable.
//! - `schedule`: the weighted round-robin schedule as arithmetic on the
//!   weights, with what is proved of it.
//! - `selector`: the selector that steps through the schedule, alone or
//!   shared by many workers behind a lock.
//! - `proxy`: the request that is sent to the selected backend, and the text
//!   that is made of its answer.
//! - `connection`: what is done with one client connection, event by event.
//! - `pool`: the sizes of the queue, the read buffer and the worker pool.
//! - `dashboard`: the list of servers that the dashboard shows.
//! - `outside`: the calls into other crates, whose contracts are taken on
//!   trust.

pub mod backend;
pub mod connection;
pub mod dashboard;
pub mod outside;
pub mod pool;
pub mod proxy;
pub mod schedule;
pub mod selector;
