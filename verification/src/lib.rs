//! Delayed webhook dispatch.
//!
//! A webhook configuration names two groups of endpoints: an instant group,
//! which receives a submitted payload as soon as it is processed, and a
//! delayed group, which receives it once the configured number of seconds has
//! passed since submission. This crate holds the dispatch pool that decides,
//! tick by tick, which deliveries are due, together with the replies of the
//! HTTP surface. Network and database traffic is left to the caller: the
//! library is handed what the outside world answered and says what to do next.

pub mod db;
pub mod lifecycle;
pub mod outcome;
pub mod pool;
pub mod routes;
pub mod time;
