//! Convergence watching for BGP routers: per-peer update counters are sampled
//! from a router, and the measurement is complete once the counters stop
//! changing across a sliding window of samples.

pub mod backend;
pub mod bird;
pub mod counter;
pub mod error;
pub mod fold;
pub mod frr;
pub mod gobgp;
pub mod json;
pub mod openbgpd;
pub mod pattern;
pub mod poll;
pub mod text;
pub mod window;
