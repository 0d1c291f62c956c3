//! A unit-of-work core for an incremental build orchestrator: a deferred,
//! single-use computation (`Work`) with sequential composition, and a
//! two-path dispatch wrapper (`Job`) that runs either its dirty or its fresh
//! path according to a freshness verdict computed elsewhere.  Every
//! computation reports progress through a shared [`handle::Handle`].

pub mod behavior;
pub mod handle;
pub mod job;
pub mod work;
