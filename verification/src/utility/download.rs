//! A download coordinator for fetching files over HTTP or HTTPS on a
//! bounded pool of workers.
//!
//! The modules are layered, leaves first: the failure causes, the status of
//! a download, the record of one download, the decisions of one transfer,
//! the shared cell through which a worker and its observers meet, and the
//! manager that owns the pool and the registry.

pub mod error;
pub mod manager;
pub mod ranges;
pub mod shared;
pub mod state;
pub mod status;
pub mod transfer;
