//! Client-side logic for a managed distributed SQL service: a connection
//! pool whose authentication token is rotated before it expires, and the
//! decisions of cluster management (requests, status names, bounded polling,
//! peered setup of two clusters).

pub mod cluster;
pub mod error;
pub mod establish;
pub mod exercise;
pub mod identity;
pub mod options;
pub mod policy;
pub mod pool;
pub mod waiter;
pub mod workflow;
