//! Per-agent execution and transactional commit engine.
//!
//! Each agent owns an append-only chain of entries. A zome invocation stages
//! proposed entries in a commit bundle, and the bundle reaches the chain in one
//! atomic step, and only after the guest ran to a successful end.
//!
//! The parts, leaves first:
//!
//! - [`registry`]: at most one storage handle for each path;
//! - [`env`]: one storage partition, with read snapshots and write
//!   transactions, and [`kind`], which says where each partition is stored;
//! - [`bundle`] and [`chain`]: staged entries and the committed chain;
//! - [`cell`]: one application run by one agent;
//! - [`workflow`]: one invocation from the captured head to the commit;
//! - [`zome_api`]: what a guest may call back into while it runs.
//!
//! Beside them stand the values that travel with them ([`hash`], [`cell_id`],
//! [`nucleus`], [`error`], [`debug`], [`db_string`]), the options and tuning
//! parameters of storage and network ([`options`], [`config`]), and what
//! tests are set up with ([`test_utils`], [`cool_conductor`], [`init_fail`]).

pub mod registry;
pub mod env;
pub mod kind;
pub mod bundle;
pub mod chain;
pub mod cell;
pub mod workflow;
pub mod zome_api;

pub mod hash;
pub mod cell_id;
pub mod nucleus;
pub mod error;
pub mod debug;
pub mod db_string;

pub mod options;
pub mod config;
pub mod decimal;
pub mod text;

pub mod test_utils;
pub mod cool_conductor;
pub mod init_fail;
