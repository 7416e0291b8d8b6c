//! Republishes a feed on an alternate timeline: every upstream entry is given
//! a derived release instant, computed from its original publish instant, an
//! anchor instant and a pace.

pub mod arith;
pub mod batch;
pub mod control;
pub mod create;
pub mod dates;
pub mod edit;
pub mod error;
pub mod feed;
pub mod intake;
pub mod laws;
pub mod lookup;
pub mod order;
pub mod pace;
pub mod reconcile;
pub mod rewrite;
pub mod schedule;
pub mod scrub;
pub mod server;
pub mod signup;
pub mod state;
pub mod text;
pub mod time;
pub mod update;
