//! An operation submission gateway: the layer that turns collection and
//! snapshot requests into operations against an external executor and decides,
//! per request, whether the caller waits for the outcome.

pub mod gateway;
pub mod lookup;
pub mod operation;
pub mod outcome;
pub mod policy;
pub mod query;
pub mod response;
pub mod routes;
pub mod snapshot;
pub mod trace;
