//! Validation gateway for coinbase-puzzle submissions in a mining pool.
//!
//! A miner submits a candidate solution (nonce, commitment, proof, epoch
//! challenge) together with pool-assigned constraints: a nonce-extension
//! prefix and a minimum difficulty target.  The gateway parses the
//! submission, checks the nonce against the pool-assigned prefix mask,
//! enforces the difficulty floor, and folds the external verifier's
//! answer into a single outcome.

pub mod policy;
pub mod text;
pub mod model;
pub mod hexcodec;
pub mod parse;
pub mod jsonext;
pub mod submission;
pub mod orchestrate;
