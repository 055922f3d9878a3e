//! Core engine of a grading-sandbox client.
//!
//! The crate models the lifecycle of one graded project: a persisted
//! `Status` record gates every operation, a declarative `Config` policy is
//! compiled into the argument list of one of two sandbox backends, and the
//! mount manager plans the privileged filesystem commands that build and tear
//! down the overlay root.  Everything here is pure computation over plain
//! values; the surrounding binary performs the subprocess and storage work
//! and feeds the results back in.

pub mod codec;
pub mod firejail;
pub mod flags;
pub mod guard;
pub mod mount;
pub mod nspawn;
pub mod policy;
pub mod status;
pub mod supervise;
pub mod textfmt;
