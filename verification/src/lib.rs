//! The decisions of a small walk through an S3-compatible object store:
//! which settings the program needs, which remote operations it attempts and
//! in which order, when it stops, and what it prints along the way.
//!
//! Nothing here touches the network or the process environment. A driver
//! reads the environment, performs each remote call and prints each line;
//! this crate says, with proofs, what is to be read, called and printed.

pub mod config;
pub mod operation;
pub mod report;
pub mod session;
pub mod text;
