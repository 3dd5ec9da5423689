//! Verified core of a POSIX-like remote filesystem that is backed by a
//! container runtime offering only command execution.
//!
//! The crate holds the pure logic of the client: parsing `ls -l` listing
//! lines into structured entries, encoding and decoding the shell protocol
//! that recovers an exit status from a single output stream, decomposing
//! virtual `/pod/container/path` paths, and the state machines of the
//! single-container client and of the multi-pod namespace layer. All
//! remote I/O is performed by the (unverified) embedding, which feeds the
//! raw outcomes back into the verified decision functions defined here.

pub mod client;
pub mod commands;
pub mod errors;
pub mod kube_path;
pub mod listing;
pub mod multipod;
pub mod paths;
pub mod shell;
pub mod text;
pub mod transfer;
