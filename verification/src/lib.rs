//! A branch synchronization engine for local git working copies.
//!
//! The library reconciles a local repository with a remote counterpart:
//! it fetches, classifies the relationship between local and remote history,
//! performs fast-forward or three-way merges, resolves index conflicts with a
//! deterministic whole-file policy, and reports per-file change statistics.
//! The underlying object store, merge and diff algorithms, and network
//! transport are supplied by the `git2` crate; every call into it stands
//! behind a small trusted interface in [`store`], while all policy decisions
//! are verified.

pub mod diffstat;
pub mod ops;
pub mod policy;
pub mod store;
pub mod strutil;
pub mod types;
