//! Background loader of per-commit source statistics for a repository.
//!
//! The loader's decisions (which workspace to provision, which reference to
//! resolve, how far to walk, what to emit) are a verified state machine; the
//! version-control, filesystem and counting work is done by whoever drives it.
use vstd::prelude::*;

pub mod config;
pub mod laws;
pub mod loader;
pub mod provision;
pub mod report;
pub mod resolve;
pub mod series;
