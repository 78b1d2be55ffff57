//! A declarative, JSON-configured orchestration engine for machine setup.
//!
//! A configuration is a tree of single-key command nodes. The renderer walks
//! the tree in order, dispatches each node through a fixed registry of
//! commands, and distinguishes hard configuration errors from soft failures.
//! Leaf commands perform one operating-system effect each; those effects sit
//! behind the [`platform::Platform`] trait, so the whole interpreter is
//! ordinary verified code over plain values.

pub mod action;
pub mod commands;
pub mod condition;
pub mod errors;
pub mod executor_factory;
pub mod json;
pub mod platform;
pub mod rendering;
pub mod template;
pub mod text;
pub mod vars;
