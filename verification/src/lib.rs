//! A minimalist helper for a community package repository: it resolves a
//! package name against the remote metadata API, prepares a scratch build
//! workspace, drives the clone/build/retry pipeline, and falls back to ranked
//! fuzzy suggestions when exact resolution fails.

pub mod api;
pub mod errors;
pub mod matcher;
pub mod orchestrator;
pub mod pipeline;
pub mod record;
pub mod resolver;
pub mod runner;
pub mod suggest;
pub mod workspace;
