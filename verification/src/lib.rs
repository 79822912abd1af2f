//! A minimal user-record store: create, find and list `User` records
//! through a repository contract, backed by a concurrency-safe in-memory
//! store behind a shared, lock-guarded handle.

pub mod config;
pub mod handle;
pub mod laws;
pub mod repository;
pub mod store;
pub mod user;
