//! A small self-hosted package registry: the logic that turns an uploaded
//! package into archive and index files, and the publish transaction that
//! records them in a git-backed index.

pub mod checksum;
pub mod sharding;
pub mod payload;
pub mod metadata;
pub mod err_context;
pub mod storage;
pub mod publish;
pub mod config;
pub mod responses;
