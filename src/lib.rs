//! Organizations, their uploaded files, and the bounded multipart upload
//! pipeline that stores those files under a per-organization directory.

pub mod ids;
pub mod models;
pub mod upload;
pub mod api;
pub mod config;
