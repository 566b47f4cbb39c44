//! Verified core of a small download-link service: configuration values,
//! the rules that turn a history record into a time-limited download link,
//! and the decisions that resolve a link back to a stored file.
pub mod time;
pub mod text;
pub mod link_id;
pub mod domain;
pub mod config;
pub mod register;
pub mod download;
pub mod dto;
pub mod laws;
