//! Segmented-stream download engine: playlist planning, key cache, bounded
//! scheduling with retry, AES-128 decryption, ordered assembly and cleanup,
//! together with the HTTP retry and response-cache rules that feed it.

pub mod args;
pub mod assembly;
pub mod catalog;
pub mod cipher;
pub mod commands;
pub mod digest;
pub mod downloader;
pub mod error;
pub mod hexcode;
pub mod locator;
pub mod lookup;
pub mod parser;
pub mod plan;
pub mod playlist;
pub mod request;
pub mod resolver;
pub mod schedule;
pub mod segment;
pub mod source;
pub mod text;
