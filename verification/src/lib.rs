//! The logic of a downloader for a streaming catalog: which metadata is
//! asked for and what its answers become, which quality tier each track is
//! fetched at, which directories and files are written, and which tags go
//! into them. Every decision is stated as a contract and proved.
//!
//! The library does no input or output. A run is a [`session::Session`]
//! that asks for one piece of outside work at a time and is told what came
//! of it; [`download`] begins one.

pub mod client;
pub mod config;
pub mod cover;
pub mod download;
pub mod entities;
pub mod gql;
pub mod job;
pub mod models;
pub mod paths;
pub mod protocol;
pub mod quality;
pub mod resolver;
pub mod session;
pub mod table;
pub mod tagging;
pub mod tags;
pub mod text;

pub use crate::client::Client;
pub use crate::config::Config;
pub use crate::config::LogFormat;
pub use crate::config::LogLevel;
pub use crate::download::download;
pub use crate::quality::Quality;
