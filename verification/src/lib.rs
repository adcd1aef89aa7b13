//! Verified core of a small revision store for character sheets, together
//! with the pure parts of the tools that are built around it.
//!
//! The store keeps versioned documents, each owned by one principal. It is
//! written without any input or output of its own: every operation is a
//! state machine that names the file-system action it needs next and is
//! resumed with what the file system answered. [`disk::Disk`] is a model of
//! the durable layout against which the operations run and against which the
//! laws of the store are proved.
pub mod client;
pub mod codec;
pub mod components;
pub mod discord_bot;
pub mod disk;
pub mod embeds;
pub mod env_arg;
pub mod errors;
pub mod identifier;
pub mod image;
pub mod laws;
pub mod layout;
pub mod metadata;
pub mod options;
pub mod resources;
pub mod rpc;
pub mod run;
pub mod service;
pub mod status;
pub mod store;
pub mod table;
pub mod text;
