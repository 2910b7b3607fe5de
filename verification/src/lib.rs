//! Verified core of the Miku Push! desktop client: the upload model, the
//! in-progress upload registry, the upload queue and worker decisions, the
//! configuration and server model, and the error vocabulary shared with the
//! server API.

pub mod status;
pub mod ids;
pub mod server;
pub mod upload;
pub mod state;
pub mod client;
pub mod queue;
pub mod cancellation;
pub mod worker;
pub mod text;
pub mod theme;
pub mod config;
pub mod language;
pub mod errors;
pub mod resources;
pub mod mime_type;
pub mod encoder;
pub mod zip;
pub mod laws;
pub mod deep_link;
