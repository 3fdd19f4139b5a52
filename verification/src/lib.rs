//! Verified core of the Lingjing desktop client: gateway profiles and
//! protocol adapters, the job registry, request validation, and the text
//! framing that the gateway transport relies on.
pub mod text;
pub mod keyed;
pub mod domain;
pub mod adapters;
pub mod registry;
pub mod outside;
pub mod jobs;
pub mod validation;
pub mod http;
pub mod video;
pub mod secrets;
pub mod media;
pub mod assets;
pub mod chat;
pub mod checks;
pub mod bodies;
pub mod laws;
