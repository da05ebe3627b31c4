//! Verified core of a video transcoding backend: the resolution catalog, the
//! master playlist builder, the encoder invocation templates, the routing of
//! published artifacts, the request rules of the HTTP layer and the per-job
//! state machine that drives a transcode from dequeue to its terminal record.
pub mod text;
pub mod ids;
pub mod profile;
pub mod models;
pub mod playlist;
pub mod encoder;
pub mod pipeline;
pub mod laws;
pub mod publish;
pub mod api;
pub mod error;
pub mod worker;
pub mod config;
