//! Supervision of external generation jobs: line buffering and classification,
//! cancellation slots, outcome resolution, and the helpers around them.

pub mod args;
pub mod buffer;
pub mod cancel;
pub mod download;
pub mod engine;
pub mod gallery;
pub mod groups;
pub mod http;
pub mod job;
pub mod media;
pub mod mirrors;
pub mod outcome;
pub mod paths;
pub mod sidecar;
pub mod state;
pub mod stream;
pub mod text;
