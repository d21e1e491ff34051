//! Decision logic of the native capture sender: API endpoint and response
//! handling, configuration resolution, frame pacing, pipeline accounting,
//! platform backend selection and publisher previews.

pub mod api;
pub mod capture;
pub mod config;
pub mod pipeline;
pub mod platform;
pub mod publisher;
