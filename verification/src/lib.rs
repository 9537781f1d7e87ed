//! Programmable HTTP response synthesis: request matching, body rendering and
//! post-processing, with the rules stated as contracts.

pub mod admin;
pub mod cell;
pub mod codec;
pub mod counters;
pub mod deceit;
pub mod handlers;
pub mod jinja;
pub mod keyed;
pub mod matchers;
pub mod output;
pub mod printed;
pub mod processors;
pub mod random;
pub mod request;
pub mod resource;
pub mod rhai;
pub mod specs;
pub mod state;
pub mod storage;
pub mod text;
pub mod uri;

pub use crate::counters::ApateCounters;
pub use crate::handlers::ApateResponse;
pub use crate::request::RequestContext;
pub use crate::resource::ResourceRef;
pub use crate::specs::ApateSpecs;
pub use crate::state::{ApateConfig, ApateConfigBuilder, ApateState, DEFAULT_PORT, DEFAULT_RUST_LOG};
