//! A gateway core that turns one provider-agnostic chat request into the
//! request payload of a chosen backend provider, with availability-based
//! routing, per-provider capability negotiation and ordered fallback.
pub mod adapters;
pub mod canonical;
pub mod engine;
pub mod payload;
pub mod routing;
pub mod types;

pub use canonical::CanonicalEnvelope;
pub use engine::{transform, TransformEngine};
pub use types::TransformResult;
