//! Private sharing of diary entries and the freshness control of the imported
//! diary collections.

pub mod cache;
pub mod codec;
pub mod envelope;
pub mod error;
pub mod identity;
pub mod keys;
pub mod paths;
pub mod pipeline;
pub mod public_id;
pub mod record;
pub mod relay;
pub mod share;
pub mod status;
pub mod store;
pub mod wire;
