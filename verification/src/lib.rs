//! A typed, read-only client core for a versioned static-data publishing
//! service: version resolution, request addresses, the cache-aside retrieval
//! protocol and the closed vocabularies of the published documents.
//!
//! Nothing in this library touches the network or the disk. The caller performs
//! each piece of outside work and hands the outcome back as a plain value.

pub mod address;
pub mod client;
pub mod error;
pub mod models;
pub mod retrieval;
pub mod versions;

pub use client::DDragonClient;
pub use error::{DDragonClientError, Reply};
pub use models::{CostType, Group, SummonerSpellSprite};
pub use retrieval::{Event, Phase, Retrieval};
