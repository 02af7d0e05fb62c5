//! The closed vocabularies of the published documents.

pub mod summoner_spells;

pub use summoner_spells::{CostType, Group, SummonerSpellSprite};
