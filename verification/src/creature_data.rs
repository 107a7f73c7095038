//! All data related to Pokemon: types, moves, stats and species.

pub mod pokemon;
pub mod pokemon_move;
pub mod pokemon_species;
pub mod pokemon_stats;
pub mod pokemon_type;
