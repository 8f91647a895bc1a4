//! Everything that describes a card.

pub mod card;
pub mod colour;
pub mod cost_order;
pub mod language;
pub mod legality;
pub mod physical_card;
pub mod rarity;
