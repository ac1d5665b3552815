//! Bidding rules and deck of the card game Tarock, with verified contracts.

pub mod cards;
pub mod bidding;
pub mod players;
pub mod deal;
