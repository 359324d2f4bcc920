//! A small two-player card game: a standard 52-card deck is built and
//! shuffled, the two players repeatedly draw one card each, the higher
//! rank wins the round (a tied rank counts for the second player), and
//! at the end the player with the most round wins is reported.

pub mod card;
pub mod deck;
pub mod game;
pub mod text;
