//! A game of rock-paper-scissors against a computer opponent: the rules of a
//! round, the cards that show both hands, and the state of the game page.
pub mod outcome;
pub mod card;
pub mod game;
