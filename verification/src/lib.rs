//! Two small libraries: a last-in, first-out stack kept as a singly-linked
//! list, with its three iterators, and the rules of a number-guessing game.

pub mod game;
pub mod model;
pub mod stack;
