//! A probabilistic forest-fire cellular automaton: cells grow, age, catch fire
//! from their neighbours and burn down to ash, one generation at a time.

pub mod etat;
pub mod foret;
mod hasard;
pub mod lois;

pub use etat::Etat;
pub use foret::{Foret, VueForet};
