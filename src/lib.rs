//! Crop selection for a farming game: given a money budget and a time window,
//! rank the crops that can be planted by the profit they bring.

pub mod crop;
pub mod evaluator;
pub mod laws;

pub use crop::{Crop, Farm};
pub use evaluator::{ConfigError, Evaluator};
