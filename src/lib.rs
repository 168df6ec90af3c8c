//! The behaviour core of a falling-sand automaton: a species catalogue whose
//! rules read and rewrite a small neighbourhood of a grid through a façade.
pub mod api;
pub mod cell;
pub mod species;
pub mod utils;
