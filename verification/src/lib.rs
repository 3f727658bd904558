//! Media player backend selection and construction for the Reel player.

pub mod backend;
pub mod player;
