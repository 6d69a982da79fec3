//! Verifiable card draws: each draw is a VRF evaluation over a transcript that
//! binds a shared seed to a draw index, and anyone holding the drawer's public
//! key can check a revealed card against its proof.

pub mod card;
pub mod draw;
pub mod game;
pub mod player;
pub mod transcript;
pub mod vrf;
