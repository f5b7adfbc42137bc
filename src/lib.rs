//! Escrowed two-player chess games: lifecycle, turn enforcement and settlement
//! of the combined stake.

pub mod chess;
pub mod contract;
pub mod laws;
pub mod msg;
pub mod settlement;
pub mod state;
pub mod text;
