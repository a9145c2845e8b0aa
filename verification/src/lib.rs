//! Core of a tic-tac-toe game service: the board, the rules engine, the
//! serializable game state, the persistence port and the game manager that
//! orchestrates them. HTTP routing and rendering live outside this crate and
//! only call into the manager.

pub mod board;
pub mod manager;
pub mod player;
pub mod rules;
pub mod state;
pub mod store;
pub mod strategy;
