//! The interaction backend of a chessboard.
//!
//! Pointer gestures on the board come in as commands ([`slots`]); the
//! backend ([`backend`]) turns them into legal moves ([`resolver`]), keeps
//! every position reached in a tree of nodes ([`game`]), and answers each
//! command with the presentation events to apply, in order ([`signals`]).
//! The board's own properties and what each event does to them are in
//! [`board_con`]. The rules of chess come from the `shakmaty` engine, behind
//! the boundary in [`rules`].

pub mod backend;
pub mod board_con;
pub mod controller;
pub mod game;
pub mod moves;
pub mod position;
pub mod resolver;
pub mod rules;
pub mod signals;
pub mod slots;
pub mod types;
