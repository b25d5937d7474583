//! A turn-based rules engine for a social-deduction elimination game.
//!
//! A [`game::Game`] holds an ordered roster of players, each of whom may hold
//! roles that contribute night actions.  The engine drives a single game
//! through a request/respond loop: the caller asks for the schema of the input
//! that is needed next, produces a matching submission, and hands it to
//! [`game::Game::submit_input`], which applies the bound action and recomputes
//! which action (if any) should resolve next.  Every returned game is an
//! immutable snapshot; the caller keeps past snapshots in an append-only
//! history ledger.

pub mod actions;
pub mod game;
pub mod history;
pub mod player;
