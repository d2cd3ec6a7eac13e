//! A two-player game of guessing each other's secret number, played for
//! stakes: each player commits to a secret, guesses the opponent's, and proves
//! in zero knowledge how many digits of the opponent's guess were right. A
//! player whose proof does not verify has cheated and loses.
//!
//! [`PassContract`] is a deployment with its sessions; [`Game`] is one session
//! and holds the rules; [`codec`] builds the public inputs of a proof;
//! [`ultrahonk`] puts a proof to the verifier; [`laws`] states what holds of
//! every session.

pub mod codec;
pub mod contract;
pub mod game;
pub mod laws;
pub mod types;
pub mod ultrahonk;

pub use contract::PassContract;
pub use game::{Game, Outcome, RoundVerdict};
pub use types::{Address, Error, GameResult, GameStatus, ProofData};
