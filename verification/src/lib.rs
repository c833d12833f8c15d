//! Puzzle-layer composition and hash-verified spend construction for a
//! UTXO-style ledger whose coins are guarded by small programs ("puzzles").
//!
//! The crate models puzzles as S-expression nodes, computes their content
//! hashes by the two-rule tree-hash scheme, proves that the closed-form
//! "curried" hash shortcuts agree with hashing the fully constructed nodes,
//! parses on-chain puzzles back into typed layers, and orchestrates batch
//! singleton mints whose cross-coin atomicity rests on matched announcement
//! commitments.

pub mod bytes;
pub mod coin;
pub mod conditions;
pub mod errors;
pub mod hashing;
pub mod layers;
pub mod mint;
pub mod node;
pub mod parse;
pub mod puzzles;
pub mod settlement;
pub mod spend;
