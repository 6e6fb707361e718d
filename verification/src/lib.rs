//! A single-node, append-only transaction ledger sealed by proof of work,
//! together with a handful of small exercises on vectors and strings.

pub mod basics;
pub mod canonical;
pub mod chain;
pub mod digest;
pub mod hex;
pub mod json;
pub mod merkle;
pub mod pow;
pub mod practice;
pub mod records;
