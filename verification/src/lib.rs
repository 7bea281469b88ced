//! Authorization proxy for the scaled multiplier of a token mint.
//!
//! The proxy is a program of its own. It keeps one record, which names an authority and a
//! mint, and it owns one signing address. On the authority's request it asks the token
//! program, in the name of that address, to change the mint's multiplier; and it lets the
//! authority hand the proxy over to another.
//!
//! This library decides; it does not act. [`processor::Processor::process`] takes what an
//! invocation shows (the proxy's identity, the accounts, the request's bytes) and returns
//! either the error of the first check that failed or an [`effects::Outcome`] that says what
//! the host is to do. What it returns is stated by the functions of [`processor`] whose names
//! end in `_spec`, and [`laws`] proves what follows from them.
//!
//! - [`identity`]: 32-byte identities.
//! - [`wire`]: little-endian integers.
//! - [`multiplier`]: double-precision numbers by their bits.
//! - [`state`]: the stored record and its 66 bytes.
//! - [`instruction`]: the three requests and their encoding.
//! - [`pda`]: the addresses that the proxy derives for itself.
//! - [`token_2022_helpers`]: the request to the token program.
//! - [`system`]: the request to the system program.
//! - [`account`], [`effects`], [`error`]: what goes into a decision and what comes out.

pub mod account;
pub mod effects;
pub mod error;
pub mod identity;
pub mod instruction;
pub mod laws;
pub mod multiplier;
pub mod pda;
pub mod processor;
pub mod state;
pub mod system;
pub mod token_2022_helpers;
pub mod wire;
