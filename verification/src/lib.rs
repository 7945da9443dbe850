//! Fixed-layout records, instruction envelopes and program-derived addresses
//! for a family of small on-chain programs, with machine-checked contracts.
//!
//! Three programs share one discipline. An invocation hands a program its
//! identifier, a list of accounts and the bytes of an instruction. The
//! program checks the identifier, decodes the instruction, checks the
//! accounts, and either refuses with a [`error::ProgramError`] or returns
//! the one [`effect::Effect`] that the host is to carry out. Nothing here
//! touches the host: accounts come in as plain values and requests go out as
//! plain values.
//!
//! - [`bytes`] and [`codec`]: little-endian integers, verbatim byte runs and
//!   the trait of values with one wire layout, with the proof that decoding
//!   undoes encoding.
//! - [`address`]: addresses, and the address that a program owns under a
//!   list of seeds.
//! - [`account`]: accounts as an invocation sees them, and the checks made
//!   on them.
//! - [`effect`]: what a handler asks of the host, and what carrying it out
//!   does to an account.
//! - [`event`]: the bounded writer and the text form of events.
//! - [`counter`], [`close_account`], [`basic_mint`]: the programs.

pub mod account;
pub mod address;
pub mod basic_mint;
pub mod bytes;
pub mod close_account;
pub mod codec;
pub mod counter;
pub mod effect;
pub mod error;
pub mod event;
