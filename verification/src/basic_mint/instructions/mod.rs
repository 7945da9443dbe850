//! The handlers of the mint program, one per instruction.

pub mod create_mint;
pub mod transfer_mint;

pub use create_mint::{create_mint, CreateMintArgs, MINT_SEED_PREFIX};
pub use transfer_mint::{transfer_mint, TransferMintArgs};
