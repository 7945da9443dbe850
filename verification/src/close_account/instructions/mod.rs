//! The handlers of the close-account program, one per instruction.

pub mod close_meme;
pub mod create_meme;
