//! The handlers of the counter program, one per instruction.

pub mod increase_counter;
pub mod increase_counter_authority;
pub mod init_counter;
pub mod init_counter_authority;

pub use increase_counter::process as increase_counter;
pub use increase_counter_authority::process as increase_counter_authority;
pub use init_counter::{init_counter, init_counter_with, InitCounterArgs};
pub use init_counter_authority::process as init_counter_authority;
pub use init_counter_authority::Params as InitCounterAuthorityArgs;
