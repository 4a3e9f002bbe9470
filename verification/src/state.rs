//! The records of the marketplace and messaging program.

pub mod community;
pub mod nft;
pub mod record;
