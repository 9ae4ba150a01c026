//! The operations of the service, as step functions that decide what is done
//! next from what has happened so far.

pub mod nft;
pub mod mint;
pub mod sell;
pub mod sync;
pub mod transfer;
