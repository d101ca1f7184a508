pub mod error;
pub mod pubkey;
pub mod account_info;
pub mod codec;
pub mod orphan;
pub mod vault;
