pub mod account;
pub mod addresses;
pub mod builder;
pub mod bytes;
pub mod checks;
pub mod coin;
pub mod effects;
pub mod error;
pub mod genesis;
pub mod governance;
pub mod laws;
pub mod ledger;
pub mod percolator_abi;
pub mod pubkey;
pub mod rewards;
pub mod squads;
pub mod system;
pub mod token;
