pub mod addressing;
pub mod bytes;
pub mod errors;
pub mod identity;
pub mod instruction;
pub mod laws;
pub mod ledger;
pub mod ops;
pub mod record;
