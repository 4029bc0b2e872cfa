//! Rule engine of a sports-management game whose athletes are non-fungible
//! assets on a ledger: every operation is a validated transition from the
//! records it reads to the records it writes.

pub mod asset;
pub mod battle;
pub mod error;
pub mod instruction;
pub mod layout;
pub mod processor;
pub mod progression;
pub mod registration;
pub mod sdk;
pub mod state;
pub mod team;
pub mod trading;
pub mod wire;
