//! The request ledger. It numbers the requests, records them, and
//! decides what is asked of the asset ledger and of the controller.
pub mod burn;
pub mod commitment;
pub mod errors;
pub mod events;
pub mod laws;
pub mod ledger;
pub mod mint;
pub mod settlement;
pub mod state;
