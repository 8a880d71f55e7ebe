//! Request handling and custody rules for a token that stands for
//! bitcoin held by a custodian.
//!
//! Merchants ask for the token to be burned when they want their bitcoin
//! back; custodians confirm each request once the bitcoin has moved. The
//! [`factory`] module numbers and records the requests, the [`controller`]
//! module alone may burn what is held in custody, and it does so only for
//! the factory that is registered with it.
pub mod controller;
pub mod digest;
pub mod encoding;
pub mod factory;
pub mod identity;
pub mod members;
pub mod seeds;
pub mod token;
