//! The custody authority. It alone can burn what is held in custody, and
//! it burns only when the factory registered with it is the caller.
pub mod burn;
pub mod errors;
pub mod events;
pub mod initialize;
pub mod state;
