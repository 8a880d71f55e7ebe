//! Why the controller refuses an instruction.
use vstd::prelude::*;

verus! {

#[derive(Clone, Copy, Debug, PartialEq, Eq, Structural)]
pub enum CustomError {
    /// The caller is not the factory registered with the controller.
    Unauthorized,
    /// The token's mint is the identity that names nobody.
    InvalidTokenAddress,
}

} // verus!
