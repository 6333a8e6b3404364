use vstd::prelude::*;

verus! {

/// Every way a transition can be rejected.  The first violated check aborts
/// the whole transition, so a caller always sees the specific kind below and
/// no partial effect.
#[derive(Clone, Copy, Debug, PartialEq, Eq, Structural)]
pub enum ProtocolError {
    /// A required identity did not authorize the transition.
    MissingSignature,
    /// An account is not owned by the expected controller.
    InvalidOwnership,
    /// A caller-supplied address or bump does not match recomputation.
    InvalidDerivation,
    /// A cross-field constraint is violated, e.g. a vault's authority does
    /// not equal the record address it should serve.
    InvalidRelation,
    /// A balance is below the required amount, including a zero-amount
    /// deposit.
    InsufficientValue,
    /// The target address is already occupied.
    AlreadyInitialized,
    /// The instruction payload has the wrong length or shape.
    MalformedPayload,
    /// The fixed account list is shorter or longer than the transition
    /// expects.
    AccountMissing,
}

} // verus!
