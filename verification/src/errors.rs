//! The errors of the coordinator program.

use vstd::prelude::*;

verus! {

/// Why the coordinator refused an instruction.
#[derive(Clone, Copy, Debug, PartialEq, Eq, Structural)]
pub enum VrfError {
    /// The request is not pending.
    RequestNotPending,
    /// The signature-verify instruction is missing or malformed.
    InvalidEd25519Instruction,
    /// The first instruction does not run the signature-verify program.
    InvalidEd25519Program,
    /// The signature-verify instruction does not hold exactly one signature.
    InvalidSignatureCount,
    /// The verified public key is not the configured authority.
    InvalidEd25519Pubkey,
    /// The verified message is not `request_id ‖ randomness`.
    InvalidEd25519Message,
    /// The signature-verify instruction refers to another instruction.
    InvalidEd25519InstructionIndex,
    /// The signer may not do this.
    Unauthorized,
    /// An address argument was the zero address.
    ZeroAddressNotAllowed,
    /// A counter or a fee would overflow.
    CounterOverflow,
    /// The number of words is zero or above the maximum.
    NumWordsTooLarge,
    /// The subscription cannot pay the fee.
    InsufficientSubscriptionBalance,
    /// The consumer program is not the one of the request.
    InvalidConsumerProgram,
    /// The subscription still has consumers.
    SubscriptionHasConsumers,
    /// The consumer's callback failed.
    CallbackFailed,
}

/// The position of an error in the list of errors.
pub open spec fn error_index(e: VrfError) -> int {
    match e {
        VrfError::RequestNotPending => 0,
        VrfError::InvalidEd25519Instruction => 1,
        VrfError::InvalidEd25519Program => 2,
        VrfError::InvalidSignatureCount => 3,
        VrfError::InvalidEd25519Pubkey => 4,
        VrfError::InvalidEd25519Message => 5,
        VrfError::InvalidEd25519InstructionIndex => 6,
        VrfError::Unauthorized => 7,
        VrfError::ZeroAddressNotAllowed => 8,
        VrfError::CounterOverflow => 9,
        VrfError::NumWordsTooLarge => 10,
        VrfError::InsufficientSubscriptionBalance => 11,
        VrfError::InvalidConsumerProgram => 12,
        VrfError::SubscriptionHasConsumers => 13,
        VrfError::CallbackFailed => 14,
    }
}

impl VrfError {
    /// The number under which the chain reports the error: 6000 plus its
    /// position in the list.
    pub fn code(&self) -> (code: u32)
        ensures
            code == 6000 + error_index(*self),
    {
        match self {
            VrfError::RequestNotPending => 6000,
            VrfError::InvalidEd25519Instruction => 6001,
            VrfError::InvalidEd25519Program => 6002,
            VrfError::InvalidSignatureCount => 6003,
            VrfError::InvalidEd25519Pubkey => 6004,
            VrfError::InvalidEd25519Message => 6005,
            VrfError::InvalidEd25519InstructionIndex => 6006,
            VrfError::Unauthorized => 6007,
            VrfError::ZeroAddressNotAllowed => 6008,
            VrfError::CounterOverflow => 6009,
            VrfError::NumWordsTooLarge => 6010,
            VrfError::InsufficientSubscriptionBalance => 6011,
            VrfError::InvalidConsumerProgram => 6012,
            VrfError::SubscriptionHasConsumers => 6013,
            VrfError::CallbackFailed => 6014,
        }
    }
}

} // verus!
