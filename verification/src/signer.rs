//! The oracle's signing key, held as an opaque handle.

use vstd::prelude::*;
use solana_sdk::signature::Keypair;
use crate::pubkey::Pubkey;

verus! {

/// Declares `solana_sdk::signature::Keypair` as a type whose inside stays
/// hidden: the key is carried to the two calls below and never read.
#[verifier::external_type_specification]
#[verifier::external_body]
pub struct ExKeypair(solana_sdk::signature::Keypair);

/// Calls `Signer::pubkey` on the keypair. Trusted; nothing is claimed of the
/// key returned.
#[verifier::external_body]
pub(crate) fn keypair_pubkey(keypair: &Keypair) -> (key: Pubkey) {
    Pubkey { bytes: solana_sdk::signer::Signer::pubkey(keypair).to_bytes() }
}

/// Calls `Signer::sign_message` on the keypair. Trusted; nothing is claimed
/// of the 64 bytes returned.
#[verifier::external_body]
pub(crate) fn keypair_sign(keypair: &Keypair, message: &[u8]) -> (signature: [u8; 64]) {
    solana_sdk::signer::Signer::sign_message(keypair, message).into()
}

} // verus!
