//! Verified core of a VRF oracle: randomness derivation, wire formats and the
//! decision logic of the fulfillment pipeline.

pub mod address;
pub mod bytes;
pub mod compressed;
pub mod consumer_accounts;
pub mod crypto;
pub mod decoder;
pub mod direct;
pub mod discriminator;
pub mod dispatcher;
pub mod ed25519;
pub mod errors;
pub mod events;
pub mod fulfiller;
pub mod instruction;
pub mod instructions;
pub mod light_cpi;
pub mod listener;
pub mod metrics;
pub mod photon;
pub mod pubkey;
pub mod retry;
pub mod roll_dice;
pub mod signer;
pub mod state;
pub mod text;
pub mod vrf;
