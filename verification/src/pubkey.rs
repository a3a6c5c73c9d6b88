//! Account addresses and program-derived addresses.

use vstd::prelude::*;
use crate::bytes::bytes_equal;

verus! {

/// A 32-byte account or program address.
#[derive(Clone, Copy, Debug, PartialEq, Eq, Hash)]
pub struct Pubkey {
    pub bytes: [u8; 32],
}

impl View for Pubkey {
    type V = Seq<u8>;

    open spec fn view(&self) -> Seq<u8> {
        self.bytes@
    }
}

/// The all-zero address, which stands for "no identity".
pub open spec fn zero_address() -> Seq<u8> {
    Seq::new(32, |i: int| 0u8)
}

/// The address of the native signature-verify program.
pub open spec fn ed25519_program_address() -> Seq<u8> {
    seq![
        3u8, 125, 70, 214, 124, 147, 251, 190, 18, 249, 66, 143, 131, 141, 64, 255,
        5, 112, 116, 73, 39, 244, 138, 100, 252, 202, 112, 68, 128, 0, 0, 0,
    ]
}

/// The address of the compute-budget program.
pub open spec fn compute_budget_program_address() -> Seq<u8> {
    seq![
        3u8, 6, 70, 111, 229, 33, 23, 50, 255, 236, 173, 186, 114, 195, 155, 231,
        188, 140, 229, 187, 197, 247, 18, 107, 44, 67, 155, 58, 64, 0, 0, 0,
    ]
}

/// The address of the instructions sysvar.
pub open spec fn instructions_sysvar_address() -> Seq<u8> {
    seq![
        6u8, 167, 213, 23, 24, 123, 209, 102, 53, 218, 212, 4, 85, 253, 194, 192,
        193, 36, 198, 143, 33, 86, 117, 165, 219, 186, 203, 95, 8, 0, 0, 0,
    ]
}

impl Pubkey {
    /// The address with the given bytes.
    pub fn new(bytes: [u8; 32]) -> (key: Pubkey)
        ensures
            key@ == bytes@,
    {
        Pubkey { bytes }
    }

    /// The all-zero address.
    pub fn zero() -> (key: Pubkey)
        ensures
            key@ == zero_address(),
    {
        let key = Pubkey { bytes: [0u8; 32] };
        assert(key@ =~= zero_address());
        key
    }

    /// The bytes of the address.
    pub fn to_bytes(&self) -> (bytes: [u8; 32])
        ensures
            bytes@ == self@,
    {
        self.bytes
    }

    /// Whether two addresses are the same.
    pub fn equals(&self, other: &Pubkey) -> (same: bool)
        ensures
            same == (self@ == other@),
    {
        bytes_equal(self.bytes.as_slice(), other.bytes.as_slice())
    }

    /// Whether this is the all-zero address.
    pub fn is_zero(&self) -> (zero: bool)
        ensures
            zero == (self@ == zero_address()),
    {
        let z = Pubkey::zero();
        self.equals(&z)
    }

    /// The native signature-verify program.
    pub fn ed25519_program() -> (key: Pubkey)
        ensures
            key@ == ed25519_program_address(),
    {
        let key = Pubkey {
            bytes: [
                3u8, 125, 70, 214, 124, 147, 251, 190, 18, 249, 66, 143, 131, 141, 64, 255,
                5, 112, 116, 73, 39, 244, 138, 100, 252, 202, 112, 68, 128, 0, 0, 0,
            ],
        };
        assert(key@ =~= ed25519_program_address());
        key
    }

    /// The compute-budget program.
    pub fn compute_budget_program() -> (key: Pubkey)
        ensures
            key@ == compute_budget_program_address(),
    {
        let key = Pubkey {
            bytes: [
                3u8, 6, 70, 111, 229, 33, 23, 50, 255, 236, 173, 186, 114, 195, 155, 231,
                188, 140, 229, 187, 197, 247, 18, 107, 44, 67, 155, 58, 64, 0, 0, 0,
            ],
        };
        assert(key@ =~= compute_budget_program_address());
        key
    }

    /// The instructions sysvar.
    pub fn instructions_sysvar() -> (key: Pubkey)
        ensures
            key@ == instructions_sysvar_address(),
    {
        let key = Pubkey {
            bytes: [
                6u8, 167, 213, 23, 24, 123, 209, 102, 53, 218, 212, 4, 85, 253, 194, 192,
                193, 36, 198, 143, 33, 86, 117, 165, 219, 186, 203, 95, 8, 0, 0, 0,
            ],
        };
        assert(key@ =~= instructions_sysvar_address());
        key
    }
}

/// The program-derived address for `seeds` under `program_id` together with
/// its bump seed, as the chain's address derivation defines it; `None` where
/// the derivation finds no address.
pub uninterp spec fn program_address(seeds: Seq<Seq<u8>>, program_id: Seq<u8>) -> Option<(Seq<u8>, u8)>;

/// The address that `text` spells in base58; `None` where `text` spells
/// none.
pub uninterp spec fn address_from_text(text: Seq<char>) -> Option<Seq<u8>>;

/// The bytes of an optional address.
pub open spec fn optional_key_view(key: Option<Pubkey>) -> Option<Seq<u8>> {
    match key {
        Some(k) => Some(k@),
        None => None,
    }
}

/// A derived address and its bump seed as plain values.
pub open spec fn derived_view(found: Option<(Pubkey, u8)>) -> Option<(Seq<u8>, u8)> {
    match found {
        Some((key, bump)) => Some((key@, bump)),
        None => None,
    }
}

/// Calls `solana_sdk::pubkey::Pubkey::try_find_program_address`. Trusted: the
/// result is the derivation named by [`program_address`], which depends on the
/// seeds and the program id alone.
#[verifier::external_body]
pub(crate) fn find_program_address(seeds: &Vec<Vec<u8>>, program_id: &Pubkey) -> (found: Option<(Pubkey, u8)>)
    ensures
        derived_view(found) == program_address(seeds.deep_view(), program_id@),
{
    let parts: Vec<&[u8]> = seeds.iter().map(|s| s.as_slice()).collect();
    let id = solana_sdk::pubkey::Pubkey::new_from_array(program_id.bytes);
    solana_sdk::pubkey::Pubkey::try_find_program_address(&parts, &id)
        .map(|(key, bump)| (Pubkey { bytes: key.to_bytes() }, bump))
}

/// Calls `from_str` of `solana_sdk::pubkey::Pubkey`. Trusted: the result is
/// the address named by [`address_from_text`], `None` standing for every
/// parse error.
#[verifier::external_body]
pub(crate) fn parse_address(text: &str) -> (key: Option<Pubkey>)
    ensures
        optional_key_view(key) == address_from_text(text@),
{
    <solana_sdk::pubkey::Pubkey as std::str::FromStr>::from_str(text)
        .ok()
        .map(|key| Pubkey { bytes: key.to_bytes() })
}

} // verus!
