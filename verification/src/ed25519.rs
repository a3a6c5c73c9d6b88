//! The native signature-verify instruction: how the oracle lays out its data
//! and how the coordinator checks it.

use vstd::prelude::*;
use vstd::slice::slice_subrange;
use crate::bytes::{
    bytes_equal, le_bytes, le_value, lemma_le_bytes_len, lemma_le_value_of_bytes, lemma_pow256_values,
    read_u16_le, u16_to_le,
};
use crate::errors::VrfError;
use crate::instruction::{AccountMetaView, Instruction, InstructionView};
use crate::pubkey::{ed25519_program_address, Pubkey};
use crate::vrf::{signed_message, signed_message_of};

verus! {

/// Where the public key stands in the data.
pub const PUBLIC_KEY_OFFSET: u16 = 16;

/// Where the signature stands in the data.
pub const SIGNATURE_OFFSET: u16 = 48;

/// Where the message stands in the data.
pub const MESSAGE_DATA_OFFSET: u16 = 112;

/// The instruction index that means "this instruction".
pub const THIS_INSTRUCTION: u16 = 0xFFFF;

/// The 16 header bytes: one signature, a padding byte, then seven
/// little-endian `u16`s: signature offset 48, key offset 16 and message
/// offset 112, each followed by the index `0xFFFF`, the message's length
/// standing before the last index.
pub open spec fn precompile_header(message_len: nat) -> Seq<u8> {
    seq![1u8, 0u8] + le_bytes(48, 2) + le_bytes(0xFFFF, 2) + le_bytes(16, 2) + le_bytes(0xFFFF, 2)
        + le_bytes(112, 2) + le_bytes(message_len, 2) + le_bytes(0xFFFF, 2)
}

/// The data of a signature-verify instruction: header, public key,
/// signature, message.
pub open spec fn precompile_data(public_key: Seq<u8>, signature: Seq<u8>, message: Seq<u8>) -> Seq<u8> {
    precompile_header(message.len()) + public_key + signature + message
}

/// The signature-verify instruction for a key, a signature and a message.
pub open spec fn precompile_instruction(public_key: Seq<u8>, signature: Seq<u8>, message: Seq<u8>) -> InstructionView {
    InstructionView {
        program_id: ed25519_program_address(),
        accounts: Seq::empty(),
        data: precompile_data(public_key, signature, message),
    }
}

/// The header is 16 bytes long.
pub proof fn lemma_precompile_header_len(message_len: nat)
    ensures
        precompile_header(message_len).len() == 16,
{
    lemma_le_bytes_len(48, 2);
    lemma_le_bytes_len(0xFFFF, 2);
    lemma_le_bytes_len(16, 2);
    lemma_le_bytes_len(112, 2);
    lemma_le_bytes_len(message_len, 2);
}

/// Lays out the data of a signature-verify instruction.
pub fn ed25519_instruction_data(public_key: &[u8; 32], signature: &[u8; 64], message: &[u8]) -> (data: Vec<u8>)
    requires
        message@.len() <= u16::MAX,
    ensures
        data@ == precompile_data(public_key@, signature@, message@),
        data@.len() == 112 + message@.len(),
{
    let message_len = message.len();
    let mut data: Vec<u8> = Vec::new();
    data.push(1u8);
    data.push(0u8);
    data.extend_from_slice(u16_to_le(SIGNATURE_OFFSET).as_slice());
    data.extend_from_slice(u16_to_le(THIS_INSTRUCTION).as_slice());
    data.extend_from_slice(u16_to_le(PUBLIC_KEY_OFFSET).as_slice());
    data.extend_from_slice(u16_to_le(THIS_INSTRUCTION).as_slice());
    data.extend_from_slice(u16_to_le(MESSAGE_DATA_OFFSET).as_slice());
    data.extend_from_slice(u16_to_le(message_len as u16).as_slice());
    data.extend_from_slice(u16_to_le(THIS_INSTRUCTION).as_slice());
    data.extend_from_slice(public_key.as_slice());
    data.extend_from_slice(signature.as_slice());
    data.extend_from_slice(message);
    proof {
        lemma_precompile_header_len(message@.len());
        assert(data@ =~= precompile_data(public_key@, signature@, message@));
    }
    data
}

/// Builds the signature-verify instruction for a key, a signature and a
/// message. It names no accounts.
pub fn ed25519_instruction(public_key: &Pubkey, signature: &[u8; 64], message: &[u8]) -> (ix: Instruction)
    requires
        message@.len() <= u16::MAX,
    ensures
        ix@ == precompile_instruction(public_key@, signature@, message@),
{
    let data = ed25519_instruction_data(&public_key.bytes, signature, message);
    let ix = Instruction { program_id: Pubkey::ed25519_program(), accounts: Vec::new(), data };
    assert(ix@.accounts =~= Seq::<AccountMetaView>::empty());
    ix
}

/// What the coordinator makes of the instruction that precedes the fulfill
/// instruction in a transaction (`None`: there is none) when it expects a proof by `expected_key` for
/// `request_id` and `randomness`. The checks run in this order: the
/// instruction exists; it runs the signature-verify program; it has its 16
/// header bytes; it holds one signature; its three instruction indices are
/// `0xFFFF`; the key lies within the data and is the expected one; the
/// message lies within the data and is `u64_le(request_id) ‖ randomness`.
pub open spec fn proof_check(
    preceding: Option<InstructionView>,
    expected_key: Seq<u8>,
    request_id: u64,
    randomness: Seq<u8>,
) -> Result<(), VrfError> {
    match preceding {
        None => Err(VrfError::InvalidEd25519Instruction),
        Some(ix) => {
            let data = ix.data;
            let key_at = le_value(data.subrange(6, 8)) as int;
            let message_at = le_value(data.subrange(10, 12)) as int;
            let message_len = le_value(data.subrange(12, 14)) as int;
            if ix.program_id != ed25519_program_address() {
                Err(VrfError::InvalidEd25519Program)
            } else if data.len() < 16 {
                Err(VrfError::InvalidEd25519Instruction)
            } else if data[0] != 1 {
                Err(VrfError::InvalidSignatureCount)
            } else if le_value(data.subrange(4, 6)) != 0xFFFF || le_value(data.subrange(8, 10)) != 0xFFFF
                || le_value(data.subrange(14, 16)) != 0xFFFF {
                Err(VrfError::InvalidEd25519InstructionIndex)
            } else if data.len() < key_at + 32 {
                Err(VrfError::InvalidEd25519Instruction)
            } else if data.subrange(key_at, key_at + 32) != expected_key {
                Err(VrfError::InvalidEd25519Pubkey)
            } else if data.len() < message_at + message_len {
                Err(VrfError::InvalidEd25519Instruction)
            } else if data.subrange(message_at, message_at + message_len) != signed_message_of(
                request_id,
                randomness,
            ) {
                Err(VrfError::InvalidEd25519Message)
            } else {
                Ok(())
            }
        },
    }
}

/// Checks that the instruction that precedes the fulfill instruction is a
/// signature-verify instruction over `u64_le(request_id) ‖ randomness` by
/// the expected key.
pub fn verify_ed25519_instruction(
    preceding: Option<&Instruction>,
    expected_pubkey: &Pubkey,
    request_id: u64,
    randomness: &[u8; 32],
) -> (checked: Result<(), VrfError>)
    ensures
        checked == proof_check(
            match preceding {
                Some(ix) => Some(ix@),
                None => None,
            },
            expected_pubkey@,
            request_id,
            randomness@,
        ),
{
    let ix = match preceding {
        Some(ix) => ix,
        None => {
            return Err(VrfError::InvalidEd25519Instruction);
        },
    };
    if !ix.program_id.equals(&Pubkey::ed25519_program()) {
        return Err(VrfError::InvalidEd25519Program);
    }
    let data = ix.data.as_slice();
    let len = data.len();
    if len < 16 {
        return Err(VrfError::InvalidEd25519Instruction);
    }
    if data[0] != 1 {
        return Err(VrfError::InvalidSignatureCount);
    }
    let signature_index = read_u16_le(data, 4);
    let key_at = read_u16_le(data, 6) as usize;
    let key_index = read_u16_le(data, 8);
    let message_at = read_u16_le(data, 10) as usize;
    let message_len = read_u16_le(data, 12) as usize;
    let message_index = read_u16_le(data, 14);
    if signature_index != THIS_INSTRUCTION || key_index != THIS_INSTRUCTION || message_index
        != THIS_INSTRUCTION {
        return Err(VrfError::InvalidEd25519InstructionIndex);
    }
    if len < key_at + 32 {
        return Err(VrfError::InvalidEd25519Instruction);
    }
    if !bytes_equal(slice_subrange(data, key_at, key_at + 32), expected_pubkey.bytes.as_slice()) {
        return Err(VrfError::InvalidEd25519Pubkey);
    }
    if len < message_at + message_len {
        return Err(VrfError::InvalidEd25519Instruction);
    }
    let expected = signed_message(request_id, randomness);
    if !bytes_equal(slice_subrange(data, message_at, message_at + message_len), expected.as_slice()) {
        return Err(VrfError::InvalidEd25519Message);
    }
    Ok(())
}

/// For any 32-byte key, 64-byte signature and message of at most 65535
/// bytes, the data declare the places of their parts truthfully: the
/// message's offset and length stand in bytes 10 to 14, and key, signature
/// and message stand at offsets 16, 48 and 112.
pub proof fn lemma_precompile_layout(public_key: Seq<u8>, signature: Seq<u8>, message: Seq<u8>)
    requires
        public_key.len() == 32,
        signature.len() == 64,
        message.len() <= u16::MAX,
    ensures
        ({
            let data = precompile_data(public_key, signature, message);
            &&& data.len() == 112 + message.len()
            &&& data[0] == 1
            &&& data[1] == 0
            &&& le_value(data.subrange(2, 4)) == 48
            &&& le_value(data.subrange(4, 6)) == 0xFFFF
            &&& le_value(data.subrange(6, 8)) == 16
            &&& le_value(data.subrange(8, 10)) == 0xFFFF
            &&& le_value(data.subrange(10, 12)) == 112
            &&& le_value(data.subrange(12, 14)) == message.len()
            &&& le_value(data.subrange(14, 16)) == 0xFFFF
            &&& data.subrange(16, 48) == public_key
            &&& data.subrange(48, 112) == signature
            &&& data.subrange(112, 112 + message.len() as int) == message
        }),
{
    let data = precompile_data(public_key, signature, message);
    lemma_precompile_header_len(message.len());
    lemma_le_bytes_len(48, 2);
    lemma_le_bytes_len(0xFFFF, 2);
    lemma_le_bytes_len(16, 2);
    lemma_le_bytes_len(112, 2);
    lemma_le_bytes_len(message.len(), 2);
    lemma_pow256_values();
    lemma_le_value_of_bytes(48, 2);
    lemma_le_value_of_bytes(0xFFFF, 2);
    lemma_le_value_of_bytes(16, 2);
    lemma_le_value_of_bytes(112, 2);
    lemma_le_value_of_bytes(message.len(), 2);
    assert(data.subrange(2, 4) =~= le_bytes(48, 2));
    assert(data.subrange(4, 6) =~= le_bytes(0xFFFF, 2));
    assert(data.subrange(6, 8) =~= le_bytes(16, 2));
    assert(data.subrange(8, 10) =~= le_bytes(0xFFFF, 2));
    assert(data.subrange(10, 12) =~= le_bytes(112, 2));
    assert(data.subrange(12, 14) =~= le_bytes(message.len(), 2));
    assert(data.subrange(14, 16) =~= le_bytes(0xFFFF, 2));
    assert(data.subrange(16, 48) =~= public_key);
    assert(data.subrange(48, 112) =~= signature);
    assert(data.subrange(112, 112 + message.len() as int) =~= message);
}

/// For any request id and 32-byte randomness, the message that the oracle
/// signs is 40 bytes long and is what the signature-verify instruction holds
/// at the offset and length that its header declares.
pub proof fn lemma_signed_message_is_embedded(
    request_id: u64,
    randomness: Seq<u8>,
    public_key: Seq<u8>,
    signature: Seq<u8>,
)
    requires
        randomness.len() == 32,
        public_key.len() == 32,
        signature.len() == 64,
    ensures
        ({
            let message = signed_message_of(request_id, randomness);
            let data = precompile_data(public_key, signature, message);
            let at = le_value(data.subrange(10, 12)) as int;
            let len = le_value(data.subrange(12, 14)) as int;
            &&& message.len() == 40
            &&& at == 112
            &&& len == 40
            &&& data.subrange(at, at + len) == message
        }),
{
    let message = signed_message_of(request_id, randomness);
    lemma_le_bytes_len(request_id as nat, 8);
    lemma_precompile_layout(public_key, signature, message);
}

/// The coordinator accepts what the oracle builds: the instruction made for
/// the authority's key and the signed message of a request passes the check
/// for that key, request and randomness.
pub proof fn lemma_built_instruction_is_accepted(
    request_id: u64,
    randomness: Seq<u8>,
    public_key: Seq<u8>,
    signature: Seq<u8>,
)
    requires
        randomness.len() == 32,
        public_key.len() == 32,
        signature.len() == 64,
    ensures
        proof_check(
            Some(precompile_instruction(public_key, signature, signed_message_of(request_id, randomness))),
            public_key,
            request_id,
            randomness,
        ) == Ok::<(), VrfError>(()),
{
    let message = signed_message_of(request_id, randomness);
    lemma_le_bytes_len(request_id as nat, 8);
    lemma_precompile_layout(public_key, signature, message);
}

/// What the coordinator accepts is a proof for this request: if the check
/// passes, the instruction runs the signature-verify program over one
/// signature, the key that its header points to is the expected one, and the
/// message that its header points to is `u64_le(request_id) ‖ randomness`.
pub proof fn lemma_accepted_instruction_is_a_proof(
    ix: InstructionView,
    expected_key: Seq<u8>,
    request_id: u64,
    randomness: Seq<u8>,
)
    requires
        proof_check(Some(ix), expected_key, request_id, randomness) == Ok::<(), VrfError>(()),
    ensures
        ({
            let key_at = le_value(ix.data.subrange(6, 8)) as int;
            let message_at = le_value(ix.data.subrange(10, 12)) as int;
            let message_len = le_value(ix.data.subrange(12, 14)) as int;
            &&& ix.program_id == ed25519_program_address()
            &&& ix.data[0] == 1
            &&& ix.data.subrange(key_at, key_at + 32) == expected_key
            &&& ix.data.subrange(message_at, message_at + message_len) == signed_message_of(
                request_id,
                randomness,
            )
        }),
{
}

} // verus!
