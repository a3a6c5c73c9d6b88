//! Compressed request accounts as the indexer reports them: decoding,
//! selection of the pending ones, and the checks on a validity proof.

use vstd::prelude::*;
use vstd::slice::slice_subrange;
use crate::bytes::{
    bytes_equal, le_bytes, le_value, lemma_le_bytes_len, lemma_le_value_of_bytes, lemma_pow256_values,
    read_array32, read_u64_le, u64_to_le,
};
use crate::pubkey::{address_from_text, optional_key_view, parse_address, zero_address, Pubkey};
use crate::text::{base58_decode, base58_decoded, base64_decode, base64_decoded};

verus! {

/// Length of the body of a compressed request.
pub const DATA_SIZE: usize = 113;

/// Status of a compressed request that waits for the oracle.
pub const STATUS_PENDING: u8 = 0;

/// Status of a compressed request that was fulfilled.
pub const STATUS_FULFILLED: u8 = 1;

/// The tag in front of the body of a compressed request.
pub open spec fn light_discriminator() -> Seq<u8> {
    seq![149u8, 31, 244, 154, 189, 164, 84, 79]
}

/// A compressed request for randomness.
#[derive(Clone, Copy, Debug, PartialEq, Eq)]
pub struct CompressedRandomnessRequest {
    pub request_id: u64,
    pub requester: Pubkey,
    pub seed: [u8; 32],
    pub request_slot: u64,
    pub status: u8,
    pub randomness: [u8; 32],
}

/// What a compressed request holds.
pub ghost struct CompressedRequestView {
    pub request_id: u64,
    pub requester: Seq<u8>,
    pub seed: Seq<u8>,
    pub request_slot: u64,
    pub status: u8,
    pub randomness: Seq<u8>,
}

impl View for CompressedRandomnessRequest {
    type V = CompressedRequestView;

    open spec fn view(&self) -> CompressedRequestView {
        CompressedRequestView {
            request_id: self.request_id,
            requester: self.requester@,
            seed: self.seed@,
            request_slot: self.request_slot,
            status: self.status,
            randomness: self.randomness@,
        }
    }
}

/// The 113 bytes of a compressed request: id, requester, seed, slot, status,
/// randomness, integers little-endian.
pub open spec fn compressed_body(r: CompressedRequestView) -> Seq<u8> {
    le_bytes(r.request_id as nat, 8) + r.requester + r.seed + le_bytes(r.request_slot as nat, 8)
        + seq![r.status] + r.randomness
}

/// What the first 113 bytes of `data` say; `None` where `data` is shorter.
pub open spec fn decoded_compressed(data: Seq<u8>) -> Option<CompressedRequestView> {
    if data.len() < 113 {
        None
    } else {
        Some(
            CompressedRequestView {
                request_id: le_value(data.subrange(0, 8)) as u64,
                requester: data.subrange(8, 40),
                seed: data.subrange(40, 72),
                request_slot: le_value(data.subrange(72, 80)) as u64,
                status: data[80],
                randomness: data.subrange(81, 113),
            },
        )
    }
}

/// What an optional compressed request holds.
pub open spec fn optional_compressed_view(r: Option<CompressedRandomnessRequest>) -> Option<CompressedRequestView> {
    match r {
        Some(request) => Some(request@),
        None => None,
    }
}

impl CompressedRandomnessRequest {
    /// Decodes the body of a compressed request, the tag already stripped.
    /// Bodies under 113 bytes are refused; bytes beyond are ignored.
    pub fn from_bytes(data: &[u8]) -> (parsed: Option<CompressedRandomnessRequest>)
        ensures
            optional_compressed_view(parsed) == decoded_compressed(data@),
    {
        if data.len() < DATA_SIZE {
            return None;
        }
        Some(
            CompressedRandomnessRequest {
                request_id: read_u64_le(data, 0),
                requester: Pubkey::new(read_array32(data, 8)),
                seed: read_array32(data, 40),
                request_slot: read_u64_le(data, 72),
                status: data[80],
                randomness: read_array32(data, 81),
            },
        )
    }

    /// The body of the compressed request.
    pub fn to_bytes(&self) -> (out: Vec<u8>)
        ensures
            out@ == compressed_body(self@),
            out@.len() == 113,
    {
        let mut out: Vec<u8> = Vec::with_capacity(113);
        out.extend_from_slice(u64_to_le(self.request_id).as_slice());
        out.extend_from_slice(self.requester.bytes.as_slice());
        out.extend_from_slice(self.seed.as_slice());
        out.extend_from_slice(u64_to_le(self.request_slot).as_slice());
        out.push(self.status);
        out.extend_from_slice(self.randomness.as_slice());
        proof {
            lemma_le_bytes_len(self.request_id as nat, 8);
            lemma_le_bytes_len(self.request_slot as nat, 8);
            assert(out@ =~= compressed_body(self@));
        }
        out
    }
}

/// Decoding undoes encoding: whatever follows the body of a request with
/// 32-byte fields, the bytes read back as that request.
pub proof fn lemma_compressed_roundtrip(r: CompressedRequestView, rest: Seq<u8>)
    requires
        r.requester.len() == 32,
        r.seed.len() == 32,
        r.randomness.len() == 32,
    ensures
        decoded_compressed(compressed_body(r) + rest) == Some(r),
{
    let data = compressed_body(r) + rest;
    lemma_le_bytes_len(r.request_id as nat, 8);
    lemma_le_bytes_len(r.request_slot as nat, 8);
    lemma_pow256_values();
    lemma_le_value_of_bytes(r.request_id as nat, 8);
    lemma_le_value_of_bytes(r.request_slot as nat, 8);
    assert(data.subrange(0, 8) =~= le_bytes(r.request_id as nat, 8));
    assert(data.subrange(8, 40) =~= r.requester);
    assert(data.subrange(40, 72) =~= r.seed);
    assert(data.subrange(72, 80) =~= le_bytes(r.request_slot as nat, 8));
    assert(data.subrange(81, 113) =~= r.randomness);
    assert(data[80] == r.status);
}

/// A compressed request account with what is needed to spend it.
#[derive(Clone, Copy, Debug, PartialEq, Eq)]
pub struct CompressedAccountInfo {
    pub request: CompressedRandomnessRequest,
    pub hash: [u8; 32],
    pub address: [u8; 32],
    pub merkle_tree: Pubkey,
    pub leaf_index: u32,
    pub merkle_tree_index: u8,
    pub nullifier_queue_index: u8,
    pub root_index: u16,
}

/// What a compressed account holds.
pub ghost struct CompressedAccountView {
    pub request: CompressedRequestView,
    pub hash: Seq<u8>,
    pub address: Seq<u8>,
    pub merkle_tree: Seq<u8>,
    pub leaf_index: u32,
    pub merkle_tree_index: u8,
    pub nullifier_queue_index: u8,
    pub root_index: u16,
}

impl View for CompressedAccountInfo {
    type V = CompressedAccountView;

    open spec fn view(&self) -> CompressedAccountView {
        CompressedAccountView {
            request: self.request@,
            hash: self.hash@,
            address: self.address@,
            merkle_tree: self.merkle_tree@,
            leaf_index: self.leaf_index,
            merkle_tree_index: self.merkle_tree_index,
            nullifier_queue_index: self.nullifier_queue_index,
            root_index: self.root_index,
        }
    }
}

/// A compressed account as the indexer reports it.
#[derive(Clone, Debug, PartialEq, Eq)]
pub struct CompressedAccountItem {
    /// The account's hash, in base58.
    pub hash: String,
    /// The account's address, in base58, if it has one.
    pub address: Option<String>,
    /// The account's data, in base64: tag and body.
    pub data: String,
    /// The account's tree, in base58, if reported.
    pub tree: Option<String>,
    /// The account's leaf index, if reported.
    pub leaf_index: Option<u32>,
}

/// What an item holds.
pub ghost struct ItemView {
    pub hash: Seq<char>,
    pub address: Option<Seq<char>>,
    pub data: Seq<char>,
    pub tree: Option<Seq<char>>,
    pub leaf_index: Option<u32>,
}

impl View for CompressedAccountItem {
    type V = ItemView;

    open spec fn view(&self) -> ItemView {
        ItemView {
            hash: self.hash@,
            address: match self.address {
                Some(a) => Some(a@),
                None => None,
            },
            data: self.data@,
            tree: match self.tree {
                Some(t) => Some(t@),
                None => None,
            },
            leaf_index: self.leaf_index,
        }
    }
}

/// Why an item cannot be read.
#[derive(Clone, Copy, Debug, PartialEq, Eq, Structural)]
pub enum ParseError {
    /// The data are not base64.
    InvalidData,
    /// The data carry the tag of a request but are too short for one.
    DataTooShort,
    /// The hash is not base58.
    InvalidHashEncoding,
    /// The hash is not 32 bytes long.
    HashWrongLength,
    /// The address is no address.
    InvalidAddress,
    /// The tree is no address.
    InvalidTree,
}

/// What an optional address text spells: the zero address where there is no
/// text, `None` where the text spells no address.
pub open spec fn spelled_or_zero(text: Option<Seq<char>>) -> Option<Seq<u8>> {
    match text {
        Some(t) => address_from_text(t),
        None => Some(zero_address()),
    }
}

/// What an item comes to. An item whose data do not start with the tag of a
/// compressed request is not ours: `Ok(None)`. Else the checks run in this
/// order: the data are base64; the body is long enough; the hash is base58
/// and 32 bytes long; the address, if given, is an address; the tree, if
/// given, is an address. The indices that the indexer does not report are 0.
pub open spec fn parsed_item(item: ItemView) -> Result<Option<CompressedAccountView>, ParseError> {
    match base64_decoded(item.data) {
        None => Err(ParseError::InvalidData),
        Some(data) => {
            if data.len() < 8 || data.subrange(0, 8) != light_discriminator() {
                Ok(None)
            } else {
                match decoded_compressed(data.skip(8)) {
                    None => Err(ParseError::DataTooShort),
                    Some(request) => match base58_decoded(item.hash) {
                        None => Err(ParseError::InvalidHashEncoding),
                        Some(hash) => if hash.len() != 32 {
                            Err(ParseError::HashWrongLength)
                        } else {
                            match spelled_or_zero(item.address) {
                                None => Err(ParseError::InvalidAddress),
                                Some(address) => match spelled_or_zero(item.tree) {
                                    None => Err(ParseError::InvalidTree),
                                    Some(merkle_tree) => Ok(
                                        Some(
                                            CompressedAccountView {
                                                request,
                                                hash,
                                                address,
                                                merkle_tree,
                                                leaf_index: match item.leaf_index {
                                                    Some(i) => i,
                                                    None => 0,
                                                },
                                                merkle_tree_index: 0,
                                                nullifier_queue_index: 0,
                                                root_index: 0,
                                            },
                                        ),
                                    ),
                                },
                            }
                        },
                    },
                }
            }
        },
    }
}

/// What the result of reading an item holds.
pub open spec fn parse_view(result: Result<Option<CompressedAccountInfo>, ParseError>) -> Result<
    Option<CompressedAccountView>,
    ParseError,
> {
    match result {
        Ok(Some(info)) => Ok(Some(info@)),
        Ok(None) => Ok(None),
        Err(e) => Err(e),
    }
}

/// Reads an optional address text: the zero address where there is none.
fn address_or_zero(text: &Option<String>) -> (key: Option<Pubkey>)
    ensures
        optional_key_view(key) == spelled_or_zero(
            match text {
                Some(t) => Some(t@),
                None => None,
            },
        ),
{
    match text {
        Some(t) => parse_address(t.as_str()),
        None => Some(Pubkey::zero()),
    }
}

/// Reads a compressed account as the indexer reports it.
pub fn parse_compressed_account(item: &CompressedAccountItem) -> (result: Result<Option<CompressedAccountInfo>, ParseError>)
    ensures
        parse_view(result) == parsed_item(item@),
{
    let data = match base64_decode(item.data.as_str()) {
        Some(data) => data,
        None => {
            return Err(ParseError::InvalidData);
        },
    };
    let len = data.len();
    if len < 8 {
        return Ok(None);
    }
    let tag: [u8; 8] = [149, 31, 244, 154, 189, 164, 84, 79];
    assert(tag@ =~= light_discriminator());
    if !bytes_equal(slice_subrange(data.as_slice(), 0, 8), tag.as_slice()) {
        return Ok(None);
    }
    let body = slice_subrange(data.as_slice(), 8, len);
    assert(body@ =~= data@.skip(8));
    let request = match CompressedRandomnessRequest::from_bytes(body) {
        Some(request) => request,
        None => {
            return Err(ParseError::DataTooShort);
        },
    };
    let hash_bytes = match base58_decode(item.hash.as_str()) {
        Some(bytes) => bytes,
        None => {
            return Err(ParseError::InvalidHashEncoding);
        },
    };
    if hash_bytes.len() != 32 {
        return Err(ParseError::HashWrongLength);
    }
    let hash = read_array32(hash_bytes.as_slice(), 0);
    assert(hash@ =~= hash_bytes@);
    let address = match address_or_zero(&item.address) {
        Some(key) => key,
        None => {
            return Err(ParseError::InvalidAddress);
        },
    };
    let merkle_tree = match address_or_zero(&item.tree) {
        Some(key) => key,
        None => {
            return Err(ParseError::InvalidTree);
        },
    };
    let leaf_index = match item.leaf_index {
        Some(i) => i,
        None => 0,
    };
    Ok(
        Some(
            CompressedAccountInfo {
                request,
                hash,
                address: address.bytes,
                merkle_tree,
                leaf_index,
                merkle_tree_index: 0,
                nullifier_queue_index: 0,
                root_index: 0,
            },
        ),
    )
}

/// The account that an item stands for where it is a pending request.
/// Items that cannot be read, that are not ours, or that are not pending
/// stand for nothing.
pub open spec fn pending_account(item: ItemView) -> Option<CompressedAccountView> {
    match parsed_item(item) {
        Ok(Some(info)) => if info.request.status == 0 {
            Some(info)
        } else {
            None
        },
        _ => None,
    }
}

/// The pending requests among the first `n` items, in order.
pub open spec fn pending_among(items: Seq<CompressedAccountItem>, n: nat) -> Seq<CompressedAccountView>
    decreases n,
{
    if n == 0 {
        Seq::empty()
    } else {
        let before = pending_among(items, (n - 1) as nat);
        match pending_account(items[n - 1]@) {
            Some(info) => before.push(info),
            None => before,
        }
    }
}

/// What a list of accounts holds.
pub open spec fn accounts_view(list: Seq<CompressedAccountInfo>) -> Seq<CompressedAccountView> {
    Seq::new(list.len(), |i: int| list[i]@)
}

/// Picks the pending requests out of the items that the indexer returned,
/// in order.
pub fn find_pending_compressed_requests(items: &Vec<CompressedAccountItem>) -> (pending: Vec<CompressedAccountInfo>)
    ensures
        accounts_view(pending@) == pending_among(items@, items@.len()),
{
    let mut pending: Vec<CompressedAccountInfo> = Vec::new();
    assert(accounts_view(pending@) =~= pending_among(items@, 0));
    let mut i: usize = 0;
    while i < items.len()
        invariant
            i <= items@.len(),
            accounts_view(pending@) == pending_among(items@, i as nat),
        decreases items@.len() - i,
    {
        let ghost before = accounts_view(pending@);
        match parse_compressed_account(&items[i]) {
            Ok(Some(info)) => {
                if info.request.status == STATUS_PENDING {
                    pending.push(info);
                    assert(accounts_view(pending@) =~= before.push(info@));
                }
            },
            Ok(None) => {},
            Err(_) => {},
        }
        i = i + 1;
    }
    pending
}

/// A validity proof as three byte strings of fixed length.
#[derive(Clone, Copy, Debug, PartialEq, Eq)]
pub struct ValidityProof {
    pub a: [u8; 32],
    pub b: [u8; 64],
    pub c: [u8; 32],
}

/// Which part of a validity proof has the wrong length.
#[derive(Clone, Copy, Debug, PartialEq, Eq, Structural)]
pub enum ProofError {
    /// Part `a` is not 32 bytes long.
    WrongSizeA,
    /// Part `b` is not 64 bytes long.
    WrongSizeB,
    /// Part `c` is not 32 bytes long.
    WrongSizeC,
}

/// Which part of a proof has the wrong length, if any; `a` is looked at
/// first, then `b`, then `c`.
pub open spec fn proof_error(a: Seq<u8>, b: Seq<u8>, c: Seq<u8>) -> Option<ProofError> {
    if a.len() != 32 {
        Some(ProofError::WrongSizeA)
    } else if b.len() != 64 {
        Some(ProofError::WrongSizeB)
    } else if c.len() != 32 {
        Some(ProofError::WrongSizeC)
    } else {
        None
    }
}

/// Checks the lengths of the parts of a validity proof and returns them as
/// arrays.
pub fn validity_proof(a: &[u8], b: &[u8], c: &[u8]) -> (checked: Result<ValidityProof, ProofError>)
    ensures
        match proof_error(a@, b@, c@) {
            Some(e) => checked == Err::<ValidityProof, ProofError>(e),
            None => checked matches Ok(p) && p.a@ == a@ && p.b@ == b@ && p.c@ == c@,
        },
{
    if a.len() != 32 {
        return Err(ProofError::WrongSizeA);
    }
    if b.len() != 64 {
        return Err(ProofError::WrongSizeB);
    }
    if c.len() != 32 {
        return Err(ProofError::WrongSizeC);
    }
    let first = read_array32(a, 0);
    let mut middle = [0u8; 64];
    let mut i: usize = 0;
    while i < 64
        invariant
            i <= 64,
            b@.len() == 64,
            forall|j: int| 0 <= j < i ==> middle@[j] == b@[j],
        decreases 64 - i,
    {
        middle[i] = b[i];
        i = i + 1;
    }
    let last = read_array32(c, 0);
    assert(first@ =~= a@);
    assert(middle@ =~= b@);
    assert(last@ =~= c@);
    Ok(ValidityProof { a: first, b: middle, c: last })
}

} // verus!
