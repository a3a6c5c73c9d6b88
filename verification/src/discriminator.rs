//! The 8-byte type tags that prefix event payloads, account bodies and
//! instruction data.

use vstd::prelude::*;
use vstd::string::StringSliceAdditionalSpecFns;
use crate::crypto::{sha256, sha256_digest};

verus! {

/// The tag for a preimage: the first eight bytes of its SHA-256 digest.
pub open spec fn discriminator_of(preimage: Seq<u8>) -> Seq<u8> {
    sha256(preimage).subrange(0, 8)
}

/// The tag of the event called `name`: that of `"event:<name>"`.
pub open spec fn event_tag(name: &str) -> Seq<u8> {
    discriminator_of("event:".spec_bytes() + name.spec_bytes())
}

/// The tag of the account type called `name`: that of `"account:<name>"`.
pub open spec fn account_tag(name: &str) -> Seq<u8> {
    discriminator_of("account:".spec_bytes() + name.spec_bytes())
}

/// The tag of the fulfill instruction and of the consumer callback: that of
/// `"global:fulfill_random_words"`.
pub open spec fn fulfill_tag() -> Seq<u8> {
    discriminator_of("global:fulfill_random_words".spec_bytes())
}

/// The tag of the event that announces a new request.
pub open spec fn request_event_tag() -> Seq<u8> {
    event_tag("RandomWordsRequested")
}

/// The tag of the event that announces a new compressed request.
pub open spec fn compressed_request_event_tag() -> Seq<u8> {
    event_tag("CompressedRandomnessRequested")
}

/// The tag of a request account.
pub open spec fn request_account_tag() -> Seq<u8> {
    account_tag("RandomnessRequest")
}

/// The first eight bytes of a digest.
pub fn leading_eight(digest: &[u8; 32]) -> (tag: [u8; 8])
    ensures
        tag@ == digest@.subrange(0, 8),
{
    let tag = [
        digest[0],
        digest[1],
        digest[2],
        digest[3],
        digest[4],
        digest[5],
        digest[6],
        digest[7],
    ];
    assert(tag@ =~= digest@.subrange(0, 8));
    tag
}

/// Computes the tag of `prefix` followed by `name`.
fn tag_of_parts(prefix: &str, name: &str) -> (tag: [u8; 8])
    ensures
        tag@ == discriminator_of(prefix.spec_bytes() + name.spec_bytes()),
{
    let mut preimage: Vec<u8> = Vec::new();
    preimage.extend_from_slice(prefix.as_bytes());
    preimage.extend_from_slice(name.as_bytes());
    assert(preimage@ =~= prefix.spec_bytes() + name.spec_bytes());
    let digest = sha256_digest(preimage.as_slice());
    leading_eight(&digest)
}

/// Computes the tag of the event called `event_name`.
pub fn event_discriminator(event_name: &str) -> (tag: [u8; 8])
    ensures
        tag@ == event_tag(event_name),
{
    tag_of_parts("event:", event_name)
}

/// Computes the tag of the account type called `account_name`.
pub fn account_discriminator(account_name: &str) -> (tag: [u8; 8])
    ensures
        tag@ == account_tag(account_name),
{
    tag_of_parts("account:", account_name)
}

/// Computes the tag that the listener looks for in the logs: that of the
/// event `RandomWordsRequested`.
pub fn request_event_discriminator() -> (tag: [u8; 8])
    ensures
        tag@ == request_event_tag(),
        tag@ == event_tag("RandomWordsRequested"),
{
    event_discriminator("RandomWordsRequested")
}

/// Computes the tag of the event that announces a compressed request:
/// that of `CompressedRandomnessRequested`.
pub fn compressed_request_event_discriminator() -> (tag: [u8; 8])
    ensures
        tag@ == compressed_request_event_tag(),
        tag@ == event_tag("CompressedRandomnessRequested"),
{
    event_discriminator("CompressedRandomnessRequested")
}

/// Computes the tag of a request account: that of `RandomnessRequest`.
pub fn request_account_discriminator() -> (tag: [u8; 8])
    ensures
        tag@ == request_account_tag(),
{
    account_discriminator("RandomnessRequest")
}

/// Computes the tag of the fulfill instruction.
pub fn fulfill_discriminator() -> (tag: [u8; 8])
    ensures
        tag@ == fulfill_tag(),
{
    let digest = sha256_digest("global:fulfill_random_words".as_bytes());
    leading_eight(&digest)
}

/// Computes the tag that the coordinator puts before the data of the
/// consumer callback.
pub fn consumer_callback_discriminator() -> (tag: [u8; 8])
    ensures
        tag@ == fulfill_tag(),
{
    fulfill_discriminator()
}

} // verus!
