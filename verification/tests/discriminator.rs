use vrf_oracle::discriminator::{
    account_discriminator, compressed_request_event_discriminator, consumer_callback_discriminator,
    event_discriminator, fulfill_discriminator, leading_eight, request_account_discriminator,
    request_event_discriminator,
};

#[test]
fn request_event_discriminator_agrees_with_chain() {
    assert_eq!(event_discriminator("RandomWordsRequested"), [165, 151, 43, 146, 9, 131, 196, 201]);
}

#[test]
fn request_account_discriminator_agrees_with_chain() {
    assert_eq!(account_discriminator("RandomnessRequest"), [244, 231, 228, 160, 148, 28, 17, 184]);
}

#[test]
fn fulfill_discriminator_is_the_hash_prefix() {
    assert_eq!(fulfill_discriminator(), [241, 31, 92, 116, 42, 230, 221, 188]);
    assert_eq!(consumer_callback_discriminator(), fulfill_discriminator());
}

#[test]
fn other_events_have_other_discriminators() {
    assert_eq!(event_discriminator("RandomWordsFulfilled"), [29, 175, 249, 165, 74, 169, 85, 82]);
    assert_eq!(
        event_discriminator("CompressedRandomnessRequested"),
        [142, 194, 161, 1, 31, 36, 113, 37]
    );
    assert_ne!(event_discriminator("RandomnessRequest"), account_discriminator("RandomnessRequest"));
}

#[test]
fn leading_eight_takes_the_first_bytes() {
    let mut digest = [0u8; 32];
    for (i, b) in digest.iter_mut().enumerate() {
        *b = 100 + i as u8;
    }
    assert_eq!(leading_eight(&digest), [100, 101, 102, 103, 104, 105, 106, 107]);
}

#[test]
fn listener_tags_are_those_of_the_request_events() {
    assert_eq!(request_event_discriminator(), [165, 151, 43, 146, 9, 131, 196, 201]);
    assert_eq!(request_event_discriminator(), event_discriminator("RandomWordsRequested"));
    assert_eq!(compressed_request_event_discriminator(), [142, 194, 161, 1, 31, 36, 113, 37]);
    assert_eq!(request_account_discriminator(), [244, 231, 228, 160, 148, 28, 17, 184]);
}
