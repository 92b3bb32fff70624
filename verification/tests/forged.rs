use futures::executor::block_on;
use luxun_diary::codec::{unwrap, wrap};
use luxun_diary::envelope::SealedEnvelope;
use luxun_diary::error::{ShareError, UnwrapError, WrapError};
use luxun_diary::keys::KeyPair;
use luxun_diary::record::DiaryRecord;
use luxun_diary::codec::{open_layer, open_seal, MIN_PAYLOAD_LEN};
use luxun_diary::pipeline::fetch_gift_wraps;
use nostr_sdk::nips::nip44;
use nostr_sdk::nips::nip44::v2::ConversationKey;
use nostr_sdk::nostr::base64::engine::general_purpose::STANDARD;
use nostr_sdk::nostr::base64::engine::Engine;
use nostr_sdk::nostr::hashes::hmac::{Hmac, HmacEngine};
use nostr_sdk::nostr::hashes::sha256;
use nostr_sdk::nostr::hashes::HashEngine;
use nostr_sdk::nostr::util::hkdf;
use nostr_sdk::{
    EventBuilder, JsonUtil, Keys, Kind, PublicKey, SecretKey, Tag, Timestamp, UnsignedEvent,
};

fn address(keys: &KeyPair) -> PublicKey {
    PublicKey::from_hex(keys.public_id().as_str()).unwrap()
}

fn authentication_code(secret: &SecretKey, to: &PublicKey, nonce: &[u8], buffer: &[u8]) -> [u8; 32] {
    let key = ConversationKey::derive(secret, to).unwrap();
    let expanded = hkdf::expand(key.as_bytes(), nonce, 76);
    let mut engine: HmacEngine<sha256::Hash> = HmacEngine::new(&expanded[44..76]);
    engine.input(nonce);
    engine.input(buffer);
    let code: Hmac<sha256::Hash> = nostr_sdk::nostr::hashes::Hash::from_engine(engine);
    nostr_sdk::nostr::hashes::Hash::to_byte_array(code)
}

/// A payload with a valid authentication code around `buffer`, which may be shorter
/// than any padded message.
fn authenticated_payload(secret: &SecretKey, to: &PublicKey, buffer: &[u8]) -> String {
    let nonce = [7u8; 32];
    let mac = authentication_code(secret, to, &nonce, buffer);
    let mut payload = vec![2u8];
    payload.extend_from_slice(&nonce);
    payload.extend_from_slice(buffer);
    payload.extend_from_slice(&mac);
    STANDARD.encode(payload)
}

fn envelope_with_content(throwaway: &Keys, to: PublicKey, content: String) -> String {
    EventBuilder::new(Kind::GiftWrap, content)
        .tag(Tag::public_key(to))
        .sign_with_keys(throwaway)
        .unwrap()
        .as_json()
}

#[test]
fn crafted_payloads_carry_the_code_that_the_decryption_expects() {
    let recipient = KeyPair::generate();
    let throwaway = Keys::generate();
    let to = address(&recipient);
    let real = nip44::encrypt(throwaway.secret_key(), &to, "words", nip44::Version::default())
        .unwrap();
    let bytes = STANDARD.decode(real).unwrap();
    let end = bytes.len() - 32;
    assert_eq!(bytes[0], 2);
    assert_eq!(
        authentication_code(throwaway.secret_key(), &to, &bytes[1..33], &bytes[33..end]).to_vec(),
        bytes[end..].to_vec()
    );
    let crafted = STANDARD
        .decode(authenticated_payload(throwaway.secret_key(), &to, &[]))
        .unwrap();
    assert_eq!(crafted.len(), 65);
}

#[test]
fn sealing_and_signing_work_inside_a_running_executor() {
    let sender = KeyPair::generate();
    let recipient = KeyPair::generate();
    let record = DiaryRecord { content: String::from("inside"), tags: vec![], created_at: 3 };
    let to = recipient.public_id().to_hex();
    let wrapped = block_on(async { wrap(&record, &sender, &to) }).unwrap();
    let opened = block_on(async { unwrap(&wrapped.envelope, &recipient) }).unwrap();
    assert_eq!(opened.record.content, "inside");
    let signed = block_on(async {
        luxun_diary::store::create_nostr_event(&sender, "text", "rain", "2024-01-02", 99)
    });
    assert!(signed.is_ok());
}

#[test]
fn shortest_encrypted_layer_opens() {
    let recipient = KeyPair::generate();
    let throwaway = Keys::generate();
    let to = address(&recipient);
    let payload =
        nip44::encrypt(throwaway.secret_key(), &to, "h", nip44::Version::default()).unwrap();
    assert_eq!(payload.len(), 132);
    assert_eq!(MIN_PAYLOAD_LEN, 132);
    let from = throwaway.public_key().to_hex();
    assert_eq!(open_layer(&recipient, &from, &payload), Some(String::from("h")));
    assert_eq!(open_layer(&recipient, &from, &payload[..128]), None);
    assert_eq!(open_layer(&KeyPair::generate(), &from, &payload), None);
    assert_eq!(open_layer(&recipient, "no key", &payload), None);
    let longer =
        nip44::encrypt(throwaway.secret_key(), &to, "x".repeat(40), nip44::Version::default())
            .unwrap();
    assert_eq!(open_layer(&recipient, &from, &longer), Some("x".repeat(40)));
}

#[test]
fn envelope_with_an_authenticated_payload_too_short_to_hold_a_message_is_turned_away() {
    let recipient = KeyPair::generate();
    let throwaway = Keys::generate();
    let to = address(&recipient);
    for buffer in [vec![], vec![0u8], vec![0u8, 1], vec![0u8, 1, b'x']] {
        let payload = authenticated_payload(throwaway.secret_key(), &to, &buffer);
        assert!(payload.len() < 132);
        let wire = envelope_with_content(&throwaway, to, payload.clone());
        let envelope = SealedEnvelope::from_wire(&wire).unwrap();
        assert!(matches!(unwrap(&envelope, &recipient), Err(UnwrapError::Undecryptable)));
        assert_eq!(open_layer(&recipient, &throwaway.public_key().to_hex(), &payload), None);
    }
}

#[test]
fn seal_with_an_authenticated_payload_too_short_to_hold_a_message_is_turned_away() {
    let recipient = KeyPair::generate();
    let sender = Keys::generate();
    let throwaway = Keys::generate();
    let to = address(&recipient);
    let seal = EventBuilder::new(Kind::Seal, authenticated_payload(sender.secret_key(), &to, &[]))
        .sign_with_keys(&sender)
        .unwrap()
        .as_json();
    assert!(matches!(open_seal(&seal, &recipient), Err(UnwrapError::Undecryptable)));
    let content =
        nip44::encrypt(throwaway.secret_key(), &to, &seal, nip44::Version::default()).unwrap();
    let envelope = SealedEnvelope::from_wire(&envelope_with_content(&throwaway, to, content)).unwrap();
    assert!(matches!(unwrap(&envelope, &recipient), Err(UnwrapError::Undecryptable)));
}

#[test]
fn one_crafted_envelope_does_not_end_the_batch() {
    let recipient = KeyPair::generate();
    let sender = KeyPair::generate();
    let throwaway = Keys::generate();
    let to = address(&recipient);
    let record = DiaryRecord { content: String::from("kept"), tags: vec![], created_at: 9 };
    let good = wrap(&record, &sender, recipient.public_id().as_str()).unwrap();
    let crafted = envelope_with_content(
        &throwaway,
        to,
        authenticated_payload(throwaway.secret_key(), &to, &[]),
    );
    let events = vec![crafted, String::from(good.envelope.wire())];
    let batch = fetch_gift_wraps(&events, &recipient);
    assert_eq!(batch.opened.len(), 1);
    assert_eq!(batch.opened[0].sender_pubkey, sender.public_id().as_str());
    assert_eq!(batch.failed.len(), 1);
    assert_eq!(batch.failed[0].index, 0);
    assert_eq!(batch.failed[0].fault, UnwrapError::Undecryptable);
}

#[test]
fn seal_that_does_not_verify_is_rejected() {
    let recipient = KeyPair::generate();
    let sender = KeyPair::generate();
    let wrapped = wrap(
        &DiaryRecord { content: String::from("text"), tags: vec![], created_at: 1 },
        &sender,
        recipient.public_id().as_str(),
    )
    .unwrap();
    let event = wrapped.envelope.event();
    let seal = open_layer(&recipient, &event.pubkey, &event.content).unwrap();
    let opened = open_seal(&seal, &recipient).unwrap();
    assert_eq!(opened.sender.as_str(), sender.public_id().as_str());
    assert_eq!(opened.record.content, "text");

    let signed = SealedEnvelope::from_wire(&seal).unwrap();
    assert_eq!(signed.event().kind, 13);
    assert_eq!(signed.event().pubkey, sender.public_id().as_str());
    let forged = seal.replace(&signed.event().sig, &"0".repeat(128));
    assert!(matches!(open_seal(&forged, &recipient), Err(UnwrapError::SealRejected)));
    let retimed = seal.replace(
        &format!("\"created_at\":{}", signed.event().created_at),
        "\"created_at\":1",
    );
    assert_ne!(retimed, seal);
    assert!(matches!(open_seal(&retimed, &recipient), Err(UnwrapError::SealRejected)));
    assert!(matches!(open_seal("no event", &recipient), Err(UnwrapError::SealRejected)));
    assert!(matches!(
        open_seal(&seal, &KeyPair::generate()),
        Err(UnwrapError::Undecryptable)
    ));
}

#[test]
fn envelope_around_what_is_no_seal_is_rejected() {
    let recipient = KeyPair::generate();
    let throwaway = Keys::generate();
    let to = address(&recipient);
    let content =
        nip44::encrypt(throwaway.secret_key(), &to, "this is no seal", nip44::Version::default())
            .unwrap();
    let event = EventBuilder::new(Kind::GiftWrap, content)
        .tag(Tag::public_key(to))
        .sign_with_keys(&throwaway)
        .unwrap();
    let envelope = SealedEnvelope::from_wire(&event.as_json()).unwrap();
    assert!(matches!(unwrap(&envelope, &recipient), Err(UnwrapError::SealRejected)));
}

#[test]
fn envelope_with_unencrypted_content_does_not_decrypt() {
    let recipient = KeyPair::generate();
    let throwaway = Keys::generate();
    let event = EventBuilder::new(Kind::GiftWrap, "plain words")
        .tag(Tag::public_key(address(&recipient)))
        .sign_with_keys(&throwaway)
        .unwrap();
    let envelope = SealedEnvelope::from_wire(&event.as_json()).unwrap();
    assert!(matches!(unwrap(&envelope, &recipient), Err(UnwrapError::Undecryptable)));
}

#[test]
fn rumor_under_a_false_name_is_rejected() {
    let sender = Keys::generate();
    let claimed = Keys::generate();
    let recipient = KeyPair::generate();
    let rumor = UnsignedEvent::new(
        claimed.public_key(),
        Timestamp::from(5),
        Kind::from(30027),
        [],
        "written by somebody else",
    );
    let event = block_on(EventBuilder::gift_wrap(&sender, &address(&recipient), rumor, [])).unwrap();
    let envelope = SealedEnvelope::from_wire(&event.as_json()).unwrap();
    assert!(matches!(unwrap(&envelope, &recipient), Err(UnwrapError::AuthorMismatch)));
}

#[test]
fn rumor_that_is_no_diary_entry_is_rejected() {
    let sender = Keys::generate();
    let recipient = KeyPair::generate();
    let rumor = EventBuilder::text_note("a note").build(sender.public_key());
    let event = block_on(EventBuilder::gift_wrap(&sender, &address(&recipient), rumor, [])).unwrap();
    let envelope = SealedEnvelope::from_wire(&event.as_json()).unwrap();
    assert!(matches!(unwrap(&envelope, &recipient), Err(UnwrapError::MalformedRumor)));
}

#[test]
fn envelope_made_elsewhere_opens_to_its_record() {
    let sender = Keys::generate();
    let recipient = KeyPair::generate();
    let rumor = UnsignedEvent::new(
        sender.public_key(),
        Timestamp::from(1_700_000_000),
        Kind::from(30027),
        [Tag::parse(["d", "2023-11-14"]).unwrap()],
        "from another client",
    );
    let event = block_on(EventBuilder::gift_wrap(&sender, &address(&recipient), rumor, [])).unwrap();
    let envelope = SealedEnvelope::from_wire(&event.as_json()).unwrap();
    let opened = unwrap(&envelope, &recipient).unwrap();
    assert_eq!(opened.sender.to_hex(), sender.public_key().to_hex());
    assert_eq!(opened.record.content, "from another client");
    assert_eq!(opened.record.tags, vec![(String::from("d"), String::from("2023-11-14"))]);
    assert_eq!(opened.record.created_at, 1_700_000_000);
}

#[test]
fn recipient_that_is_no_point_on_the_curve_cannot_be_sealed_for() {
    let sender = KeyPair::generate();
    let record = DiaryRecord { content: String::from("text"), tags: vec![], created_at: 1 };
    let outcome = wrap(&record, &sender, &"f".repeat(64));
    match outcome {
        Err(error) => {
            assert!(matches!(error, ShareError::Wrap(WrapError::Sealing)));
            assert_eq!(error.message(), "Failed to create gift wrapped event");
        }
        Ok(_) => panic!("nothing can be encrypted for this identifier"),
    }
}
