use luxun_diary::codec::{
    accept_envelope, accept_rumor, judge_rumor, past_timestamp, random_past_timestamp, unwrap,
    wrap,
};
use luxun_diary::envelope::{confirm_envelope, SealedEnvelope};
use luxun_diary::error::{ShareError, UnwrapError, WrapError};
use luxun_diary::keys::KeyPair;
use luxun_diary::public_id::{validate_pubkey, PublicId};
use luxun_diary::record::{DiaryRecord, Rumor, DIARY_ENTRY_KIND};
use luxun_diary::store::create_nostr_event;
use luxun_diary::wire::{get_tag_value, same_tags, SignedEvent};

fn sample_record() -> DiaryRecord {
    DiaryRecord {
        content: String::from("This is a test diary entry"),
        tags: vec![(String::from("title"), String::from("Test Entry"))],
        created_at: 1_700_000_000,
    }
}

fn envelope_event(recipient: &str, signer: &str, created_at: u64) -> SignedEvent {
    SignedEvent {
        id: "0".repeat(64),
        pubkey: String::from(signer),
        created_at,
        kind: 1059,
        tags: vec![vec![String::from("p"), String::from(recipient)]],
        content: String::from("ciphertext"),
        sig: "0".repeat(128),
    }
}

#[test]
fn test_gift_wrap_unwrap() {
    let sender_keys = KeyPair::generate();
    let recipient_keys = KeyPair::generate();

    let content = "This is a test diary entry";
    let record = sample_record();
    assert_eq!(DIARY_ENTRY_KIND, 30027);

    let wrapped = wrap(&record, &sender_keys, &recipient_keys.public_id().to_hex()).unwrap();

    let unwrapped = unwrap(&wrapped.envelope, &recipient_keys).unwrap();

    assert_eq!(unwrapped.record.content, content);
}

#[test]
fn round_trip_gives_sender_and_record_back() {
    let sender_keys = KeyPair::generate();
    let recipient_keys = KeyPair::generate();
    let record = DiaryRecord {
        content: String::from("line one\nline \"two\" \u{9c81}\u{8fc5}"),
        tags: vec![
            (String::from("d"), String::from("2024-05-01")),
            (String::from("weather"), String::from("rain")),
            (String::from("d"), String::from("again")),
        ],
        created_at: 42,
    };
    let wrapped = wrap(&record, &sender_keys, &recipient_keys.public_id().to_hex()).unwrap();
    let unwrapped = unwrap(&wrapped.envelope, &recipient_keys).unwrap();
    assert_eq!(unwrapped.sender.to_hex(), sender_keys.public_id().to_hex());
    assert_eq!(unwrapped.record.content, record.content);
    assert_eq!(unwrapped.record.tags, record.tags);
    assert_eq!(unwrapped.record.created_at, 42);
}

#[test]
fn unwrap_with_other_keys_fails() {
    let sender_keys = KeyPair::generate();
    let recipient_keys = KeyPair::generate();
    let stranger_keys = KeyPair::generate();
    let wrapped =
        wrap(&sample_record(), &sender_keys, &recipient_keys.public_id().to_hex()).unwrap();
    assert!(matches!(
        unwrap(&wrapped.envelope, &stranger_keys),
        Err(UnwrapError::Undecryptable)
    ));
    assert!(matches!(
        unwrap(&wrapped.envelope, &sender_keys),
        Err(UnwrapError::Undecryptable)
    ));
    let reread = SealedEnvelope::from_wire(wrapped.envelope.wire()).unwrap();
    assert!(unwrap(&reread, &recipient_keys).is_ok());
}

#[test]
fn unwrap_is_a_function_of_its_inputs() {
    let sender_keys = KeyPair::generate();
    let recipient_keys = KeyPair::generate();
    let wrapped =
        wrap(&sample_record(), &sender_keys, &recipient_keys.public_id().to_hex()).unwrap();
    let first = unwrap(&wrapped.envelope, &recipient_keys).unwrap();
    let second = unwrap(&wrapped.envelope, &recipient_keys).unwrap();
    assert_eq!(first.rumor_wire, second.rumor_wire);
    assert_eq!(first.sender.to_hex(), second.sender.to_hex());
}

#[test]
fn wrap_refuses_malformed_recipient() {
    let sender_keys = KeyPair::generate();
    for bad in ["not-a-key", "", &"g".repeat(64), &"a".repeat(63), &"a".repeat(65)] {
        let outcome = wrap(&sample_record(), &sender_keys, bad);
        assert!(matches!(outcome, Err(ShareError::InvalidRecipient)));
    }
}

#[test]
fn wrap_takes_recipient_in_upper_case() {
    let sender_keys = KeyPair::generate();
    let recipient_keys = KeyPair::generate();
    let lower = recipient_keys.public_id().to_hex();
    let wrapped = wrap(&sample_record(), &sender_keys, &lower.to_uppercase()).unwrap();
    assert_eq!(
        wrapped.envelope.event().tags,
        vec![vec![String::from("p"), lower]]
    );
    assert!(unwrap(&wrapped.envelope, &recipient_keys).is_ok());
}

#[test]
fn envelope_discloses_recipient_only() {
    let sender_keys = KeyPair::generate();
    let recipient_keys = KeyPair::generate();
    let recipient = recipient_keys.public_id().to_hex();
    let sender = sender_keys.public_id().to_hex();
    let wrapped = wrap(&sample_record(), &sender_keys, &recipient).unwrap();
    let event = wrapped.envelope.event();
    assert_eq!(event.kind, 1059);
    assert_eq!(event.tags, vec![vec![String::from("p"), recipient.clone()]]);
    assert_ne!(event.pubkey, sender);
    assert_eq!(get_tag_value(event, "p"), Some(recipient));
    assert_eq!(get_tag_value(event, "title"), None);
    let wire = wrapped.envelope.wire();
    assert!(!wire.contains(&sender));
    assert!(!wire.contains("This is a test diary entry"));
    assert!(!wire.contains("Test Entry"));
    assert!(!wire.contains("1700000000"));
}

#[test]
fn envelope_time_lies_in_the_two_days_before_its_making() {
    let sender_keys = KeyPair::generate();
    let recipient_keys = KeyPair::generate();
    let recipient = recipient_keys.public_id().to_hex();
    let mut differing = 0;
    for _ in 0..25 {
        let wrapped = wrap(&sample_record(), &sender_keys, &recipient).unwrap();
        let declared = wrapped.envelope.event().created_at;
        assert!(declared + 172_800 > wrapped.not_before);
        assert!(declared <= wrapped.not_after);
        assert!(wrapped.not_before <= wrapped.not_after);
        let opened = unwrap(&wrapped.envelope, &recipient_keys).unwrap();
        assert_eq!(opened.record.created_at, 1_700_000_000);
        if declared != opened.record.created_at {
            differing += 1;
        }
    }
    assert_eq!(differing, 25);
}

#[test]
fn two_wraps_of_the_same_record_differ() {
    let sender_keys = KeyPair::generate();
    let recipient_keys = KeyPair::generate();
    let recipient = recipient_keys.public_id().to_hex();
    let first = wrap(&sample_record(), &sender_keys, &recipient).unwrap();
    let second = wrap(&sample_record(), &sender_keys, &recipient).unwrap();
    assert_ne!(first.envelope.event().pubkey, second.envelope.event().pubkey);
    assert_ne!(first.envelope.wire(), second.envelope.wire());
    assert_ne!(first.envelope.event().id, second.envelope.event().id);
}

#[test]
fn confirm_envelope_names_each_fault() {
    let recipient = PublicId::parse(&"a".repeat(64)).unwrap();
    let sender = PublicId::parse(&"b".repeat(64)).unwrap();
    let throwaway = "c".repeat(64);
    let now = 1_000_000u64;

    let good = envelope_event(&"a".repeat(64), &throwaway, now - 100);
    assert_eq!(confirm_envelope(&good, &sender, &recipient, now, now), Ok(()));

    let mut wrong_kind = envelope_event(&"a".repeat(64), &throwaway, now - 100);
    wrong_kind.kind = 1;
    assert_eq!(
        confirm_envelope(&wrong_kind, &sender, &recipient, now, now),
        Err(WrapError::WrongKind)
    );

    let other = envelope_event(&"d".repeat(64), &throwaway, now - 100);
    assert_eq!(
        confirm_envelope(&other, &sender, &recipient, now, now),
        Err(WrapError::WrongRouting)
    );

    let mut two_tags = envelope_event(&"a".repeat(64), &throwaway, now - 100);
    two_tags.tags.push(vec![String::from("p"), "d".repeat(64)]);
    assert_eq!(
        confirm_envelope(&two_tags, &sender, &recipient, now, now),
        Err(WrapError::WrongRouting)
    );

    let mut long_tag = envelope_event(&"a".repeat(64), &throwaway, now - 100);
    long_tag.tags[0].push(String::from("wss://relay"));
    assert_eq!(
        confirm_envelope(&long_tag, &sender, &recipient, now, now),
        Err(WrapError::WrongRouting)
    );

    let exposed = envelope_event(&"a".repeat(64), &"b".repeat(64), now - 100);
    assert_eq!(
        confirm_envelope(&exposed, &sender, &recipient, now, now),
        Err(WrapError::SenderExposed)
    );
}

#[test]
fn confirm_envelope_holds_the_window_to_the_second() {
    let recipient = PublicId::parse(&"a".repeat(64)).unwrap();
    let sender = PublicId::parse(&"b".repeat(64)).unwrap();
    let throwaway = "c".repeat(64);
    let now = 1_000_000u64;
    let verdict = |declared: u64, before: u64, after: u64| {
        confirm_envelope(
            &envelope_event(&"a".repeat(64), &throwaway, declared),
            &sender,
            &recipient,
            before,
            after,
        )
    };
    assert_eq!(verdict(now, now, now), Ok(()));
    assert_eq!(verdict(now + 1, now, now), Err(WrapError::TimestampOutOfWindow));
    assert_eq!(verdict(now + 1, now, now + 1), Ok(()));
    assert_eq!(verdict(now - 172_799, now, now), Ok(()));
    assert_eq!(verdict(now - 172_800, now, now), Err(WrapError::TimestampOutOfWindow));
    assert_eq!(verdict(0, 100, 100), Ok(()));
    assert_eq!(verdict(0, 172_800, 172_800), Err(WrapError::TimestampOutOfWindow));
    assert_eq!(verdict(1, 172_800, 172_800), Ok(()));
}

#[test]
fn accept_envelope_refuses_what_is_no_event() {
    let recipient = PublicId::parse(&"a".repeat(64)).unwrap();
    let sender = PublicId::parse(&"b".repeat(64)).unwrap();
    assert!(matches!(
        accept_envelope("{}", &sender, &recipient, 10, 10),
        Err(WrapError::UnreadableEnvelope)
    ));
}

#[test]
fn accept_envelope_judges_a_real_envelope() {
    let sender_keys = KeyPair::generate();
    let recipient_keys = KeyPair::generate();
    let stranger_keys = KeyPair::generate();
    let wrapped =
        wrap(&sample_record(), &sender_keys, &recipient_keys.public_id().to_hex()).unwrap();
    let wire = wrapped.envelope.wire();
    let accepted = accept_envelope(
        wire,
        sender_keys.public_id(),
        recipient_keys.public_id(),
        wrapped.not_before,
        wrapped.not_after,
    )
    .unwrap();
    assert_eq!(accepted.wire(), wire);
    assert_eq!(accepted.event().id, wrapped.envelope.event().id);
    assert!(matches!(
        accept_envelope(
            wire,
            sender_keys.public_id(),
            stranger_keys.public_id(),
            wrapped.not_before,
            wrapped.not_after
        ),
        Err(WrapError::WrongRouting)
    ));
    assert!(matches!(
        accept_envelope(
            wire,
            sender_keys.public_id(),
            recipient_keys.public_id(),
            wrapped.not_before + 400_000,
            wrapped.not_after + 400_000
        ),
        Err(WrapError::TimestampOutOfWindow)
    ));
}

#[test]
fn accept_envelope_refuses_what_does_not_verify() {
    let sender_keys = KeyPair::generate();
    let recipient_keys = KeyPair::generate();
    let wrapped =
        wrap(&sample_record(), &sender_keys, &recipient_keys.public_id().to_hex()).unwrap();
    let event = wrapped.envelope.event();
    let judge = |wire: &str| {
        accept_envelope(
            wire,
            sender_keys.public_id(),
            recipient_keys.public_id(),
            wrapped.not_before,
            wrapped.not_after,
        )
    };
    assert!(judge(wrapped.envelope.wire()).is_ok());
    let unsigned = wrapped.envelope.wire().replace(&event.sig, &"0".repeat(128));
    assert!(matches!(judge(&unsigned), Err(WrapError::Unverified)));
    let renamed = wrapped.envelope.wire().replace(&event.id, &"0".repeat(64));
    assert!(matches!(judge(&renamed), Err(WrapError::Unverified)));
    assert_eq!(WrapError::Unverified.describe(), "Gift wrap does not verify");
}

#[test]
fn judge_rumor_holds_the_rumor_to_the_seal() {
    let author = PublicId::parse(&"a".repeat(64)).unwrap();
    let other = PublicId::parse(&"b".repeat(64)).unwrap();
    let rumor = |kind: u16, tags: Vec<Vec<String>>| Rumor {
        author: "a".repeat(64),
        created_at: 77,
        kind,
        tags,
        content: String::from("words"),
    };
    let pair = vec![vec![String::from("d"), String::from("2024-05-01")]];
    let record = judge_rumor(&author, &rumor(30027, pair.clone())).unwrap();
    assert_eq!(record.content, "words");
    assert_eq!(record.created_at, 77);
    assert_eq!(record.tags, vec![(String::from("d"), String::from("2024-05-01"))]);
    assert_eq!(
        judge_rumor(&other, &rumor(30027, pair.clone())).err(),
        Some(UnwrapError::AuthorMismatch)
    );
    assert_eq!(
        judge_rumor(&author, &rumor(1, pair.clone())).err(),
        Some(UnwrapError::MalformedRumor)
    );
    assert_eq!(
        judge_rumor(&author, &rumor(30027, vec![vec![String::from("d")]])).err(),
        Some(UnwrapError::MalformedRumor)
    );
    assert_eq!(
        judge_rumor(&other, &rumor(1, vec![])).err(),
        Some(UnwrapError::AuthorMismatch)
    );
}

#[test]
fn accept_rumor_holds_the_rumor_to_the_seal() {
    let sender_keys = KeyPair::generate();
    let recipient_keys = KeyPair::generate();
    let stranger_keys = KeyPair::generate();
    let wrapped =
        wrap(&sample_record(), &sender_keys, &recipient_keys.public_id().to_hex()).unwrap();
    let opened = unwrap(&wrapped.envelope, &recipient_keys).unwrap();

    let again = accept_rumor(sender_keys.public_id().duplicate(), opened.rumor_wire.clone()).unwrap();
    assert_eq!(again.record.content, "This is a test diary entry");
    assert_eq!(again.rumor_wire, opened.rumor_wire);

    assert!(matches!(
        accept_rumor(stranger_keys.public_id().duplicate(), opened.rumor_wire.clone()),
        Err(UnwrapError::AuthorMismatch)
    ));
    assert!(matches!(
        accept_rumor(sender_keys.public_id().duplicate(), String::from("no rumor")),
        Err(UnwrapError::MalformedRumor)
    ));
}

#[test]
fn unwrap_refuses_what_is_no_envelope() {
    let keys = KeyPair::generate();
    let (_, json) = create_nostr_event(&keys, "text", "sunny", "2024-05-01", 1_700_000_000).unwrap();
    let event = SealedEnvelope::from_wire(&json).unwrap();
    assert!(matches!(unwrap(&event, &keys), Err(UnwrapError::NotAnEnvelope)));
    assert!(SealedEnvelope::from_wire("{\"id\":1}").is_none());
}

#[test]
fn rumor_of_another_kind_is_no_record() {
    let rumor = Rumor {
        author: "a".repeat(64),
        created_at: 5,
        kind: 14,
        tags: vec![],
        content: String::from("hello"),
    };
    assert!(rumor.to_record().is_none());
    let single = Rumor {
        author: "a".repeat(64),
        created_at: 5,
        kind: 30027,
        tags: vec![vec![String::from("alone")]],
        content: String::from("hello"),
    };
    assert!(single.to_record().is_none());
    let fine = Rumor {
        author: "a".repeat(64),
        created_at: 5,
        kind: 30027,
        tags: vec![vec![String::from("k"), String::from("v")]],
        content: String::from("hello"),
    };
    let record = fine.to_record().unwrap();
    assert_eq!(record.tags, vec![(String::from("k"), String::from("v"))]);
    assert_eq!(record.created_at, 5);
    let back = record.to_rumor(&"a".repeat(64));
    assert!(back.same_as(&fine));
    assert!(!back.same_as(&single));
    assert!(same_tags(&back.tags, &fine.tags));
}

#[test]
fn past_timestamp_subtracts_and_stops_at_zero() {
    assert_eq!(past_timestamp(1_000_000, 0), 1_000_000);
    assert_eq!(past_timestamp(1_000_000, 172_799), 827_201);
    assert_eq!(past_timestamp(10, 10), 0);
    assert_eq!(past_timestamp(10, 11), 0);
    assert_eq!(past_timestamp(u64::MAX, 1), u64::MAX - 1);
}

#[test]
fn random_past_timestamp_stays_in_the_window() {
    let now = 1_700_000_000u64;
    let mut seen_different = false;
    for _ in 0..200 {
        let t = random_past_timestamp(now);
        assert!(t <= now);
        assert!(t > now - 172_800);
        if t != now {
            seen_different = true;
        }
    }
    assert!(seen_different);
    for _ in 0..50 {
        assert!(random_past_timestamp(5) <= 5);
    }
}

#[test]
fn validate_pubkey_takes_64_hex_digits() {
    assert!(validate_pubkey(&"a".repeat(64)));
    assert!(validate_pubkey(&"A".repeat(64)));
    assert!(validate_pubkey(
        "aa4fc8665f5696e33db7e1a572e3b0f5b3d615837b0f362dcb1c8068b098c7b4"
    ));
    assert!(!validate_pubkey(""));
    assert!(!validate_pubkey(&"a".repeat(63)));
    assert!(!validate_pubkey(&"a".repeat(65)));
    assert!(!validate_pubkey(&"g".repeat(64)));
    assert!(!validate_pubkey(
        "npub14f8usejl26twx0dhuxjh9cas7keav9vr0v8nvtwtrjqx3vycc76qqh9nsy"
    ));
    let mut multibyte = "a".repeat(62);
    multibyte.push('\u{e9}');
    assert!(!validate_pubkey(&multibyte));
}

#[test]
fn public_id_is_kept_in_lower_case() {
    let text = "AA4FC8665F5696E33DB7E1A572E3B0F5B3D615837B0F362DCB1C8068B098C7B4";
    let id = PublicId::parse(text).unwrap();
    assert_eq!(
        id.as_str(),
        "aa4fc8665f5696e33db7e1a572e3b0f5b3d615837b0f362dcb1c8068b098c7b4"
    );
    assert_eq!(id.to_hex(), id.as_str());
    let same = PublicId::parse(&text.to_lowercase()).unwrap();
    assert!(id.same_as(&same));
    assert!(id.same_as(&id.duplicate()));
    assert!(!id.same_as(&PublicId::parse(&"0".repeat(64)).unwrap()));
    assert!(PublicId::parse("xyz").is_none());
}
