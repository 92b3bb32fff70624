use luxun_diary::envelope::SealedEnvelope;
use luxun_diary::error::{ShareError, UnwrapError, WrapError};
use luxun_diary::keys::KeyPair;
use luxun_diary::share::{
    get_diary_event, gift_wrap_diary, open_received, record_of_stored, GiftWrapRequest,
    GiftWrapResponse, UnwrappedGiftResponse,
};
use luxun_diary::wire::SignedEvent;
use luxun_diary::store::{
    accept_signed, check_day_has_entry, compose_entry, create_nostr_event, entry_day,
    entry_day_at, get_diary_entries, get_nostr_event, save_diary_entry, save_entry_to_db,
    verify_nostr_signature, DiaryEntry, EntryError,
};
use luxun_diary::wire::EventFault;
use luxun_diary::wire::get_tag_value;

fn request(id: &str, recipient: &str) -> GiftWrapRequest {
    GiftWrapRequest { nostr_id: String::from(id), recipient_pubkey: String::from(recipient) }
}

#[test]
fn new_entry_is_signed_as_a_diary_event() {
    let keys = KeyPair::generate();
    let (id, json) = create_nostr_event(&keys, "Dear diary", "sunny", "2024-05-01", 1_714_521_600).unwrap();
    let stored = SealedEnvelope::from_wire(&json).unwrap();
    let event = stored.event();
    assert_eq!(event.id, id);
    assert_eq!(event.kind, 30027);
    assert_eq!(event.pubkey, keys.public_id().as_str());
    assert_eq!(event.content, "Dear diary");
    assert_eq!(event.created_at, 1_714_521_600);
    assert_eq!(
        event.tags,
        vec![
            vec![String::from("d"), String::from("2024-05-01")],
            vec![String::from("weather"), String::from("sunny")]
        ]
    );
    assert_eq!(get_tag_value(event, "d"), Some(String::from("2024-05-01")));
    assert_eq!(get_tag_value(event, "weather"), Some(String::from("sunny")));
    assert_eq!(event.id.len(), 64);
    assert_eq!(event.sig.len(), 128);
}

#[test]
fn stored_event_verifies_until_it_is_changed() {
    let keys = KeyPair::generate();
    let (id, json) = create_nostr_event(&keys, "Dear diary", "sunny", "2024-05-01", 1_714_521_600).unwrap();
    assert_eq!(verify_nostr_signature(&id, Ok(Some(json.clone()))).unwrap(), true);

    let changed = json.replace("Dear diary", "Dear reader");
    assert!(matches!(
        verify_nostr_signature(&id, Ok(Some(changed))),
        Err(EntryError::EventRejected(EventFault::InvalidId))
    ));
    let (_, other_json) = create_nostr_event(&keys, "Dear diary", "sunny", "2024-05-01", 1_714_521_600).unwrap();
    let other = SealedEnvelope::from_wire(&other_json).unwrap();
    let own = SealedEnvelope::from_wire(&json).unwrap();
    assert_eq!(other.event().id, own.event().id);
    let forged = json.replace(&own.event().sig, &"0".repeat(128));
    assert!(matches!(
        verify_nostr_signature(&id, Ok(Some(forged))),
        Err(EntryError::EventRejected(EventFault::InvalidSignature))
    ));
    assert!(matches!(
        verify_nostr_signature(&id, Ok(Some(String::from("{")))),
        Err(EntryError::EventRejected(EventFault::Unreadable))
    ));
    assert_eq!(
        EntryError::EventRejected(EventFault::InvalidId).message(),
        "Error verifying signature: Invalid event ID"
    );
    assert_eq!(
        EntryError::EventRejected(EventFault::InvalidSignature).message(),
        "Error verifying signature: Invalid signature"
    );
    assert_eq!(
        EntryError::EventRejected(EventFault::Unreadable).message(),
        "Failed to parse Nostr event"
    );
    match verify_nostr_signature("abc", Ok(None)) {
        Err(error) => assert_eq!(error.message(), "Nostr event with ID abc not found"),
        Ok(_) => panic!("nothing was found"),
    }
    match verify_nostr_signature("abc", Err(String::from("locked"))) {
        Err(error) => assert_eq!(error.message(), "Failed to get Nostr event: locked"),
        Ok(_) => panic!("the store failed"),
    }
}

#[test]
fn accept_signed_holds_the_event_to_the_entry() {
    let keys = KeyPair::generate();
    let (id, json) = create_nostr_event(&keys, "text", "rain", "2024-01-02", 99).unwrap();
    let rumor = SealedEnvelope::from_wire(&json).unwrap();
    let record = luxun_diary::record::DiaryRecord {
        content: String::from("text"),
        tags: vec![
            (String::from("d"), String::from("2024-01-02")),
            (String::from("weather"), String::from("rain")),
        ],
        created_at: 99,
    };
    let expected = record.to_rumor(keys.public_id().as_str());
    let (accepted_id, accepted) = accept_signed(json.clone(), &expected).unwrap();
    assert_eq!(accepted_id, id);
    assert_eq!(accepted, json);
    assert_eq!(rumor.event().id, id);

    let other = record.to_rumor(KeyPair::generate().public_id().as_str());
    assert!(matches!(accept_signed(json.clone(), &other), Err(EntryError::EventMismatch)));
    let mut later = record.to_rumor(keys.public_id().as_str());
    later.created_at = 100;
    assert!(matches!(accept_signed(json, &later), Err(EntryError::EventMismatch)));
    assert!(matches!(
        accept_signed(String::from("nothing"), &expected),
        Err(EntryError::EventMismatch)
    ));
}

#[test]
fn entry_for_a_taken_day_is_refused() {
    let keys = KeyPair::generate();
    let save = |taken: Result<bool, String>| {
        compose_entry(
            taken,
            &keys,
            String::from("7b0c"),
            String::from("Dear diary"),
            String::from("sunny"),
            String::from("2024-05-01"),
            1_714_521_600,
        )
    };
    match save(Ok(true)) {
        Err(EntryError::DayTaken(day)) => assert_eq!(day, "2024-05-01"),
        _ => panic!("the day is taken"),
    }
    match save(Err(String::from("locked"))) {
        Err(error) => assert_eq!(error.message(), "Failed to check if entry exists: locked"),
        Ok(_) => panic!("the store failed"),
    }
    let (entry, json) = save(Ok(false)).unwrap();
    assert_eq!(entry.id, "7b0c");
    assert_eq!(entry.content, "Dear diary");
    assert_eq!(entry.weather, "sunny");
    assert_eq!(entry.day, "2024-05-01");
    assert_eq!(entry.created_at, 1_714_521_600);
    let event_id = entry.nostr_id.clone().unwrap();
    assert_eq!(verify_nostr_signature(&event_id, Ok(Some(json))).unwrap(), true);
    assert_eq!(
        EntryError::DayTaken(String::from("2024-05-01")).message(),
        "An entry already exists for day: 2024-05-01"
    );
}

#[test]
fn new_entry_gets_its_own_identifier_and_the_time_of_the_clock() {
    let keys = KeyPair::generate();
    let save = || {
        save_diary_entry(
            Ok(false),
            &keys,
            String::from("Dear diary"),
            String::from("sunny"),
            String::from("2024-05-01"),
        )
        .unwrap()
    };
    let (first, first_json) = save();
    let (second, _) = save();
    assert_ne!(first.id, second.id);
    assert_eq!(first.id.len(), 36);
    assert_eq!(first.id.matches('-').count(), 4);
    assert!(first.created_at > 1_700_000_000);
    assert_eq!(first.day, "2024-05-01");
    let stored = SealedEnvelope::from_wire(&first_json).unwrap();
    assert_eq!(stored.event().created_at, first.created_at);
    assert_eq!(Some(stored.event().id.clone()), first.nostr_id);
    match save_diary_entry(Ok(true), &keys, String::new(), String::new(), String::from("d")) {
        Err(EntryError::DayTaken(day)) => assert_eq!(day, "d"),
        _ => panic!("the day is taken"),
    }
}

#[test]
fn day_of_an_entry_is_the_day_asked_for_or_today() {
    assert_eq!(entry_day_at(Some(String::from("1912-05-05")), 0).unwrap(), "1912-05-05");
    assert_eq!(entry_day_at(None, 0).unwrap(), "1970-01-01");
    assert_eq!(entry_day_at(None, 1_714_521_600).unwrap(), "2024-05-01");
    assert_eq!(entry_day_at(None, 1_714_521_599).unwrap(), "2024-04-30");
    assert_eq!(entry_day_at(None, 951_782_400).unwrap(), "2000-02-29");
    match entry_day_at(None, u64::MAX) {
        Err(error) => {
            assert!(matches!(error, EntryError::NoDay));
            assert_eq!(error.message(), "The clock gives no day for the entry");
        }
        Ok(_) => panic!("no calendar reaches that far"),
    }
    assert_eq!(entry_day(Some(String::from("any"))).unwrap(), "any");
    let today = entry_day(None).unwrap();
    assert_eq!(today.len(), 10);
    assert!(today.as_str() >= "2024-01-01");
}

#[test]
fn entry_replaces_only_itself_in_the_store() {
    let entry = DiaryEntry {
        id: String::from("one"),
        content: String::from("c"),
        weather: String::from("w"),
        created_at: 1,
        nostr_id: None,
        day: String::from("2024-05-01"),
    };
    assert!(save_entry_to_db(&entry, &None).is_ok());
    assert!(save_entry_to_db(&entry, &Some(String::from("one"))).is_ok());
    match save_entry_to_db(&entry, &Some(String::from("two"))) {
        Err(EntryError::DayConflict(day)) => assert_eq!(day, "2024-05-01"),
        _ => panic!("another entry holds the day"),
    }
}

#[test]
fn store_answers_are_passed_on_with_their_words() {
    assert_eq!(get_diary_event(Ok(String::from("{}"))), Ok(String::from("{}")));
    assert_eq!(
        get_diary_event(Err(String::from("Query returned no rows"))),
        Err(String::from("Failed to get Nostr event: Query returned no rows"))
    );
    assert_eq!(check_day_has_entry(Ok(true)), Ok(true));
    assert_eq!(check_day_has_entry(Ok(false)), Ok(false));
    assert_eq!(
        check_day_has_entry(Err(String::from("locked"))),
        Err(String::from("Failed to check if day has entry: locked"))
    );
    assert_eq!(get_nostr_event("id", Ok(Some(String::from("json")))).unwrap(), "json");
    match get_nostr_event("id", Ok(None)) {
        Err(EntryError::EventNotFound(id)) => assert_eq!(id, "id"),
        _ => panic!("nothing was found"),
    }
    match get_diary_entries(Err(String::from("locked"))) {
        Err(error) => assert_eq!(error.message(), "Failed to load entries from database: locked"),
        Ok(_) => panic!("the store failed"),
    }
    assert!(get_diary_entries(Ok(vec![])).unwrap().is_empty());
}

#[test]
fn stored_entry_is_wrapped_for_the_recipient() {
    let sender = KeyPair::generate();
    let recipient = KeyPair::generate();
    let (id, json) = create_nostr_event(&sender, "Dear diary", "sunny", "2024-05-01", 1_714_521_600).unwrap();
    let response: GiftWrapResponse =
        gift_wrap_diary(&json, &sender, &request(&id, recipient.public_id().as_str())).unwrap();
    let envelope = SealedEnvelope::from_wire(&response.gift_wrap_event).unwrap();
    assert_eq!(envelope.event().id, response.gift_wrap_id);
    assert_eq!(envelope.event().kind, 1059);
    assert_ne!(envelope.event().pubkey, sender.public_id().as_str());

    let opened: UnwrappedGiftResponse = open_received(&response.gift_wrap_event, &recipient).unwrap();
    assert_eq!(opened.sender_pubkey, sender.public_id().as_str());
    assert!(opened.gift_wrap_event.contains("\"content\":\"Dear diary\""));
    assert!(opened.gift_wrap_event.contains("\"created_at\":1714521600"));
    assert!(opened.gift_wrap_event.contains("\"kind\":30027"));
    assert!(opened.gift_wrap_event.contains("[\"weather\",\"sunny\"]"));
    assert!(matches!(
        open_received(&response.gift_wrap_event, &sender),
        Err(UnwrapError::Undecryptable)
    ));
    assert!(matches!(open_received("junk", &recipient), Err(UnwrapError::NotAnEnvelope)));
}

#[test]
fn recipient_is_judged_before_the_entry() {
    let sender = KeyPair::generate();
    let recipient = KeyPair::generate();
    assert!(matches!(
        gift_wrap_diary("not an event", &sender, &request("x", "not a key")),
        Err(ShareError::InvalidRecipient)
    ));
    match gift_wrap_diary("not an event", &sender, &request("x", recipient.public_id().as_str())) {
        Err(error) => {
            assert!(matches!(error, ShareError::Wrap(WrapError::UnreadableEntry)));
            assert_eq!(error.message(), "Failed to parse Nostr event");
        }
        Ok(_) => panic!("the entry cannot be read"),
    }
    assert_eq!(ShareError::InvalidRecipient.message(), "Invalid recipient public key");
    assert_eq!(
        UnwrapError::AuthorMismatch.describe(),
        "Rumor author differs from the seal signer"
    );
}

#[test]
fn entry_under_another_identifier_is_not_wrapped() {
    let sender = KeyPair::generate();
    let recipient = KeyPair::generate();
    let (id, json) = create_nostr_event(&sender, "Dear diary", "sunny", "2024-05-01", 5).unwrap();
    let to = recipient.public_id().to_hex();
    match gift_wrap_diary(&json, &sender, &request(&"0".repeat(64), &to)) {
        Err(error) => {
            assert!(matches!(error, ShareError::Wrap(WrapError::WrongEntry)));
            assert_eq!(error.message(), "Stored event is not the entry asked for");
        }
        Ok(_) => panic!("another entry was asked for"),
    }
    assert!(gift_wrap_diary(&json, &sender, &request(&id.to_uppercase(), &to)).is_err());
    assert!(gift_wrap_diary(&json, &sender, &request(&id, &to)).is_ok());
}

#[test]
fn record_of_a_stored_event_is_its_content_tags_and_time() {
    let event = |kind: u16, tags: Vec<Vec<String>>| SignedEvent {
        id: "1".repeat(64),
        pubkey: "a".repeat(64),
        created_at: 1_714_521_600,
        kind,
        tags,
        content: String::from("Dear diary"),
        sig: "0".repeat(128),
    };
    let tags = vec![
        vec![String::from("d"), String::from("2024-05-01")],
        vec![String::from("weather"), String::from("sunny")],
    ];
    let record = record_of_stored(event(30027, tags.clone()), &"1".repeat(64)).unwrap();
    assert_eq!(record.content, "Dear diary");
    assert_eq!(record.created_at, 1_714_521_600);
    assert_eq!(
        record.tags,
        vec![
            (String::from("d"), String::from("2024-05-01")),
            (String::from("weather"), String::from("sunny"))
        ]
    );
    assert_eq!(
        record_of_stored(event(30027, tags.clone()), &"2".repeat(64)).err(),
        Some(WrapError::WrongEntry)
    );
    assert_eq!(
        record_of_stored(event(1, tags.clone()), &"1".repeat(64)).err(),
        Some(WrapError::UnreadableEntry)
    );
    assert_eq!(
        record_of_stored(event(30027, vec![vec![String::from("d")]]), &"1".repeat(64)).err(),
        Some(WrapError::UnreadableEntry)
    );
    assert_eq!(
        record_of_stored(event(1, tags), &"2".repeat(64)).err(),
        Some(WrapError::WrongEntry)
    );
}

#[test]
fn wrapped_entry_verifies() {
    let sender = KeyPair::generate();
    let recipient = KeyPair::generate();
    let (id, json) = create_nostr_event(&sender, "Dear diary", "sunny", "2024-05-01", 5).unwrap();
    let response =
        gift_wrap_diary(&json, &sender, &request(&id, &recipient.public_id().to_hex().to_uppercase()))
            .unwrap();
    assert!(matches!(
        verify_nostr_signature(&response.gift_wrap_id, Ok(Some(response.gift_wrap_event.clone()))),
        Ok(true)
    ));
    let envelope = SealedEnvelope::from_wire(&response.gift_wrap_event).unwrap();
    assert_eq!(
        envelope.event().tags,
        vec![vec![String::from("p"), recipient.public_id().to_hex()]]
    );
    let tampered = response.gift_wrap_event.replace(&envelope.event().sig, &"0".repeat(128));
    assert!(verify_nostr_signature(&response.gift_wrap_id, Ok(Some(tampered))).is_err());
}

#[test]
fn envelope_is_not_an_entry_to_wrap() {
    let sender = KeyPair::generate();
    let recipient = KeyPair::generate();
    let (id, json) = create_nostr_event(&sender, "Dear diary", "sunny", "2024-05-01", 5).unwrap();
    let to = recipient.public_id().to_hex();
    let first = gift_wrap_diary(&json, &sender, &request(&id, &to)).unwrap();
    assert!(matches!(
        gift_wrap_diary(&first.gift_wrap_event, &sender, &request(&first.gift_wrap_id, &to)),
        Err(ShareError::Wrap(WrapError::UnreadableEntry))
    ));
}
