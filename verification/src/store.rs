//! The entries of the diary: making the signed event of a new entry, and what is made
//! of the entry store's answers.

use vstd::prelude::*;
use nostr_sdk::EventBuilder;
use nostr_sdk::JsonUtil;
use nostr_sdk::Keys;
use nostr_sdk::SecretKey;
use nostr_sdk::Tags;
use crate::codec::clock_seconds;
use crate::keys::KeyPair;
use crate::record::rumor_of_event;
use crate::record::rumor_of_record;
use crate::record::DiaryRecord;
use crate::record::DiaryRecordView;
use crate::record::Rumor;
use crate::record::RumorView;
use crate::wire::event_fault;
use crate::wire::event_of_json;
use crate::wire::read_event;
use crate::wire::verify_event;
use crate::wire::EventFault;

verus! {

/// An entry of the diary, one for a day.
#[derive(Debug)]
pub struct DiaryEntry {
    pub id: String,
    pub content: String,
    pub weather: String,
    /// When the entry was written, in seconds since 1970.
    pub created_at: u64,
    /// Identifier of the entry's signed event.
    pub nostr_id: Option<String>,
    /// The day of the entry, as year, month and day.
    pub day: String,
}

/// What the operations on entries report when they fail.
#[derive(Debug)]
pub enum EntryError {
    /// The day has an entry already.
    DayTaken(String),
    /// The store could not tell whether the day has an entry.
    DayCheckFailed(String),
    /// The store could not list the entries.
    LoadFailed(String),
    /// The store could not look the event up.
    LookupFailed(String),
    /// The store holds no event under this identifier.
    EventNotFound(String),
    /// The stored event does not stand up to verification.
    EventRejected(EventFault),
    /// No signed event could be made of the entry.
    SigningFailed,
    /// The event that was signed is not the event of the entry, or does not verify.
    EventMismatch,
    /// Another entry stands in the store for the day.
    DayConflict(String),
    /// The clock stands at an instant that has no day in the calendar.
    NoDay,
}

/// The mathematical value of an `EntryError`.
pub enum EntryErrorView {
    DayTaken(Seq<char>),
    DayCheckFailed(Seq<char>),
    LoadFailed(Seq<char>),
    LookupFailed(Seq<char>),
    EventNotFound(Seq<char>),
    EventRejected(EventFault),
    SigningFailed,
    EventMismatch,
    DayConflict(Seq<char>),
    NoDay,
}

impl View for EntryError {
    type V = EntryErrorView;

    open spec fn view(&self) -> EntryErrorView {
        match *self {
            EntryError::DayTaken(day) => EntryErrorView::DayTaken(day@),
            EntryError::DayCheckFailed(cause) => EntryErrorView::DayCheckFailed(cause@),
            EntryError::LoadFailed(cause) => EntryErrorView::LoadFailed(cause@),
            EntryError::LookupFailed(cause) => EntryErrorView::LookupFailed(cause@),
            EntryError::EventNotFound(id) => EntryErrorView::EventNotFound(id@),
            EntryError::EventRejected(fault) => EntryErrorView::EventRejected(fault),
            EntryError::SigningFailed => EntryErrorView::SigningFailed,
            EntryError::EventMismatch => EntryErrorView::EventMismatch,
            EntryError::DayConflict(day) => EntryErrorView::DayConflict(day@),
            EntryError::NoDay => EntryErrorView::NoDay,
        }
    }
}

impl EntryError {
    /// The message of the error.
    pub open spec fn spec_message(self) -> Seq<char> {
        match self {
            EntryError::DayTaken(day) => "An entry already exists for day: "@ + day@,
            EntryError::DayCheckFailed(cause) => "Failed to check if entry exists: "@ + cause@,
            EntryError::LoadFailed(cause) => "Failed to load entries from database: "@ + cause@,
            EntryError::LookupFailed(cause) => "Failed to get Nostr event: "@ + cause@,
            EntryError::EventNotFound(id) => "Nostr event with ID "@ + id@ + " not found"@,
            EntryError::EventRejected(EventFault::Unreadable) => "Failed to parse Nostr event"@,
            EntryError::EventRejected(EventFault::InvalidId) => "Error verifying signature: Invalid event ID"@,
            EntryError::EventRejected(EventFault::InvalidSignature) => "Error verifying signature: Invalid signature"@,
            EntryError::SigningFailed => "Failed to create Nostr event"@,
            EntryError::EventMismatch => "Failed to create Nostr event: the signed event is not the entry"@,
            EntryError::DayConflict(day) => "An entry already exists for day: "@ + day@,
            EntryError::NoDay => "The clock gives no day for the entry"@,
        }
    }

    /// The message of the error.
    pub fn message(&self) -> (text: String)
        ensures
            text@ == self.spec_message(),
    {
        match self {
            EntryError::DayTaken(day) => String::from_str("An entry already exists for day: ").concat(
                day.as_str(),
            ),
            EntryError::DayCheckFailed(cause) => String::from_str(
                "Failed to check if entry exists: ",
            ).concat(cause.as_str()),
            EntryError::LoadFailed(cause) => String::from_str(
                "Failed to load entries from database: ",
            ).concat(cause.as_str()),
            EntryError::LookupFailed(cause) => String::from_str("Failed to get Nostr event: ").concat(
                cause.as_str(),
            ),
            EntryError::EventNotFound(id) => String::from_str("Nostr event with ID ").concat(
                id.as_str(),
            ).concat(" not found"),
            EntryError::EventRejected(EventFault::Unreadable) => String::from_str(
                "Failed to parse Nostr event",
            ),
            EntryError::EventRejected(EventFault::InvalidId) => String::from_str(
                "Error verifying signature: Invalid event ID",
            ),
            EntryError::EventRejected(EventFault::InvalidSignature) => String::from_str(
                "Error verifying signature: Invalid signature",
            ),
            EntryError::SigningFailed => String::from_str("Failed to create Nostr event"),
            EntryError::EventMismatch => String::from_str(
                "Failed to create Nostr event: the signed event is not the entry",
            ),
            EntryError::DayConflict(day) => String::from_str(
                "An entry already exists for day: ",
            ).concat(day.as_str()),
            EntryError::NoDay => String::from_str("The clock gives no day for the entry"),
        }
    }
}

/// The record of an entry: its text, with the day and the weather as its tags.
pub open spec fn entry_record(
    content: Seq<char>,
    weather: Seq<char>,
    day: Seq<char>,
    now: u64,
) -> DiaryRecordView {
    DiaryRecordView { content, tags: seq![("d"@, day), ("weather"@, weather)], created_at: now }
}

/// Calls `nostr_sdk::EventBuilder::sign_with_keys` on a builder with the rumor's
/// kind, content, tags and time, and gives the JSON text of the signed event; `None`
/// where the call, or making one of its arguments, fails. The signature is made with
/// fresh randomness, so nothing is claimed of the text.
#[verifier::external_body]
pub(crate) fn sign_rumor(rumor: &Rumor, keys: &KeyPair) -> (r: Option<String>) {
    let signer = Keys::new(SecretKey::from_slice(&keys.secret).ok()?);
    let tags = Tags::parse(rumor.tags.clone()).ok()?;
    let builder = EventBuilder::new(rumor.kind.into(), rumor.content.clone()).tags(tags);
    builder.custom_created_at(rumor.created_at.into()).sign_with_keys(&signer).ok()?.try_as_json().ok()
}

/// Whether a text is a signed event with this identifier whose unsigned copy is
/// `rumor`, and whose identifier and signature verify.
pub open spec fn is_signed_form(json: Seq<char>, id: Seq<char>, rumor: RumorView) -> bool {
    match event_of_json(json) {
        Some(event) => event.id == id && rumor_of_event(event) == rumor && event_fault(
            json,
        ).is_none(),
        None => false,
    }
}

/// Takes the text that was made as the signed event of `rumor`, and lets it pass only
/// where it is one. Gives the event's identifier with the text.
pub fn accept_signed(json: String, rumor: &Rumor) -> (r: Result<(String, String), EntryError>)
    ensures
        match r {
            Ok((id, text)) => text@ == json@ && is_signed_form(json@, id@, rumor@),
            Err(e) => e@ == EntryErrorView::EventMismatch && forall|id: Seq<char>|
                !is_signed_form(json@, id, rumor@),
        },
{
    match read_event(json.as_str()) {
        None => Err(EntryError::EventMismatch),
        Some(event) => {
            let id = event.id.clone();
            if event.into_rumor().same_as(rumor) && verify_event(json.as_str()).is_none() {
                Ok((id, json))
            } else {
                Err(EntryError::EventMismatch)
            }
        },
    }
}

/// Makes the signed event of an entry written at `now`: a diary entry by the owner of
/// `keys`, tagged with the day and the weather. Gives the event's identifier and its
/// JSON text. An event is handed out only where it is the event of the entry and its
/// identifier and signature verify.
pub fn create_nostr_event(keys: &KeyPair, content: &str, weather: &str, day: &str, now: u64) -> (r:
    Result<(String, String), EntryError>)
    ensures
        match r {
            Ok((id, json)) => is_signed_form(
                json@,
                id@,
                rumor_of_record(entry_record(content@, weather@, day@, now), keys.public_hex()),
            ),
            Err(e) => e@ == EntryErrorView::SigningFailed || e@ == EntryErrorView::EventMismatch,
        },
{
    let mut tags: Vec<(String, String)> = Vec::new();
    tags.push((String::from_str("d"), String::from_str(day)));
    tags.push((String::from_str("weather"), String::from_str(weather)));
    let record = DiaryRecord { content: String::from_str(content), tags, created_at: now };
    proof {
        assert(record@.tags =~= seq![("d"@, day@), ("weather"@, weather@)]);
    }
    let rumor = record.to_rumor(keys.public_id().as_str());
    match sign_rumor(&rumor, keys) {
        None => Err(EntryError::SigningFailed),
        Some(json) => accept_signed(json, &rumor),
    }
}

/// The day of an instant, given in seconds since 1970, as year, month and day: what
/// `chrono::DateTime::from_timestamp` and its `format` with `%Y-%m-%d` write for it.
/// `None` where the instant lies beyond the years that the calendar counts.
pub uninterp spec fn day_of_instant(seconds: u64) -> Option<Seq<char>>;

/// Calls `chrono::DateTime::from_timestamp` and, on the date and time that it gives,
/// `format` with `%Y-%m-%d`. The result is `day_of_instant` of the seconds.
#[verifier::external_body]
pub(crate) fn day_text(seconds: u64) -> (r: Option<String>)
    ensures
        match r {
            Some(day) => day_of_instant(seconds) == Some(day@),
            None => day_of_instant(seconds).is_none(),
        },
{
    let instant = chrono::DateTime::from_timestamp(i64::try_from(seconds).ok()?, 0)?;
    Some(instant.format("%Y-%m-%d").to_string())
}

/// Calls `uuid::Uuid::new_v4`, which draws an identifier by chance, and gives its
/// text.
#[verifier::external_body]
pub(crate) fn fresh_entry_id() -> (id: String) {
    uuid::Uuid::new_v4().to_string()
}

/// The day of an entry: the day that was asked for, or the day of `now` where none
/// was.
pub open spec fn settled_day(day: Option<String>, now: u64) -> Result<
    Seq<char>,
    EntryErrorView,
> {
    match day {
        Some(text) => Ok(text@),
        None => match day_of_instant(now) {
            Some(text) => Ok(text),
            None => Err(EntryErrorView::NoDay),
        },
    }
}

/// Settles the day of an entry written at `now`: the day that was asked for, or the
/// day of `now` where none was.
pub fn entry_day_at(day: Option<String>, now: u64) -> (r: Result<String, EntryError>)
    ensures
        match r {
            Ok(text) => settled_day(day, now) == Ok::<Seq<char>, EntryErrorView>(text@),
            Err(e) => settled_day(day, now) == Err::<Seq<char>, EntryErrorView>(e@),
        },
{
    match day {
        Some(text) => Ok(text),
        None => match day_text(now) {
            Some(text) => Ok(text),
            None => Err(EntryError::NoDay),
        },
    }
}

/// Settles the day of an entry that is written now: the day that was asked for, or
/// today by the system clock where none was.
pub fn entry_day(day: Option<String>) -> (r: Result<String, EntryError>)
    ensures
        match day {
            Some(text) => r matches Ok(settled) && settled@ == text@,
            None => match r {
                Ok(settled) => exists|now: u64| day_of_instant(now) == Some(settled@),
                Err(e) => e@ == EntryErrorView::NoDay,
            },
        },
{
    entry_day_at(day, clock_seconds())
}

/// What saving an entry comes to before the event is signed: nothing where the day is
/// free, the refusal where it is taken or cannot be checked.
pub open spec fn day_verdict(day_taken: Result<bool, Seq<char>>, day: Seq<char>) -> Option<
    EntryErrorView,
> {
    match day_taken {
        Err(cause) => Some(EntryErrorView::DayCheckFailed(cause)),
        Ok(true) => Some(EntryErrorView::DayTaken(day)),
        Ok(false) => None,
    }
}

/// The store's answer with its words as a sequence of characters.
pub open spec fn answer_view<T>(answer: Result<T, String>) -> Result<T, Seq<char>> {
    match answer {
        Ok(value) => Ok(value),
        Err(cause) => Err(cause@),
    }
}

/// Whether `saved` is the entry of these values together with its signed event.
pub open spec fn is_saved_entry(
    saved: (DiaryEntry, String),
    keys: KeyPair,
    id: Seq<char>,
    content: Seq<char>,
    weather: Seq<char>,
    day: Seq<char>,
    now: u64,
) -> bool {
    &&& saved.0.id@ == id
    &&& saved.0.content@ == content
    &&& saved.0.weather@ == weather
    &&& saved.0.day@ == day
    &&& saved.0.created_at == now
    &&& saved.0.nostr_id matches Some(event_id)
    &&& is_signed_form(
        saved.1@,
        event_id@,
        rumor_of_record(entry_record(content, weather, day, now), keys.public_hex()),
    )
}

/// Makes the entry `id` for a day, written at `now`, with its signed event.
/// `day_taken` is the store's answer on whether the day has an entry already.
///
/// A day that is taken, or that the store cannot answer for, is refused before
/// anything is signed.
pub fn compose_entry(
    day_taken: Result<bool, String>,
    keys: &KeyPair,
    id: String,
    content: String,
    weather: String,
    day: String,
    now: u64,
) -> (r: Result<(DiaryEntry, String), EntryError>)
    ensures
        match day_verdict(answer_view(day_taken), day@) {
            Some(refusal) => r matches Err(e) && e@ == refusal,
            None => match r {
                Ok(saved) => is_saved_entry(saved, *keys, id@, content@, weather@, day@, now),
                Err(e) => e@ == EntryErrorView::SigningFailed || e@ == EntryErrorView::EventMismatch,
            },
        },
{
    match day_taken {
        Err(cause) => {
            return Err(EntryError::DayCheckFailed(cause));
        },
        Ok(true) => {
            return Err(EntryError::DayTaken(day));
        },
        Ok(false) => {},
    }
    let (event_id, event_json) = create_nostr_event(
        keys,
        content.as_str(),
        weather.as_str(),
        day.as_str(),
        now,
    )?;
    Ok((DiaryEntry { id, content, weather, created_at: now, nostr_id: Some(event_id), day }, event_json))
}

/// Makes a new entry for a day, with its signed event. `day_taken` is the store's
/// answer on whether the day has an entry already. The entry gets an identifier drawn
/// by chance and the time of the system clock.
///
/// A day that is taken, or that the store cannot answer for, is refused before
/// anything is signed.
pub fn save_diary_entry(
    day_taken: Result<bool, String>,
    keys: &KeyPair,
    content: String,
    weather: String,
    day: String,
) -> (r: Result<(DiaryEntry, String), EntryError>)
    ensures
        match day_verdict(answer_view(day_taken), day@) {
            Some(refusal) => r matches Err(e) && e@ == refusal,
            None => match r {
                Ok(saved) => is_saved_entry(
                    saved,
                    *keys,
                    saved.0.id@,
                    content@,
                    weather@,
                    day@,
                    saved.0.created_at,
                ),
                Err(e) => e@ == EntryErrorView::SigningFailed || e@ == EntryErrorView::EventMismatch,
            },
        },
{
    compose_entry(day_taken, keys, fresh_entry_id(), content, weather, day, clock_seconds())
}

/// Tells whether an entry may be written to the store: the day is free, or holds this
/// very entry. `existing_id` is the identifier of the entry that the store holds for
/// the day.
pub fn save_entry_to_db(entry: &DiaryEntry, existing_id: &Option<String>) -> (r: Result<
    (),
    EntryError,
>)
    ensures
        match *existing_id {
            Some(other) => if other@ == entry.id@ {
                r.is_ok()
            } else {
                r matches Err(e) && e@ == EntryErrorView::DayConflict(entry.day@)
            },
            None => r.is_ok(),
        },
{
    match existing_id {
        Some(other) => if *other == entry.id {
            Ok(())
        } else {
            Err(EntryError::DayConflict(entry.day.clone()))
        },
        None => Ok(()),
    }
}

/// Takes the store's answer on whether a day has an entry.
pub fn check_day_has_entry(found: Result<bool, String>) -> (r: Result<bool, String>)
    ensures
        match found {
            Ok(taken) => r == Ok::<bool, String>(taken),
            Err(cause) => r matches Err(text) && text@ == "Failed to check if day has entry: "@
                + cause@,
        },
{
    match found {
        Ok(taken) => Ok(taken),
        Err(cause) => Err(
            String::from_str("Failed to check if day has entry: ").concat(cause.as_str()),
        ),
    }
}

/// Takes the store's answer to listing the entries.
pub fn get_diary_entries(loaded: Result<Vec<DiaryEntry>, String>) -> (r: Result<
    Vec<DiaryEntry>,
    EntryError,
>)
    ensures
        match loaded {
            Ok(entries) => r matches Ok(listed) && listed == entries,
            Err(cause) => r matches Err(e) && e@ == EntryErrorView::LoadFailed(cause@),
        },
{
    match loaded {
        Ok(entries) => Ok(entries),
        Err(cause) => Err(EntryError::LoadFailed(cause)),
    }
}

/// What the lookup of an event under `nostr_id` comes to.
pub open spec fn event_lookup(nostr_id: Seq<char>, found: Result<Option<String>, Seq<char>>) -> Result<
    Seq<char>,
    EntryErrorView,
> {
    match found {
        Ok(Some(json)) => Ok(json@),
        Ok(None) => Err(EntryErrorView::EventNotFound(nostr_id)),
        Err(cause) => Err(EntryErrorView::LookupFailed(cause)),
    }
}

/// Takes the store's answer to the lookup of an event by its identifier.
pub fn get_nostr_event(nostr_id: &str, found: Result<Option<String>, String>) -> (r: Result<
    String,
    EntryError,
>)
    ensures
        match r {
            Ok(json) => event_lookup(nostr_id@, answer_view(found)) == Ok::<
                Seq<char>,
                EntryErrorView,
            >(json@),
            Err(e) => event_lookup(nostr_id@, answer_view(found)) == Err::<
                Seq<char>,
                EntryErrorView,
            >(e@),
        },
{
    match found {
        Ok(Some(json)) => Ok(json),
        Ok(None) => Err(EntryError::EventNotFound(String::from_str(nostr_id))),
        Err(cause) => Err(EntryError::LookupFailed(cause)),
    }
}

/// What verifying the event under `nostr_id` comes to.
pub open spec fn verification(nostr_id: Seq<char>, found: Result<Option<String>, Seq<char>>) -> Result<
    bool,
    EntryErrorView,
> {
    match event_lookup(nostr_id, found) {
        Err(e) => Err(e),
        Ok(json) => match event_fault(json) {
            None => Ok(true),
            Some(fault) => Err(EntryErrorView::EventRejected(fault)),
        },
    }
}

/// Verifies identifier and signature of a stored event. `found` is the store's answer
/// to the lookup of the event. The answer is `true` or a failure, never `false`.
pub fn verify_nostr_signature(nostr_id: &str, found: Result<Option<String>, String>) -> (r: Result<
    bool,
    EntryError,
>)
    ensures
        match r {
            Ok(valid) => verification(nostr_id@, answer_view(found)) == Ok::<bool, EntryErrorView>(
                valid,
            ),
            Err(e) => verification(nostr_id@, answer_view(found)) == Err::<bool, EntryErrorView>(e@),
        },
{
    let json = get_nostr_event(nostr_id, found)?;
    match verify_event(json.as_str()) {
        None => Ok(true),
        Some(fault) => Err(EntryError::EventRejected(fault)),
    }
}

} // verus!
