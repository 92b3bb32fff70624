//! Signed events in the shape in which relays carry them, and their reading from JSON.

use vstd::prelude::*;
use crate::public_id::is_lower_hex_of_len;

verus! {

/// `str`'s equality: two texts are equal when they hold the same characters in the same
/// order, as the standard library documents it.
pub assume_specification[ <str as PartialEq>::eq ](a: &str, b: &str) -> (r: bool)
    ensures
        r == (a@ == b@),
;

/// One tag as a sequence of texts.
pub open spec fn tag_view(tag: Vec<String>) -> Seq<Seq<char>> {
    Seq::new(tag@.len(), |i: int| tag@[i]@)
}

/// A tag list as a sequence of tags.
pub open spec fn tags_view(tags: Vec<Vec<String>>) -> Seq<Seq<Seq<char>>> {
    Seq::new(tags@.len(), |i: int| tag_view(tags@[i]))
}

/// A list of texts as a sequence of texts.
pub open spec fn names_view(names: Vec<String>) -> Seq<Seq<char>> {
    Seq::new(names@.len(), |i: int| names@[i]@)
}

/// A signed event: identifier, signer, declared time, kind, tags, content and signature.
#[derive(Debug)]
pub struct SignedEvent {
    pub id: String,
    pub pubkey: String,
    pub created_at: u64,
    pub kind: u16,
    pub tags: Vec<Vec<String>>,
    pub content: String,
    pub sig: String,
}

/// The mathematical value of a `SignedEvent`.
pub struct SignedEventView {
    pub id: Seq<char>,
    pub pubkey: Seq<char>,
    pub created_at: u64,
    pub kind: u16,
    pub tags: Seq<Seq<Seq<char>>>,
    pub content: Seq<char>,
    pub sig: Seq<char>,
}

impl View for SignedEvent {
    type V = SignedEventView;

    open spec fn view(&self) -> SignedEventView {
        SignedEventView {
            id: self.id@,
            pubkey: self.pubkey@,
            created_at: self.created_at,
            kind: self.kind,
            tags: tags_view(self.tags),
            content: self.content@,
            sig: self.sig@,
        }
    }
}

/// The event that a JSON text denotes, or `None` where it denotes none: what
/// `nostr_sdk::Event::from_json` makes of the text.
pub uninterp spec fn event_of_json(json: Seq<char>) -> Option<SignedEventView>;

/// Calls `nostr_sdk::Event::from_json` and copies the fields of the event out, identifier,
/// signer and signature in the hexadecimal form that `to_hex` and `to_string` give them.
/// The result is `event_of_json` of the text; identifier and signer of an event that was
/// read are 32 bytes each, written as 64 lower-case digits.
#[verifier::external_body]
pub(crate) fn read_event(json: &str) -> (r: Option<SignedEvent>)
    ensures
        match r {
            Some(event) => event_of_json(json@) == Some(event@),
            None => event_of_json(json@).is_none(),
        },
        r matches Some(event) ==> is_lower_hex_of_len(event.id@, 64) && is_lower_hex_of_len(
            event.pubkey@,
            64,
        ),
{
    match <nostr_sdk::Event as nostr_sdk::JsonUtil>::from_json(json) {
        Ok(event) => Some(
            SignedEvent {
                id: event.id.to_hex(),
                pubkey: event.pubkey.to_hex(),
                created_at: event.created_at.as_u64(),
                kind: event.kind.as_u16(),
                tags: event.tags.iter().map(|tag| tag.as_slice().to_vec()).collect(),
                content: event.content.clone(),
                sig: event.sig.to_string(),
            },
        ),
        Err(_) => None,
    }
}

/// What is wrong with a signed event.
#[derive(Clone, Copy, Debug, PartialEq, Eq, Structural)]
pub enum EventFault {
    /// The text is not a signed event.
    Unreadable,
    /// The identifier is not the hash of the event's fields.
    InvalidId,
    /// The signature is not the signer's signature of the identifier.
    InvalidSignature,
}

/// What verifying a text as a signed event gives: nothing where identifier and
/// signature are right, else what is wrong. It is what `nostr_sdk::Event::verify`
/// says of the event that the text denotes.
pub uninterp spec fn event_fault(json: Seq<char>) -> Option<EventFault>;

/// Calls `nostr_sdk::Event::verify` on the event that the text denotes. The result is
/// `event_fault` of the text.
#[verifier::external_body]
pub(crate) fn verify_event(json: &str) -> (r: Option<EventFault>)
    ensures
        r == event_fault(json@),
{
    match <nostr_sdk::Event as nostr_sdk::JsonUtil>::from_json(json) {
        Err(_) => Some(EventFault::Unreadable),
        Ok(event) => match event.verify() {
            Ok(()) => None,
            Err(nostr_sdk::event::Error::InvalidId) => Some(EventFault::InvalidId),
            Err(_) => Some(EventFault::InvalidSignature),
        },
    }
}

/// The value of the first tag that is named `name`: its second text. `None` where no
/// tag is so named, or where that tag has no second text.
pub open spec fn first_tag_value(tags: Seq<Seq<Seq<char>>>, name: Seq<char>) -> Option<Seq<char>>
    decreases tags.len(),
{
    if tags.len() == 0 {
        None
    } else if tags[0].len() >= 1 && tags[0][0] == name {
        if tags[0].len() >= 2 {
            Some(tags[0][1])
        } else {
            None
        }
    } else {
        first_tag_value(tags.drop_first(), name)
    }
}

/// Looks up the value of a tag by its name: the second text of the first tag whose
/// first text is `name`, or `None` where no tag is so named or that tag has no value.
pub fn get_tag_value(event: &SignedEvent, name: &str) -> (r: Option<String>)
    ensures
        match r {
            Some(value) => first_tag_value(event@.tags, name@) == Some(value@),
            None => first_tag_value(event@.tags, name@).is_none(),
        },
{
    let mut i: usize = 0;
    proof {
        assert(event@.tags.skip(0) =~= event@.tags);
    }
    while i < event.tags.len()
        invariant
            i <= event.tags.len(),
            first_tag_value(event@.tags, name@) == first_tag_value(
                event@.tags.skip(i as int),
                name@,
            ),
        decreases event.tags.len() - i,
    {
        let tag = &event.tags[i];
        proof {
            let rest = event@.tags.skip(i as int);
            assert(rest[0] == tag_view(*tag));
            assert(rest.drop_first() =~= event@.tags.skip(i as int + 1));
            if tag.len() >= 1 {
                assert(tag_view(*tag)[0] == tag@[0]@);
            }
            if tag.len() >= 2 {
                assert(tag_view(*tag)[1] == tag@[1]@);
            }
        }
        if tag.len() >= 1 && tag[0].as_str().eq(name) {
            if tag.len() >= 2 {
                return Some(tag[1].clone());
            } else {
                return None;
            }
        }
        i = i + 1;
    }
    proof {
        assert(event@.tags.skip(i as int).len() == 0);
    }
    None
}

/// Whether two tags hold the same texts in the same order.
pub fn same_tag(a: &Vec<String>, b: &Vec<String>) -> (r: bool)
    ensures
        r == (tag_view(*a) == tag_view(*b)),
{
    if a.len() != b.len() {
        proof {
            assert(tag_view(*a).len() != tag_view(*b).len());
        }
        return false;
    }
    let mut i: usize = 0;
    while i < a.len()
        invariant
            i <= a.len(),
            a.len() == b.len(),
            forall|k: int| 0 <= k < i ==> a@[k]@ == b@[k]@,
        decreases a.len() - i,
    {
        if a[i] != b[i] {
            proof {
                assert(tag_view(*a)[i as int] == a@[i as int]@);
                assert(tag_view(*b)[i as int] == b@[i as int]@);
            }
            return false;
        }
        i = i + 1;
    }
    proof {
        assert(tag_view(*a) =~= tag_view(*b));
    }
    true
}

/// Whether two tag lists hold the same tags in the same order.
pub fn same_tags(a: &Vec<Vec<String>>, b: &Vec<Vec<String>>) -> (r: bool)
    ensures
        r == (tags_view(*a) == tags_view(*b)),
{
    if a.len() != b.len() {
        proof {
            assert(tags_view(*a).len() != tags_view(*b).len());
        }
        return false;
    }
    let mut i: usize = 0;
    while i < a.len()
        invariant
            i <= a.len(),
            a.len() == b.len(),
            forall|k: int| 0 <= k < i ==> tag_view(a@[k]) == tag_view(b@[k]),
        decreases a.len() - i,
    {
        if !same_tag(&a[i], &b[i]) {
            proof {
                assert(tags_view(*a)[i as int] == tag_view(a@[i as int]));
                assert(tags_view(*b)[i as int] == tag_view(b@[i as int]));
            }
            return false;
        }
        i = i + 1;
    }
    proof {
        assert(tags_view(*a) =~= tags_view(*b));
    }
    true
}

} // verus!
