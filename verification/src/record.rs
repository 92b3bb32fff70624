//! The diary record that is shared, and the rumor: its unsigned copy inside an envelope.

use vstd::prelude::*;
use crate::public_id::is_lower_hex_of_len;
use crate::wire::same_tags;
use crate::wire::tag_view;
use crate::wire::tags_view;
use crate::wire::SignedEvent;
use crate::wire::SignedEventView;

verus! {

/// Kind of the events that hold a diary entry.
pub const DIARY_ENTRY_KIND: u16 = 30027;

/// A diary entry as it is shared: its text, its tags in order, and when it was written.
#[derive(Debug)]
pub struct DiaryRecord {
    pub content: String,
    pub tags: Vec<(String, String)>,
    pub created_at: u64,
}

/// The mathematical value of a `DiaryRecord`.
pub struct DiaryRecordView {
    pub content: Seq<char>,
    pub tags: Seq<(Seq<char>, Seq<char>)>,
    pub created_at: u64,
}

/// Key and value pairs as a sequence of pairs of texts.
pub open spec fn pairs_view(pairs: Vec<(String, String)>) -> Seq<(Seq<char>, Seq<char>)> {
    Seq::new(pairs@.len(), |i: int| (pairs@[i].0@, pairs@[i].1@))
}

impl View for DiaryRecord {
    type V = DiaryRecordView;

    open spec fn view(&self) -> DiaryRecordView {
        DiaryRecordView {
            content: self.content@,
            tags: pairs_view(self.tags),
            created_at: self.created_at,
        }
    }
}

/// The unsigned copy of a record, with the author and the time that it declares.
#[derive(Debug)]
pub struct Rumor {
    pub author: String,
    pub created_at: u64,
    pub kind: u16,
    pub tags: Vec<Vec<String>>,
    pub content: String,
}

/// The mathematical value of a `Rumor`.
pub struct RumorView {
    pub author: Seq<char>,
    pub created_at: u64,
    pub kind: u16,
    pub tags: Seq<Seq<Seq<char>>>,
    pub content: Seq<char>,
}

impl View for Rumor {
    type V = RumorView;

    open spec fn view(&self) -> RumorView {
        RumorView {
            author: self.author@,
            created_at: self.created_at,
            kind: self.kind,
            tags: tags_view(self.tags),
            content: self.content@,
        }
    }
}

/// Each pair as a tag of two texts, in the same order.
pub open spec fn tags_of_pairs(pairs: Seq<(Seq<char>, Seq<char>)>) -> Seq<Seq<Seq<char>>> {
    Seq::new(pairs.len(), |i: int| seq![pairs[i].0, pairs[i].1])
}

/// Whether every tag holds exactly a key and a value.
pub open spec fn all_pairs(tags: Seq<Seq<Seq<char>>>) -> bool {
    forall|i: int| 0 <= i < tags.len() ==> (#[trigger] tags[i]).len() == 2
}

/// Each tag of two texts as a pair, in the same order.
pub open spec fn pairs_of_tags(tags: Seq<Seq<Seq<char>>>) -> Seq<(Seq<char>, Seq<char>)> {
    Seq::new(tags.len(), |i: int| (tags[i][0], tags[i][1]))
}

/// The rumor that carries `record` for `author`: the record's own time, never another.
pub open spec fn rumor_of_record(record: DiaryRecordView, author: Seq<char>) -> RumorView {
    RumorView {
        author,
        created_at: record.created_at,
        kind: DIARY_ENTRY_KIND,
        tags: tags_of_pairs(record.tags),
        content: record.content,
    }
}

/// The record that a rumor carries, where it is a diary entry whose tags are all pairs.
pub open spec fn record_of_rumor(rumor: RumorView) -> Option<DiaryRecordView> {
    if rumor.kind == DIARY_ENTRY_KIND && all_pairs(rumor.tags) {
        Some(
            DiaryRecordView {
                content: rumor.content,
                tags: pairs_of_tags(rumor.tags),
                created_at: rumor.created_at,
            },
        )
    } else {
        None
    }
}

/// Reading back the rumor made from a record gives that record, whoever the author is.
pub proof fn lemma_rumor_keeps_record(record: DiaryRecordView, author: Seq<char>)
    ensures
        record_of_rumor(rumor_of_record(record, author)) == Some(record),
{
    let rumor = rumor_of_record(record, author);
    assert(all_pairs(rumor.tags));
    assert(pairs_of_tags(rumor.tags) =~= record.tags);
}

/// The unsigned copy of an event: its signer as author, and the same time, kind, tags
/// and content.
pub open spec fn rumor_of_event(event: SignedEventView) -> RumorView {
    RumorView {
        author: event.pubkey,
        created_at: event.created_at,
        kind: event.kind,
        tags: event.tags,
        content: event.content,
    }
}

impl SignedEvent {
    /// Strips identifier and signature off the event, which leaves its unsigned copy.
    pub fn into_rumor(self) -> (rumor: Rumor)
        ensures
            rumor@ == rumor_of_event(self@),
    {
        Rumor {
            author: self.pubkey,
            created_at: self.created_at,
            kind: self.kind,
            tags: self.tags,
            content: self.content,
        }
    }
}

impl DiaryRecord {
    /// Makes the rumor that carries this record for `author`. The rumor keeps the
    /// record's own time of writing.
    pub fn to_rumor(&self, author: &str) -> (rumor: Rumor)
        ensures
            rumor@ == rumor_of_record(self@, author@),
    {
        let mut tags: Vec<Vec<String>> = Vec::new();
        let mut i: usize = 0;
        while i < self.tags.len()
            invariant
                i <= self.tags.len(),
                tags@.len() == i,
                forall|k: int|
                    0 <= k < i ==> tag_view(#[trigger] tags@[k]) == seq![
                        self.tags@[k].0@,
                        self.tags@[k].1@,
                    ],
            decreases self.tags.len() - i,
        {
            let mut tag: Vec<String> = Vec::new();
            tag.push(self.tags[i].0.clone());
            tag.push(self.tags[i].1.clone());
            proof {
                assert(tag_view(tag) =~= seq![self.tags@[i as int].0@, self.tags@[i as int].1@]);
            }
            tags.push(tag);
            i = i + 1;
        }
        let rumor = Rumor {
            author: String::from_str(author),
            created_at: self.created_at,
            kind: DIARY_ENTRY_KIND,
            tags,
            content: self.content.clone(),
        };
        proof {
            assert(rumor@.tags =~= tags_of_pairs(self@.tags));
        }
        rumor
    }
}

impl Rumor {
    /// Whether two rumors declare the same author, time, kind, tags and content.
    pub fn same_as(&self, other: &Rumor) -> (r: bool)
        ensures
            r == (self@ == other@),
    {
        self.author == other.author && self.created_at == other.created_at && self.kind
            == other.kind && self.content == other.content && same_tags(&self.tags, &other.tags)
    }

    /// Reads the record out of a rumor. `None` where the rumor is no diary entry or
    /// one of its tags is not a pair.
    pub fn to_record(&self) -> (r: Option<DiaryRecord>)
        ensures
            match r {
                Some(record) => record_of_rumor(self@) == Some(record@),
                None => record_of_rumor(self@).is_none(),
            },
    {
        if self.kind != DIARY_ENTRY_KIND {
            return None;
        }
        let mut pairs: Vec<(String, String)> = Vec::new();
        let mut i: usize = 0;
        while i < self.tags.len()
            invariant
                i <= self.tags.len(),
                pairs@.len() == i,
                forall|k: int| 0 <= k < i ==> (#[trigger] self@.tags[k]).len() == 2,
                forall|k: int|
                    0 <= k < i ==> (#[trigger] pairs@[k]).0@ == self@.tags[k][0] && pairs@[k].1@
                        == self@.tags[k][1],
            decreases self.tags.len() - i,
        {
            let tag = &self.tags[i];
            proof {
                assert(self@.tags[i as int] == tag_view(*tag));
            }
            if tag.len() != 2 {
                return None;
            }
            pairs.push((tag[0].clone(), tag[1].clone()));
            i = i + 1;
        }
        let record = DiaryRecord {
            content: self.content.clone(),
            tags: pairs,
            created_at: self.created_at,
        };
        proof {
            assert(all_pairs(self@.tags));
            assert(record@.tags =~= pairs_of_tags(self@.tags));
        }
        Some(record)
    }
}

/// The rumor that a JSON text denotes, or `None` where it denotes none: what
/// `nostr_sdk::UnsignedEvent::from_json` makes of the text.
pub uninterp spec fn rumor_of_json(json: Seq<char>) -> Option<RumorView>;

/// Calls `nostr_sdk::UnsignedEvent::from_json` and copies the fields of the rumor out, the
/// author in the hexadecimal form that `to_hex` gives it. The result is `rumor_of_json` of
/// the text; the author of a rumor that was read is 32 bytes, written as 64 lower-case
/// digits.
#[verifier::external_body]
pub(crate) fn read_rumor(json: &str) -> (r: Option<Rumor>)
    ensures
        match r {
            Some(rumor) => rumor_of_json(json@) == Some(rumor@),
            None => rumor_of_json(json@).is_none(),
        },
        r matches Some(rumor) ==> is_lower_hex_of_len(rumor.author@, 64),
{
    match <nostr_sdk::UnsignedEvent as nostr_sdk::JsonUtil>::from_json(json) {
        Ok(rumor) => Some(
            Rumor {
                author: rumor.pubkey.to_hex(),
                created_at: rumor.created_at.as_u64(),
                kind: rumor.kind.as_u16(),
                tags: rumor.tags.iter().map(|tag| tag.as_slice().to_vec()).collect(),
                content: rumor.content.clone(),
            },
        ),
        Err(_) => None,
    }
}

} // verus!
