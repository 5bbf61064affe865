//! The store: one JSON array of records, kept as the whole content of a
//! file. To append is to read what the file holds, put the new records
//! behind the old ones, and write the whole again.
//!
//! The functions here work on the content. Reading and writing the file, and
//! the lock that lets one append finish before the next begins, belong to
//! the caller.

use crate::codec::{
    encode_records, encoding, lemma_records_round_trip, sequence_of_tree, sequence_of_value,
    tree_of_records,
};
use crate::json::{parse, parsed};
use crate::record::{record_views, Record, RecordView};
use vstd::prelude::*;

verus! {

/// Why an append did not take place.
#[derive(Debug, Clone, Copy, PartialEq, Eq, Structural)]
pub enum StoreError {
    /// The file could not be opened, read or written.
    Io,
    /// The records could not be written as text.
    Encode,
}

/// The content holds something, and it is not an array of records.
pub open spec fn unreadable(content: Seq<u8>) -> bool {
    content.len() > 0 && match parsed(content) {
        Some(t) => sequence_of_tree(t) is None,
        None => true,
    }
}

/// The records that a content stands for. An empty content stands for no
/// records, and so does an unreadable one: what it held is given up.
pub open spec fn stored(content: Seq<u8>) -> Seq<RecordView> {
    if content.len() == 0 {
        Seq::empty()
    } else {
        match parsed(content) {
            Some(t) => match sequence_of_tree(t) {
                Some(records) => records,
                None => Seq::empty(),
            },
            None => Seq::empty(),
        }
    }
}

/// The records of a store that held `held`, once `incoming` is appended.
pub open spec fn appended(held: Seq<RecordView>, incoming: Seq<RecordView>) -> Seq<RecordView> {
    held + incoming
}

/// The records of a store that held `held`, once each of `submissions` is
/// appended in turn.
pub open spec fn appended_all(
    held: Seq<RecordView>,
    submissions: Seq<Seq<RecordView>>,
) -> Seq<RecordView>
    decreases submissions.len(),
{
    if submissions.len() == 0 {
        held
    } else {
        appended_all(appended(held, submissions[0]), submissions.drop_first())
    }
}

/// What was read from a store.
#[derive(Debug, PartialEq, Eq)]
pub struct Loaded {
    pub records: Vec<Record>,
    /// The content was unreadable and is given up.
    pub discarded: bool,
}

/// What is to be written to a store.
#[derive(Debug, PartialEq, Eq)]
pub struct Rewrite {
    /// The new content of the file, whole.
    pub content: String,
    /// The old content was unreadable and is given up: the caller owes a
    /// warning.
    pub discarded: bool,
}

/// Reads the content of a store.
pub fn load(content: &[u8]) -> (loaded: Loaded)
    ensures
        record_views(loaded.records@) == stored(content@),
        loaded.discarded == unreadable(content@),
{
    if content.len() == 0 {
        let records: Vec<Record> = Vec::new();
        assert(record_views(records@) =~= stored(content@));
        return Loaded { records, discarded: false };
    }
    let found = match parse(content) {
        Ok(v) => sequence_of_value(&v),
        Err(_) => None,
    };
    match found {
        Some(records) => Loaded { records, discarded: false },
        None => {
            let records: Vec<Record> = Vec::new();
            assert(record_views(records@) =~= stored(content@));
            Loaded { records, discarded: true }
        },
    }
}

/// Appends `incoming` to the store whose content is `existing`: the new
/// content holds the records of the old one, then `incoming`, in their
/// order.
pub fn append(existing: &[u8], incoming: Vec<Record>) -> (r: Result<Rewrite, StoreError>)
    ensures
        match encoding(appended(stored(existing@), record_views(incoming@))) {
            Some(text) => r matches Ok(rewrite) && rewrite.content@ == text && rewrite.discarded
                == unreadable(existing@),
            None => r matches Err(e) && e == StoreError::Encode,
        },
{
    let loaded = load(existing);
    let mut records = loaded.records;
    let mut incoming = incoming;
    let ghost held = records@;
    let ghost fresh = incoming@;
    records.append(&mut incoming);
    assert(record_views(records@) =~= appended(record_views(held), record_views(fresh)));
    match encode_records(&records) {
        Some(content) => Ok(Rewrite { content, discarded: loaded.discarded }),
        None => Err(StoreError::Encode),
    }
}

/// A store without content holds no records: what is appended to it is all
/// that it holds afterwards, in the order given.
pub proof fn lemma_append_to_empty(incoming: Seq<RecordView>)
    ensures
        stored(Seq::empty()) == Seq::<RecordView>::empty(),
        appended(stored(Seq::empty()), incoming) == incoming,
{
    assert(appended(stored(Seq::empty()), incoming) =~= incoming);
}

/// To append no records changes nothing in what the store holds.
pub proof fn lemma_append_nothing(held: Seq<RecordView>)
    ensures
        appended(held, Seq::empty()) == held,
{
    assert(appended(held, Seq::empty()) =~= held);
}

/// After any number of appends the store holds what it held before, then
/// the submissions one after the other, each in its own order.
pub proof fn lemma_appends_concatenate(held: Seq<RecordView>, submissions: Seq<Seq<RecordView>>)
    ensures
        appended_all(held, submissions) == held + submissions.flatten(),
    decreases submissions.len(),
{
    if submissions.len() == 0 {
        assert(held + submissions.flatten() =~= held);
    } else {
        lemma_appends_concatenate(appended(held, submissions[0]), submissions.drop_first());
        assert(submissions.flatten() =~= submissions[0] + submissions.drop_first().flatten());
        assert(appended(held, submissions[0]) + submissions.drop_first().flatten() =~= held
            + submissions.flatten());
    }
}

/// A content that is read as the tree of `records` stands for `records`.
pub proof fn lemma_stored_reads_records(content: Seq<u8>, records: Seq<RecordView>)
    requires
        content.len() > 0,
        parsed(content) == Some(tree_of_records(records)),
    ensures
        stored(content) == records,
        !unreadable(content),
{
    lemma_records_round_trip(records);
}

} // verus!
