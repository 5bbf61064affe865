//! Records as JSON: a record is an object with a text `name` and a natural
//! number `age`; a sequence of records is an array of such objects.
//!
//! A request may submit an array of records or one record alone, which
//! counts as an array of one. The store itself is always an array.

use crate::json::{
    array_value, distinct_keys, exact, json_members, json_tree, json_trees, lookup, member,
    natural_value, object_value, parse, parsed, pretty, print, text_value, tree_member, Member,
    Tree,
};
use crate::record::{record_views, Record, RecordView};
use serde_json::Value;
use vstd::prelude::*;

verus! {

/// Why a document was not taken for records.
#[derive(Debug, Clone, Copy, PartialEq, Eq)]
pub enum DecodeError {
    /// The bytes are not a JSON document.
    Syntax,
    /// The document is JSON, but not of the shape asked for: a member is
    /// missing or of the wrong type, or an age does not fit `u32`.
    Shape,
}

/// The key under which a record holds its name.
pub open spec fn name_key() -> Seq<char> {
    "name"@
}

/// The key under which a record holds its age.
pub open spec fn age_key() -> Seq<char> {
    "age"@
}

/// The record that a tree holds: an object whose member `name` is a text
/// and whose member `age` is a natural number that fits `u32`. Other members
/// are passed over.
pub open spec fn record_of_tree(t: Tree) -> Option<RecordView> {
    match (tree_member(t, name_key()), tree_member(t, age_key())) {
        (Some(Tree::Text(name)), Some(Tree::Number(Some(age)))) => if age <= u32::MAX {
            Some(RecordView { name, age: age as u32 })
        } else {
            None
        },
        _ => None,
    }
}

/// The records that a sequence of trees holds, if each of them holds one.
pub open spec fn records_of_trees(items: Seq<Tree>) -> Option<Seq<RecordView>> {
    if forall|i: int| 0 <= i < items.len() ==> record_of_tree(#[trigger] items[i]) is Some {
        Some(items.map_values(|t: Tree| record_of_tree(t).unwrap()))
    } else {
        None
    }
}

/// The records of a stored document: an array of records.
pub open spec fn sequence_of_tree(t: Tree) -> Option<Seq<RecordView>> {
    match t {
        Tree::Array(items) => records_of_trees(items),
        _ => None,
    }
}

/// The records of a submitted document: an array of records, or one record,
/// which counts as an array of one.
pub open spec fn submission_of_tree(t: Tree) -> Option<Seq<RecordView>> {
    match t {
        Tree::Array(items) => records_of_trees(items),
        _ => match record_of_tree(t) {
            Some(record) => Some(seq![record]),
            None => None,
        },
    }
}

/// The tree of a record: an object that holds the name, then the age.
pub open spec fn tree_of_record(record: RecordView) -> Tree {
    Tree::Object(
        seq![
            Member { key: name_key(), value: Tree::Text(record.name) },
            Member { key: age_key(), value: Tree::Number(Some(record.age as u64)) },
        ],
    )
}

/// The tree of a sequence of records: the array of their trees.
pub open spec fn tree_of_records(records: Seq<RecordView>) -> Tree {
    Tree::Array(records.map_values(|r: RecordView| tree_of_record(r)))
}

/// What a request body submits.
pub open spec fn submission(body: Seq<u8>) -> Result<Seq<RecordView>, DecodeError> {
    match parsed(body) {
        None => Err(DecodeError::Syntax),
        Some(t) => match submission_of_tree(t) {
            Some(records) => Ok(records),
            None => Err(DecodeError::Shape),
        },
    }
}

/// The text that stands for `records` in the store, where the printer gives
/// one.
pub open spec fn encoding(records: Seq<RecordView>) -> Option<Seq<char>> {
    pretty(tree_of_records(records))
}

/// The record that a JSON value holds.
pub fn record_of_value(v: &Value) -> (r: Option<Record>)
    ensures
        match r {
            Some(record) => record_of_tree(json_tree(*v)) == Some(record@),
            None => record_of_tree(json_tree(*v)) is None,
        },
{
    let name = match member(v, "name") {
        Some(found) => match found.as_str() {
            Some(text) => text,
            None => return None,
        },
        None => return None,
    };
    let age = match member(v, "age") {
        Some(found) => match found.as_u64() {
            Some(n) => n,
            None => return None,
        },
        None => return None,
    };
    if age > 0xffff_ffff {
        return None;
    }
    Some(Record { name: name.to_owned(), age: age as u32 })
}

/// The records that the values hold, if each of them holds one.
pub fn records_of_values(items: &Vec<Value>) -> (r: Option<Vec<Record>>)
    ensures
        match r {
            Some(records) => records_of_trees(json_trees(items@)) == Some(record_views(records@)),
            None => records_of_trees(json_trees(items@)) is None,
        },
{
    let mut records: Vec<Record> = Vec::new();
    let mut i: usize = 0;
    while i < items.len()
        invariant
            i <= items.len(),
            records.len() == i,
            forall|j: int|
                0 <= j < i ==> record_of_tree(#[trigger] json_trees(items@)[j]) == Some(
                    records[j]@,
                ),
        decreases items.len() - i,
    {
        match record_of_value(&items[i]) {
            Some(record) => {
                records.push(record);
            },
            None => {
                assert(record_of_tree(json_trees(items@)[i as int]) is None);
                return None;
            },
        }
        i += 1;
    }
    assert(records_of_trees(json_trees(items@)).unwrap() =~= record_views(records@));
    Some(records)
}

/// The records of a stored document.
pub fn sequence_of_value(v: &Value) -> (r: Option<Vec<Record>>)
    ensures
        match r {
            Some(records) => sequence_of_tree(json_tree(*v)) == Some(record_views(records@)),
            None => sequence_of_tree(json_tree(*v)) is None,
        },
{
    match v.as_array() {
        Some(items) => records_of_values(items),
        None => None,
    }
}

/// The records of a submitted document.
pub fn submission_of_value(v: &Value) -> (r: Option<Vec<Record>>)
    ensures
        match r {
            Some(records) => submission_of_tree(json_tree(*v)) == Some(record_views(records@)),
            None => submission_of_tree(json_tree(*v)) is None,
        },
{
    match v.as_array() {
        Some(items) => records_of_values(items),
        None => match record_of_value(v) {
            Some(record) => {
                let mut records: Vec<Record> = Vec::new();
                records.push(record);
                assert(record_views(records@) =~= seq![record@]);
                Some(records)
            },
            None => None,
        },
    }
}

/// Reads a request body: the records it submits, or why it submits none.
pub fn decode_submission(body: &[u8]) -> (r: Result<Vec<Record>, DecodeError>)
    ensures
        match r {
            Ok(records) => submission(body@) == Ok::<Seq<RecordView>, DecodeError>(
                record_views(records@),
            ),
            Err(e) => submission(body@) == Err::<Seq<RecordView>, DecodeError>(e),
        },
{
    match parse(body) {
        Ok(v) => match submission_of_value(&v) {
            Some(records) => Ok(records),
            None => Err(DecodeError::Shape),
        },
        Err(_) => Err(DecodeError::Syntax),
    }
}

/// The JSON value of a record.
pub fn value_of_record(record: &Record) -> (v: Value)
    ensures
        json_tree(v) == tree_of_record(record@),
{
    let mut pairs: Vec<(String, Value)> = Vec::new();
    pairs.push(("name".to_owned(), text_value(record.name.clone())));
    pairs.push(("age".to_owned(), natural_value(record.age)));
    proof {
        lemma_keys_differ();
        assert(json_members(pairs@) =~= seq![
            Member { key: name_key(), value: Tree::Text(record.name@) },
            Member { key: age_key(), value: Tree::Number(Some(record.age as u64)) },
        ]);
    }
    object_value(pairs)
}

/// The JSON value of a sequence of records.
pub fn value_of_records(records: &Vec<Record>) -> (v: Value)
    ensures
        json_tree(v) == tree_of_records(record_views(records@)),
{
    let mut items: Vec<Value> = Vec::new();
    let mut i: usize = 0;
    while i < records.len()
        invariant
            i <= records.len(),
            items.len() == i,
            forall|j: int| 0 <= j < i ==> json_tree(#[trigger] items[j]) == tree_of_record(records[j]@),
        decreases records.len() - i,
    {
        items.push(value_of_record(&records[i]));
        i += 1;
    }
    assert(json_trees(items@) =~= record_views(records@).map_values(
        |r: RecordView| tree_of_record(r),
    ));
    array_value(items)
}

/// Writes `records` as the text that the store keeps: `None` where the
/// printer gives an error.
pub fn encode_records(records: &Vec<Record>) -> (r: Option<String>)
    ensures
        match r {
            Some(text) => encoding(record_views(records@)) == Some(text@),
            None => encoding(record_views(records@)) is None,
        },
{
    let v = value_of_records(records);
    proof {
        lemma_encoding_exact(record_views(records@));
    }
    match print(&v) {
        Ok(text) => Some(text),
        Err(_) => None,
    }
}

/// The two keys of a record are different texts.
pub proof fn lemma_keys_differ()
    ensures
        name_key() != age_key(),
{
    reveal_strlit("name");
    reveal_strlit("age");
    assert(name_key().len() == 4);
    assert(age_key().len() == 3);
}

/// The tree of a record is read back as that record.
pub proof fn lemma_record_round_trip(record: RecordView)
    ensures
        record_of_tree(tree_of_record(record)) == Some(record),
{
    lemma_keys_differ();
    let members = tree_of_record(record)->Object_0;
    assert(lookup(members, name_key()) == Some(Tree::Text(record.name)));
    assert(members.drop_first()[0] == members[1]);
    assert(lookup(members.drop_first(), age_key()) == Some(
        Tree::Number(Some(record.age as u64)),
    ));
}

/// Round trip: the tree of a sequence of records is read back, as a stored
/// document and as a submitted one, as the same records in the same order.
pub proof fn lemma_records_round_trip(records: Seq<RecordView>)
    ensures
        sequence_of_tree(tree_of_records(records)) == Some(records),
        submission_of_tree(tree_of_records(records)) == Some(records),
{
    let items = records.map_values(|r: RecordView| tree_of_record(r));
    assert forall|i: int| 0 <= i < items.len() implies record_of_tree(#[trigger] items[i])
        == Some(records[i]) by {
        lemma_record_round_trip(records[i]);
    }
    assert(records_of_trees(items).unwrap() =~= records);
}

/// A record alone is submitted as the sequence of that one record.
pub proof fn lemma_single_record_submission(record: RecordView)
    ensures
        submission_of_tree(tree_of_record(record)) == Some(seq![record]),
{
    lemma_record_round_trip(record);
}

/// A body that is read as the tree of `records` submits `records`.
pub proof fn lemma_submission_reads_records(body: Seq<u8>, records: Seq<RecordView>)
    requires
        parsed(body) == Some(tree_of_records(records)),
    ensures
        submission(body) == Ok::<Seq<RecordView>, DecodeError>(records),
{
    lemma_records_round_trip(records);
}

/// A body that is read as the tree of one record submits that record.
pub proof fn lemma_submission_reads_one_record(body: Seq<u8>, record: RecordView)
    requires
        parsed(body) == Some(tree_of_record(record)),
    ensures
        submission(body) == Ok::<Seq<RecordView>, DecodeError>(seq![record]),
{
    lemma_single_record_submission(record);
}

/// The tree of a sequence of records is exact: it stands for one document.
pub proof fn lemma_encoding_exact(records: Seq<RecordView>)
    ensures
        exact(tree_of_records(records)),
{
    lemma_keys_differ();
    let items = records.map_values(|r: RecordView| tree_of_record(r));
    assert forall|i: int| 0 <= i < items.len() implies exact(#[trigger] items[i]) by {
        let members = items[i]->Object_0;
        assert(distinct_keys(members));
        assert forall|k: int| 0 <= k < members.len() implies exact(
            (#[trigger] members[k]).value,
        ) by {
            if k == 0 {
                assert(exact(Tree::Text(records[i].name)));
            } else {
                assert(exact(Tree::Number(Some(records[i].age as u64))));
            }
        }
    }
}

} // verus!
