//! The record: a name and an age.

use vstd::prelude::*;

verus! {

/// A record as mathematics sees it.
pub struct RecordView {
    pub name: Seq<char>,
    pub age: u32,
}

/// The unit of stored data. Records have no identity: two records with the
/// same name and age are the same record, and a store may hold both.
#[derive(Debug, PartialEq, Eq)]
pub struct Record {
    pub name: String,
    pub age: u32,
}

impl View for Record {
    type V = RecordView;

    open spec fn view(&self) -> RecordView {
        RecordView { name: self.name@, age: self.age }
    }
}

impl Clone for Record {
    fn clone(&self) -> (copy: Record)
        ensures
            copy@ == self@,
    {
        Record { name: self.name.clone(), age: self.age }
    }
}

impl Record {
    pub fn new(name: String, age: u32) -> (record: Record)
        ensures
            record@ == (RecordView { name: name@, age }),
    {
        Record { name, age }
    }
}

/// The records of a sequence, each by its view.
pub open spec fn record_views(records: Seq<Record>) -> Seq<RecordView> {
    records.map_values(|r: Record| r@)
}

/// A copy of `records`, record by record.
pub fn clone_records(records: &Vec<Record>) -> (copy: Vec<Record>)
    ensures
        record_views(copy@) == record_views(records@),
{
    let mut copy: Vec<Record> = Vec::new();
    let mut i: usize = 0;
    while i < records.len()
        invariant
            i <= records.len(),
            copy.len() == i,
            forall|j: int| 0 <= j < i ==> copy[j]@ == records[j]@,
        decreases records.len() - i,
    {
        copy.push(records[i].clone());
        i += 1;
    }
    assert(record_views(copy@) =~= record_views(records@));
    copy
}

} // verus!
