use vstd::prelude::*;

verus! {

/// The domain entity served by the lookup endpoint: an externally assigned
/// integer identifier together with the record's scalar fields.
#[derive(Clone, Debug)]
pub struct Record {
    pub id: i32,
    pub name: String,
    pub email: String,
}

/// The mathematical model of a `Record`: the identifier as an unbounded
/// integer and the fields as character sequences.
pub struct RecordView {
    pub id: int,
    pub name: Seq<char>,
    pub email: Seq<char>,
}

impl View for Record {
    type V = RecordView;

    open spec fn view(&self) -> RecordView {
        RecordView { id: self.id as int, name: self.name@, email: self.email@ }
    }
}

} // verus!
