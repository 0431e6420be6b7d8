use vstd::prelude::*;

use crate::store::RecordView;
use crate::types::Owner;

verus! {

/// Flag that opens the encoding of a digest that has a record.
pub const FOUND_FLAG: i32 = 1;

/// Flag that makes up the whole encoding of a digest without a record.
pub const NOT_FOUND_FLAG: i32 = 0;

/// What the store holds for one digest.
#[derive(Debug, PartialEq, Eq)]
pub enum Details {
    Found { owner: Owner, timestamp: u64 },
    NotFound,
}

impl View for Details {
    type V = Option<RecordView>;

    open spec fn view(&self) -> Option<RecordView> {
        match self {
            Details::Found { owner, timestamp } => Some((owner@, *timestamp)),
            Details::NotFound => None,
        }
    }
}

/// One element of the positional encoding of `Details`.
#[derive(Debug, PartialEq, Eq)]
pub enum Field {
    Flag(i32),
    Owner(Owner),
    Timestamp(u64),
}

/// The abstract value of a `Field`.
pub enum FieldView {
    Flag(i32),
    Owner(Seq<u8>),
    Timestamp(u64),
}

impl View for Field {
    type V = FieldView;

    open spec fn view(&self) -> FieldView {
        match self {
            Field::Flag(f) => FieldView::Flag(*f),
            Field::Owner(o) => FieldView::Owner(o@),
            Field::Timestamp(t) => FieldView::Timestamp(*t),
        }
    }
}

/// The positional encoding of a lookup result: `[0]` when absent,
/// `[1, owner, timestamp]` when present.
pub open spec fn encoding(d: Option<RecordView>) -> Seq<FieldView> {
    match d {
        None => seq![FieldView::Flag(NOT_FOUND_FLAG)],
        Some(r) => seq![FieldView::Flag(FOUND_FLAG), FieldView::Owner(r.0), FieldView::Timestamp(r.1)],
    }
}

/// The abstract values of a sequence of fields.
pub open spec fn fields_view(s: Seq<Field>) -> Seq<FieldView> {
    s.map_values(|f: Field| f@)
}

impl Details {
    /// Whether a record was found.
    pub fn is_found(&self) -> (r: bool)
        ensures
            r == self@ is Some,
    {
        match self {
            Details::Found { .. } => true,
            Details::NotFound => false,
        }
    }

    /// The positional encoding of these details.
    pub fn to_fields(self) -> (r: Vec<Field>)
        ensures
            fields_view(r@) == encoding(self@),
    {
        let ghost v = self@;
        let mut r: Vec<Field> = Vec::new();
        match self {
            Details::Found { owner, timestamp } => {
                r.push(Field::Flag(FOUND_FLAG));
                r.push(Field::Owner(owner));
                r.push(Field::Timestamp(timestamp));
            },
            Details::NotFound => {
                r.push(Field::Flag(NOT_FOUND_FLAG));
            },
        }
        assert(fields_view(r@) =~= encoding(v));
        r
    }
}

} // verus!
