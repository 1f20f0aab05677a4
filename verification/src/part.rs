//! The parts of a decoded multipart body.

use vstd::prelude::*;
use crate::text::opt_text;

verus! {

/// One named section of a multipart body.
#[derive(Debug, Clone, PartialEq, Eq)]
pub struct RawPart {
    /// The name from the part's disposition.
    pub name: String,
    /// The part's `Content-Type` header, where it has one.
    pub content_type: Option<String>,
    /// The payload.
    pub bytes: Vec<u8>,
}

pub ghost struct RawPartView {
    pub name: Seq<char>,
    pub content_type: Option<Seq<char>>,
    pub bytes: Seq<u8>,
}

impl View for RawPart {
    type V = RawPartView;

    open spec fn view(&self) -> RawPartView {
        RawPartView {
            name: self.name@,
            content_type: opt_text(self.content_type),
            bytes: self.bytes@,
        }
    }
}

/// The views of `parts`, in order.
pub open spec fn part_views(parts: Seq<RawPart>) -> Seq<RawPartView> {
    parts.map_values(|p: RawPart| p@)
}

/// The values that arrived under one field name, in order of arrival.
#[derive(Debug, Clone, PartialEq, Eq)]
pub enum FieldOccurrence<T> {
    Single(T),
    Multiple(Vec<T>),
}

impl<T> FieldOccurrence<T> {
    /// The values held, in order of arrival.
    pub open spec fn items(self) -> Seq<T> {
        match self {
            FieldOccurrence::Single(item) => seq![item],
            FieldOccurrence::Multiple(items) => items@,
        }
    }

    /// `Multiple` stands for two values or more.
    pub open spec fn wf(self) -> bool {
        self matches FieldOccurrence::Multiple(items) ==> items.len() >= 2
    }

    /// The record after one more value has arrived.
    pub fn push(self, item: T) -> (r: Self)
        ensures
            r is Multiple,
            r.items() == self.items().push(item),
            self.wf() ==> r.wf(),
    {
        match self {
            FieldOccurrence::Single(first) => {
                let mut items: Vec<T> = Vec::new();
                items.push(first);
                items.push(item);
                FieldOccurrence::Multiple(items)
            },
            FieldOccurrence::Multiple(mut items) => {
                items.push(item);
                FieldOccurrence::Multiple(items)
            },
        }
    }

    /// How many values arrived.
    pub fn count(&self) -> (n: usize)
        ensures
            n == self.items().len(),
    {
        match self {
            FieldOccurrence::Single(_) => 1,
            FieldOccurrence::Multiple(items) => items.len(),
        }
    }
}

} // verus!
