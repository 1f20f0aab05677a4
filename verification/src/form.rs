//! Enforcement of a schema on the parts of a body, and the form that the
//! accepted parts make.

use vstd::prelude::*;
use crate::part::{part_views, FieldOccurrence, RawPart, RawPartView};
use crate::rejection::{Rejection, RejectionView};
use crate::schema::{FieldRule, FieldSchema};

verus! {

/// What arrived under one field name: the view of a [`FieldOccurrence`].
pub ghost enum Occurrences {
    Single(RawPartView),
    Multiple(Seq<RawPartView>),
}

pub open spec fn occurrence_view(o: FieldOccurrence<RawPart>) -> Occurrences {
    match o {
        FieldOccurrence::Single(part) => Occurrences::Single(part@),
        FieldOccurrence::Multiple(parts) => Occurrences::Multiple(part_views(parts@)),
    }
}

/// The record under `part`'s name once `part` has joined `form`: the first
/// value of a name is `Single`, every later one makes or extends a
/// `Multiple`.
pub open spec fn extended(form: Map<Seq<char>, Occurrences>, part: RawPartView) -> Occurrences {
    if form.contains_key(part.name) {
        match form[part.name] {
            Occurrences::Single(first) => Occurrences::Multiple(seq![first, part]),
            Occurrences::Multiple(earlier) => Occurrences::Multiple(earlier.push(part)),
        }
    } else {
        Occurrences::Single(part)
    }
}

/// The parts of `parts` that are called `name`, in order of arrival.
pub open spec fn occurrences_of(parts: Seq<RawPartView>, name: Seq<char>) -> Seq<RawPartView> {
    parts.filter(|p: RawPartView| p.name == name)
}

/// `parts` grouped by name. A name without parts is absent.
pub open spec fn grouped(parts: Seq<RawPartView>) -> Map<Seq<char>, Occurrences> {
    Map::new(
        |n: Seq<char>| occurrences_of(parts, n).len() > 0,
        |n: Seq<char>|
            {
                let found = occurrences_of(parts, n);
                if found.len() == 1 {
                    Occurrences::Single(found[0])
                } else {
                    Occurrences::Multiple(found)
                }
            },
    )
}

/// What the client is told that a part declared for its content type.
pub open spec fn declared_type(part: RawPartView) -> Seq<char> {
    match part.content_type {
        Some(ct) => ct,
        None => Seq::empty(),
    }
}

/// Why `schema` turns `part` down, if it does: an unknown name, before too
/// large a payload, before a content type that the field does not take.
pub open spec fn verdict(schema: Map<Seq<char>, FieldRule>, part: RawPartView) -> Option<
    RejectionView,
> {
    if !schema.contains_key(part.name) {
        Some(RejectionView::UnknownField(part.name))
    } else if part.bytes.len() > schema[part.name].max_size {
        Some(RejectionView::FieldTooLarge(part.name))
    } else if !schema[part.name].pattern.accepts(part.content_type) {
        Some(RejectionView::ContentTypeMismatch(part.name, declared_type(part)))
    } else {
        None
    }
}

/// The verdict on the first part of `parts` that `schema` turns down.
pub open spec fn first_rejection(
    schema: Map<Seq<char>, FieldRule>,
    parts: Seq<RawPartView>,
) -> Option<RejectionView>
    decreases parts.len(),
{
    if parts.len() == 0 {
        None
    } else {
        match verdict(schema, parts.first()) {
            Some(e) => Some(e),
            None => first_rejection(schema, parts.drop_first()),
        }
    }
}

pub open spec fn opt_rejection_view(r: Option<Rejection>) -> Option<RejectionView> {
    match r {
        Some(e) => Some(e@),
        None => None,
    }
}

/// Holds one part against the schema.
pub fn screen(schema: &FieldSchema, part: &RawPart) -> (r: Option<Rejection>)
    ensures
        opt_rejection_view(r) == verdict(schema@, part@),
{
    match schema.get(&part.name) {
        None => Some(Rejection::UnknownField(part.name.clone())),
        Some(field) => {
            if part.bytes.len() as u64 > field.max_size {
                Some(Rejection::FieldTooLarge(part.name.clone()))
            } else if !field.pattern.accepts(&part.content_type) {
                let got = match &part.content_type {
                    Some(ct) => ct.clone(),
                    None => String::new(),
                };
                Some(Rejection::ContentTypeMismatch(part.name.clone(), got))
            } else {
                None
            }
        },
    }
}

struct FormEntry {
    name: String,
    occurrence: FieldOccurrence<RawPart>,
}

spec fn entry_names(entries: Seq<FormEntry>) -> Seq<Seq<char>> {
    entries.map_values(|e: FormEntry| e.name@)
}

spec fn entries_map(entries: Seq<FormEntry>) -> Map<Seq<char>, Occurrences> {
    Map::new(
        |n: Seq<char>| entry_names(entries).contains(n),
        |n: Seq<char>|
            occurrence_view(entries[entry_names(entries).index_of_first(n).unwrap()].occurrence),
    )
}

/// Index of the entry called `name`.
fn position(entries: &Vec<FormEntry>, name: &String) -> (r: Option<usize>)
    ensures
        match r {
            Some(i) => i < entries.len() && entry_names(entries@).index_of_first(name@) == Some(
                i as int,
            ),
            None => !entry_names(entries@).contains(name@),
        },
{
    let ghost names = entry_names(entries@);
    let mut i: usize = 0;
    while i < entries.len()
        invariant
            i <= entries.len(),
            names == entry_names(entries@),
            forall|a: int| 0 <= a < i ==> names[a] != name@,
        decreases entries.len() - i,
    {
        if entries[i].name == *name {
            proof {
                assert(names[i as int] == name@);
                names.index_of_first_ensures(name@);
            }
            return Some(i);
        }
        i += 1;
    }
    None
}

/// The parts that passed enforcement, grouped by field name.
pub struct EnforcedForm {
    entries: Vec<FormEntry>,
}

impl View for EnforcedForm {
    type V = Map<Seq<char>, Occurrences>;

    closed spec fn view(&self) -> Map<Seq<char>, Occurrences> {
        entries_map(self.entries@)
    }
}

impl EnforcedForm {
    /// The form without parts.
    pub fn new() -> (form: EnforcedForm)
        ensures
            form@ == Map::<Seq<char>, Occurrences>::empty(),
    {
        let form = EnforcedForm { entries: Vec::new() };
        assert(form@ =~= Map::<Seq<char>, Occurrences>::empty());
        form
    }

    /// What arrived under `name`.
    pub fn get(&self, name: &String) -> (r: Option<&FieldOccurrence<RawPart>>)
        ensures
            match r {
                Some(o) => self@.contains_key(name@) && occurrence_view(*o) == self@[name@],
                None => !self@.contains_key(name@),
            },
    {
        match position(&self.entries, name) {
            Some(i) => {
                proof {
                    entry_names(self.entries@).index_of_first_ensures(name@);
                }
                Some(&self.entries[i].occurrence)
            },
            None => None,
        }
    }

    /// Files `part` under its name, after the parts that arrived before.
    pub fn insert(&mut self, part: RawPart)
        ensures
            final(self)@ == old(self)@.insert(part@.name, extended(old(self)@, part@)),
    {
        let ghost before = self.entries@;
        let ghost names = entry_names(before);
        let ghost pv = part@;
        match position(&self.entries, &part.name) {
            Some(i) => {
                proof {
                    names.index_of_first_ensures(pv.name);
                }
                let entry = self.entries.remove(i);
                let ghost held = entry.occurrence;
                let grown = FormEntry { name: entry.name, occurrence: entry.occurrence.push(part) };
                self.entries.insert(i, grown);
                proof {
                    let after = self.entries@;
                    assert(entry_names(after) =~= names);
                    assert(after[i as int].occurrence.items() == held.items().push(part));
                    match held {
                        FieldOccurrence::Single(first) => {
                            assert(part_views(seq![first].push(part)) =~= seq![first@, pv]);
                        },
                        FieldOccurrence::Multiple(items) => {
                            assert(part_views(items@.push(part)) =~= part_views(items@).push(pv));
                        },
                    }
                    assert(occurrence_view(after[i as int].occurrence) == extended(
                        entries_map(before),
                        pv,
                    ));
                    assert forall|n: Seq<char>| names.contains(n) implies #[trigger] entries_map(
                        after,
                    )[n] == entries_map(before).insert(pv.name, extended(entries_map(before), pv))[n] by {
                        names.index_of_first_ensures(n);
                    }
                    assert(entries_map(after) =~= entries_map(before).insert(
                        pv.name,
                        extended(entries_map(before), pv),
                    ));
                }
            },
            None => {
                let entry = FormEntry {
                    name: part.name.clone(),
                    occurrence: FieldOccurrence::Single(part),
                };
                self.entries.push(entry);
                proof {
                    let after = self.entries@;
                    let names_after = entry_names(after);
                    assert(names_after =~= names.push(pv.name));
                    assert(names_after[names.len() as int] == pv.name);
                    assert forall|n: Seq<char>| names_after.contains(n) <==> (names.contains(n) || n
                        == pv.name) by {
                        if names.contains(n) {
                            let k = choose|k: int| 0 <= k < names.len() && names[k] == n;
                            assert(names_after[k] == n);
                        }
                    }
                    assert forall|n: Seq<char>| names_after.contains(n) implies #[trigger] entries_map(
                        after,
                    )[n] == entries_map(before).insert(pv.name, extended(entries_map(before), pv))[n] by {
                        names_after.index_of_first_ensures(n);
                        names.index_of_first_ensures(n);
                        let k = names_after.index_of_first(n).unwrap();
                        if n == pv.name {
                            assert(k == names.len());
                            assert(occurrence_view(after[k].occurrence) == Occurrences::Single(pv));
                        } else {
                            assert(k < names.len());
                            assert(names[k] == n);
                            let k0 = names.index_of_first(n).unwrap();
                            assert(names_after[k0] == names[k0]);
                            assert(k0 == k);
                            assert(after[k] == before[k]);
                        }
                    }
                    assert(entries_map(after) =~= entries_map(before).insert(
                        pv.name,
                        extended(entries_map(before), pv),
                    ));
                }
            },
        }
    }
}

/// One more part changes the record under its own name, and no other.
pub proof fn lemma_grouped_push(parts: Seq<RawPartView>, part: RawPartView)
    ensures
        grouped(parts.push(part)) == grouped(parts).insert(
            part.name,
            extended(grouped(parts), part),
        ),
{
    let more = parts.push(part);
    assert(more.drop_last() =~= parts);
    assert forall|n: Seq<char>|
        occurrences_of(more, n) == (if n == part.name {
            occurrences_of(parts, n).push(part)
        } else {
            occurrences_of(parts, n)
        }) by {
        reveal(Seq::filter);
    }
    assert(occurrences_of(parts, part.name).len() == 1 ==> occurrences_of(more, part.name)
        =~= seq![occurrences_of(parts, part.name)[0], part]);
    assert(grouped(more) =~= grouped(parts).insert(part.name, extended(grouped(parts), part)));
}

/// Holds every part against the schema, in order of arrival, and groups
/// them by name. The first part that the schema turns down ends the
/// request: nothing of the form is handed out.
pub fn enforce(schema: &FieldSchema, parts: Vec<RawPart>) -> (r: Result<EnforcedForm, Rejection>)
    ensures
        match first_rejection(schema@, part_views(parts@)) {
            Some(e) => r matches Err(x) && x@ == e,
            None => r matches Ok(form) && form@ == grouped(part_views(parts@)),
        },
{
    let ghost all = part_views(parts@);
    let mut form = EnforcedForm::new();
    assert(grouped(all.take(0)) =~= Map::<Seq<char>, Occurrences>::empty()) by {
        reveal(Seq::filter);
    }
    assert(all.skip(0) =~= all);
    for part in it: parts
        invariant
            all == part_views(it.seq()),
            first_rejection(schema@, all) == first_rejection(schema@, all.skip(it.index() as int)),
            form@ == grouped(all.take(it.index() as int)),
    {
        let ghost i = it.index() as int;
        proof {
            assert(all.skip(i).first() == part@);
            assert(all.skip(i).drop_first() =~= all.skip(i + 1));
            assert(all.take(i + 1) =~= all.take(i).push(part@));
            lemma_grouped_push(all.take(i), part@);
        }
        match screen(schema, &part) {
            Some(rejection) => {
                return Err(rejection);
            },
            None => {
                form.insert(part);
            },
        }
    }
    assert(all.take(all.len() as int) =~= all);
    Ok(form)
}

} // verus!
