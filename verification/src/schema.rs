//! The declaration of the fields that a form may carry.

use vstd::prelude::*;
use crate::media::{MediaPattern, MediaPatternView};

verus! {

/// What a field holds.
#[derive(Debug, Clone, Copy, PartialEq, Eq, Structural)]
pub enum FieldKind {
    Binary,
    Text,
}

/// The declaration of one field.
#[derive(Debug, Clone, PartialEq, Eq)]
pub struct FieldSpec {
    pub name: String,
    pub kind: FieldKind,
    /// The largest payload taken, in bytes.
    pub max_size: u64,
    /// The content types taken.
    pub pattern: MediaPattern,
}

/// What a schema holds for one field name.
pub ghost struct FieldRule {
    pub kind: FieldKind,
    pub max_size: nat,
    pub pattern: MediaPatternView,
}

pub ghost struct FieldSpecView {
    pub name: Seq<char>,
    pub rule: FieldRule,
}

impl View for FieldSpec {
    type V = FieldSpecView;

    open spec fn view(&self) -> FieldSpecView {
        FieldSpecView {
            name: self.name@,
            rule: FieldRule {
                kind: self.kind,
                max_size: self.max_size as nat,
                pattern: self.pattern@,
            },
        }
    }
}

/// The views of `fields`, in order.
pub open spec fn spec_views(fields: Seq<FieldSpec>) -> Seq<FieldSpecView> {
    fields.map_values(|f: FieldSpec| f@)
}

/// The names that `decls` declare, in order.
pub open spec fn declared_names(decls: Seq<FieldSpecView>) -> Seq<Seq<char>> {
    decls.map_values(|d: FieldSpecView| d.name)
}

/// A list of declarations that makes a schema: no name twice, every size
/// limit positive.
pub open spec fn well_formed(decls: Seq<FieldSpecView>) -> bool {
    &&& forall|i: int, j: int|
        0 <= i < j < decls.len() ==> (#[trigger] decls[i]).name != (#[trigger] decls[j]).name
    &&& forall|i: int| 0 <= i < decls.len() ==> (#[trigger] decls[i]).rule.max_size > 0
}

/// The mapping that well-formed declarations stand for.
pub open spec fn schema_map(decls: Seq<FieldSpecView>) -> Map<Seq<char>, FieldRule> {
    Map::new(
        |n: Seq<char>| declared_names(decls).contains(n),
        |n: Seq<char>| decls[declared_names(decls).index_of_first(n).unwrap()].rule,
    )
}

/// Why a list of declarations makes no schema.
#[derive(Debug, Clone, PartialEq, Eq)]
pub enum SchemaError {
    /// The name is declared twice.
    DuplicateField(String),
    /// The field's size limit is zero.
    ZeroSizeLimit(String),
}

pub ghost enum SchemaErrorView {
    DuplicateField(Seq<char>),
    ZeroSizeLimit(Seq<char>),
}

impl View for SchemaError {
    type V = SchemaErrorView;

    open spec fn view(&self) -> SchemaErrorView {
        match self {
            SchemaError::DuplicateField(name) => SchemaErrorView::DuplicateField(name@),
            SchemaError::ZeroSizeLimit(name) => SchemaErrorView::ZeroSizeLimit(name@),
        }
    }
}

/// What is wrong with declaration `i`, given those before it.
pub open spec fn defect_at(decls: Seq<FieldSpecView>, i: int) -> Option<SchemaErrorView> {
    if exists|j: int| 0 <= j < i && (#[trigger] decls[j]).name == decls[i].name {
        Some(SchemaErrorView::DuplicateField(decls[i].name))
    } else if decls[i].rule.max_size == 0 {
        Some(SchemaErrorView::ZeroSizeLimit(decls[i].name))
    } else {
        None
    }
}

/// The defect of the first defective declaration among the first `n`.
pub open spec fn first_defect_below(decls: Seq<FieldSpecView>, n: int) -> Option<SchemaErrorView>
    decreases n,
{
    if n <= 0 {
        None
    } else {
        match first_defect_below(decls, n - 1) {
            Some(e) => Some(e),
            None => defect_at(decls, n - 1),
        }
    }
}

/// The defect of the first defective declaration.
pub open spec fn first_defect(decls: Seq<FieldSpecView>) -> Option<SchemaErrorView> {
    first_defect_below(decls, decls.len() as int)
}

/// The fields that a form may carry, by name. Built once and never changed.
#[derive(Debug)]
pub struct FieldSchema {
    fields: Vec<FieldSpec>,
}

impl View for FieldSchema {
    type V = Map<Seq<char>, FieldRule>;

    closed spec fn view(&self) -> Map<Seq<char>, FieldRule> {
        schema_map(spec_views(self.fields@))
    }
}

impl FieldSchema {
    #[verifier::type_invariant]
    spec fn inv(&self) -> bool {
        well_formed(spec_views(self.fields@))
    }

    /// The schema that `fields` declare, unless one of them repeats an
    /// earlier name or has a size limit of zero.
    pub fn new(fields: Vec<FieldSpec>) -> (r: Result<FieldSchema, SchemaError>)
        ensures
            r is Ok <==> well_formed(spec_views(fields@)),
            r matches Ok(schema) ==> schema@ == schema_map(spec_views(fields@)),
            r matches Err(e) ==> first_defect(spec_views(fields@)) == Some(e@),
    {
        let ghost decls = spec_views(fields@);
        let mut i: usize = 0;
        while i < fields.len()
            invariant
                i <= fields.len(),
                decls == spec_views(fields@),
                first_defect_below(decls, i as int) is None,
                forall|a: int, b: int|
                    0 <= a < b < i ==> (#[trigger] decls[a]).name != (#[trigger] decls[b]).name,
                forall|a: int| 0 <= a < i ==> (#[trigger] decls[a]).rule.max_size > 0,
            decreases fields.len() - i,
        {
            let mut j: usize = 0;
            while j < i
                invariant
                    j <= i < fields.len(),
                    decls == spec_views(fields@),
                    first_defect_below(decls, i as int) is None,
                    forall|a: int| 0 <= a < j ==> (#[trigger] decls[a]).name != decls[i as int].name,
                decreases i - j,
            {
                if fields[j].name == fields[i].name {
                    assert(decls[j as int].name == decls[i as int].name);
                    assert(defect_at(decls, i as int) == Some(
                        SchemaErrorView::DuplicateField(decls[i as int].name),
                    ));
                    assert(first_defect_below(decls, i + 1) == defect_at(decls, i as int));
                    proof {
                        lemma_first_defect_stays(decls, i + 1, decls.len() as int);
                    }
                    return Err(SchemaError::DuplicateField(fields[i].name.clone()));
                }
                j += 1;
            }
            if fields[i].max_size == 0 {
                assert(defect_at(decls, i as int) == Some(
                    SchemaErrorView::ZeroSizeLimit(decls[i as int].name),
                ));
                assert(first_defect_below(decls, i + 1) == defect_at(decls, i as int));
                proof {
                    lemma_first_defect_stays(decls, i + 1, decls.len() as int);
                }
                return Err(SchemaError::ZeroSizeLimit(fields[i].name.clone()));
            }
            assert(defect_at(decls, i as int) is None);
            i += 1;
        }
        Ok(FieldSchema { fields })
    }

    /// The declaration of the field called `name`.
    pub fn get(&self, name: &String) -> (r: Option<&FieldSpec>)
        ensures
            match r {
                Some(field) => {
                    &&& self@.contains_key(name@)
                    &&& field@.name == name@
                    &&& field@.rule == self@[name@]
                    &&& field.max_size > 0
                },
                None => !self@.contains_key(name@),
            },
    {
        let ghost decls = spec_views(self.fields@);
        let ghost names = declared_names(decls);
        proof {
            use_type_invariant(self);
        }
        let mut i: usize = 0;
        while i < self.fields.len()
            invariant
                i <= self.fields.len(),
                decls == spec_views(self.fields@),
                names == declared_names(decls),
                forall|a: int| 0 <= a < i ==> names[a] != name@,
            decreases self.fields.len() - i,
        {
            if self.fields[i].name == *name {
                proof {
                    use_type_invariant(self);
                    assert(names[i as int] == name@);
                    names.index_of_first_ensures(name@);
                }
                return Some(&self.fields[i]);
            }
            i += 1;
        }
        proof {
            names.index_of_first_ensures(name@);
        }
        None
    }
}

/// Once a defect is found, later declarations do not change it.
proof fn lemma_first_defect_stays(decls: Seq<FieldSpecView>, n: int, m: int)
    requires
        0 <= n <= m,
        first_defect_below(decls, n) is Some,
    ensures
        first_defect_below(decls, m) == first_defect_below(decls, n),
    decreases m - n,
{
    if n < m {
        lemma_first_defect_stays(decls, n, m - 1);
    }
}

} // verus!
