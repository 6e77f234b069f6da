//! The validation-error data model: a single field-level failure and the
//! recursive tree of failures that a validation pass produces.

use vstd::prelude::*;

verus! {

/// A single field-level validation failure: a human-readable message.
/// Immutable once constructed.
#[derive(Debug, PartialEq, Eq)]
pub struct ValidationError {
    pub message: String,
}

impl ValidationError {
    /// Build a failure from its message.
    pub fn new(message: String) -> (r: ValidationError)
        ensures
            r.message == message,
    {
        ValidationError { message }
    }

    /// An owned copy with the same message.
    pub fn duplicate(&self) -> (r: ValidationError)
        ensures
            r == *self,
    {
        ValidationError { message: self.message.clone() }
    }
}

/// What one named field of a tree level holds: its own failures, a subtree
/// per index of a sequence-typed field, or a subtree of a struct-typed field.
#[derive(Debug, PartialEq, Eq)]
pub enum ValidationErrorsKind {
    /// The field's own failures, in the order the validation pass produced them.
    Leaf(Vec<ValidationError>),
    /// For a sequence-typed field: a subtree per element index.
    Indexed(Vec<(u64, ValidationErrorTree)>),
    /// For a struct-typed field: one nested subtree.
    Nested(ValidationErrorTree),
}

/// A finite, acyclic tree of validation failures: each level maps field
/// names to what that field holds.
///
/// The entries keep the order in which the validation pass reported the
/// fields; that order is what the flattener walks. A tree produced by a
/// validation pass satisfies [`tree_wf`]: unique field names within one
/// level, and strictly ascending indices under a sequence-typed field.
#[derive(Debug, PartialEq, Eq)]
pub struct ValidationErrorTree {
    pub entries: Vec<(String, ValidationErrorsKind)>,
}

/// How many nesting levels the flattener crosses below a tree: 0 for a tree
/// of leaves only, one more for each indexed or nested descent.
pub open spec fn tree_depth(t: ValidationErrorTree) -> nat
    decreases t,
{
    entries_depth(t.entries@)
}

pub open spec fn entries_depth(es: Seq<(String, ValidationErrorsKind)>) -> nat
    decreases es,
{
    if es.len() == 0 {
        0
    } else {
        let head = kind_depth(es[0].1);
        let rest = entries_depth(es.drop_first());
        if head >= rest {
            head
        } else {
            rest
        }
    }
}

pub open spec fn kind_depth(k: ValidationErrorsKind) -> nat
    decreases k,
{
    match k {
        ValidationErrorsKind::Leaf(_) => 0,
        ValidationErrorsKind::Indexed(items) => 1 + indexed_depth(items@),
        ValidationErrorsKind::Nested(sub) => 1 + tree_depth(sub),
    }
}

pub open spec fn indexed_depth(items: Seq<(u64, ValidationErrorTree)>) -> nat
    decreases items,
{
    if items.len() == 0 {
        0
    } else {
        let head = tree_depth(items[0].1);
        let rest = indexed_depth(items.drop_first());
        if head >= rest {
            head
        } else {
            rest
        }
    }
}

/// Every entry's depth is bounded by the level's depth.
pub proof fn lemma_entries_depth_bound(es: Seq<(String, ValidationErrorsKind)>, i: int)
    requires
        0 <= i < es.len(),
    ensures
        kind_depth(es[i].1) <= entries_depth(es),
    decreases es.len(),
{
    if i > 0 {
        lemma_entries_depth_bound(es.drop_first(), i - 1);
    }
}

/// Every indexed subtree's depth is bounded by the list's depth.
pub proof fn lemma_indexed_depth_bound(items: Seq<(u64, ValidationErrorTree)>, i: int)
    requires
        0 <= i < items.len(),
    ensures
        tree_depth(items[i].1) <= indexed_depth(items),
    decreases items.len(),
{
    if i > 0 {
        lemma_indexed_depth_bound(items.drop_first(), i - 1);
    }
}

/// A depth capped just above what fits in a `u16`, so that an unbounded
/// depth need not be computed.
pub open spec fn capped_depth(n: nat) -> nat {
    if n <= 0xFFFF {
        n
    } else {
        0x10000
    }
}

proof fn lemma_entries_depth_push(
    es: Seq<(String, ValidationErrorsKind)>,
    x: (String, ValidationErrorsKind),
)
    ensures
        entries_depth(es.push(x)) == if kind_depth(x.1) >= entries_depth(es) {
            kind_depth(x.1)
        } else {
            entries_depth(es)
        },
    decreases es.len(),
{
    if es.len() == 0 {
        assert(es.push(x).drop_first() =~= es);
    } else {
        assert(es.push(x).drop_first() =~= es.drop_first().push(x));
        lemma_entries_depth_push(es.drop_first(), x);
    }
}

proof fn lemma_indexed_depth_push(
    items: Seq<(u64, ValidationErrorTree)>,
    x: (u64, ValidationErrorTree),
)
    ensures
        indexed_depth(items.push(x)) == if tree_depth(x.1) >= indexed_depth(items) {
            tree_depth(x.1)
        } else {
            indexed_depth(items)
        },
    decreases items.len(),
{
    if items.len() == 0 {
        assert(items.push(x).drop_first() =~= items);
    } else {
        assert(items.push(x).drop_first() =~= items.drop_first().push(x));
        lemma_indexed_depth_push(items.drop_first(), x);
    }
}

/// The tree's depth, capped just above `u16::MAX`.
#[verifier::loop_isolation(false)]
fn tree_depth_capped(t: &ValidationErrorTree) -> (d: u32)
    ensures
        d == capped_depth(tree_depth(*t)),
    decreases *t,
{
    let n: usize = t.entries.len();
    let mut best: u32 = 0;
    let mut i: usize = 0;
    while i < n
        invariant
            i <= n,
            best == capped_depth(entries_depth(t.entries@.take(i as int))),
        decreases n - i,
    {
        let kind: &ValidationErrorsKind = &t.entries[i].1;
        let kd: u32 = match kind {
            ValidationErrorsKind::Leaf(_) => 0,
            ValidationErrorsKind::Indexed(items) => {
                let m: usize = items.len();
                let mut sub_best: u32 = 0;
                let mut j: usize = 0;
                while j < m
                    invariant
                        j <= m,
                        sub_best == capped_depth(indexed_depth(items@.take(j as int))),
                    decreases m - j,
                {
                    let sd: u32 = tree_depth_capped(&items[j].1);
                    if sd > sub_best {
                        sub_best = sd;
                    }
                    proof {
                        assert(items@.take(j + 1 as int) =~= items@.take(j as int).push(
                            items@[j as int],
                        ));
                        lemma_indexed_depth_push(items@.take(j as int), items@[j as int]);
                    }
                    j += 1;
                }
                proof {
                    assert(items@.take(m as int) =~= items@);
                }
                if sub_best >= 0x10000 {
                    0x10000
                } else {
                    sub_best + 1
                }
            },
            ValidationErrorsKind::Nested(sub) => {
                let sd: u32 = tree_depth_capped(sub);
                if sd >= 0x10000 {
                    0x10000
                } else {
                    sd + 1
                }
            },
        };
        proof {
            assert(kd == capped_depth(kind_depth(t.entries@[i as int].1)));
        }
        if kd > best {
            best = kd;
        }
        proof {
            assert(t.entries@.take(i + 1 as int) =~= t.entries@.take(i as int).push(
                t.entries@[i as int],
            ));
            lemma_entries_depth_push(t.entries@.take(i as int), t.entries@[i as int]);
        }
        i += 1;
    }
    proof {
        assert(t.entries@.take(n as int) =~= t.entries@);
    }
    best
}

/// Whether the tree's nesting fits the depth counter of the flattener;
/// callers that cannot know their tree's shape test this before flattening
/// or rendering.
pub fn tree_depth_fits(t: &ValidationErrorTree) -> (r: bool)
    ensures
        r <==> tree_depth(*t) <= u16::MAX as nat,
{
    tree_depth_capped(t) <= 0xFFFF
}

/// The tree's structural invariant: within one level field names are unique,
/// and the indices of a sequence-typed field are strictly ascending, so a
/// depth-first walk visits them in ascending numeric order.
pub open spec fn tree_wf(t: ValidationErrorTree) -> bool
    decreases t,
{
    &&& forall|i: int, j: int|
        0 <= i < j < t.entries@.len() ==> t.entries@[i].0@ != t.entries@[j].0@
    &&& forall|i: int| 0 <= i < t.entries@.len() ==> #[trigger] kind_wf(t.entries@[i].1)
}

pub open spec fn kind_wf(k: ValidationErrorsKind) -> bool
    decreases k,
{
    match k {
        ValidationErrorsKind::Leaf(_) => true,
        ValidationErrorsKind::Indexed(items) => {
            &&& forall|i: int, j: int|
                0 <= i < j < items@.len() ==> items@[i].0 < items@[j].0
            &&& forall|i: int| 0 <= i < items@.len() ==> #[trigger] tree_wf(items@[i].1)
        },
        ValidationErrorsKind::Nested(sub) => tree_wf(sub),
    }
}

} // verus!
