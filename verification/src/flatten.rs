//! The error flattener: a depth-first walk that turns a
//! [`ValidationErrorTree`](crate::errors::ValidationErrorTree) into a flat,
//! deterministically ordered list of `(depth, path, error)` triples.
//!
//! Paths use `.` to descend into nested structs and `[i]` to descend into
//! sequence indices, concatenated left to right from the root. Depth counts
//! nesting levels crossed, starting at 0 for top-level fields.

use vstd::prelude::*;
use vstd::string::StringExecFns;

use crate::errors::ValidationError;
use crate::errors::ValidationErrorTree;
use crate::errors::ValidationErrorsKind;
use crate::errors::lemma_entries_depth_bound;
use crate::errors::lemma_indexed_depth_bound;
use crate::errors::tree_depth;
use crate::text::append_dec_digits;
use crate::text::dec_digits;

verus! {

/// One flattened failure: how deep it sat, the full dotted/indexed path of
/// its field, and the failure itself.
#[derive(Debug, PartialEq, Eq)]
pub struct FlattenedError {
    pub depth: u16,
    pub path: String,
    pub error: ValidationError,
}

impl View for FlattenedError {
    type V = (int, Seq<char>, ValidationError);

    open spec fn view(&self) -> (int, Seq<char>, ValidationError) {
        (self.depth as int, self.path@, self.error)
    }
}

/// The views of a flattened list, for stating what the flattener returns.
pub open spec fn flat_view(s: Seq<FlattenedError>) -> Seq<(int, Seq<char>, ValidationError)> {
    s.map_values(|fe: FlattenedError| fe@)
}

/// A field's full path: the field name alone at the root, else the
/// enclosing path, a dot, and the field name.
pub open spec fn joined_path(path: Option<Seq<char>>, field: Seq<char>) -> Seq<char> {
    match path {
        Option::None => field,
        Option::Some(p) => p + seq!['.'] + field,
    }
}

/// The path of one index of a sequence-typed field: `path[index]`.
pub open spec fn indexed_path(path: Seq<char>, index: u64) -> Seq<char> {
    path + seq!['['] + dec_digits(index as nat) + seq![']']
}

/// What flattening a whole tree yields, given the path and depth of the
/// level it sits at.
pub open spec fn flat_tree(t: ValidationErrorTree, path: Option<Seq<char>>, depth: int) -> Seq<
    (int, Seq<char>, ValidationError),
>
    decreases t,
{
    flat_entries(t.entries@, path, depth)
}

/// Flattening a level's entries, field by field, in the tree's own order.
pub open spec fn flat_entries(
    es: Seq<(String, ValidationErrorsKind)>,
    path: Option<Seq<char>>,
    depth: int,
) -> Seq<(int, Seq<char>, ValidationError)>
    decreases es,
{
    if es.len() == 0 {
        Seq::empty()
    } else {
        flat_entry(es[0].0@, es[0].1, path, depth) + flat_entries(es.drop_first(), path, depth)
    }
}

/// Flattening one named field: a leaf emits one triple per failure at the
/// current depth; an indexed or nested field descends one level deeper.
pub open spec fn flat_entry(
    name: Seq<char>,
    k: ValidationErrorsKind,
    path: Option<Seq<char>>,
    depth: int,
) -> Seq<(int, Seq<char>, ValidationError)>
    decreases k,
{
    let full = joined_path(path, name);
    match k {
        ValidationErrorsKind::Leaf(errs) => Seq::new(
            errs@.len(),
            |i: int| (depth, full, errs@[i]),
        ),
        ValidationErrorsKind::Indexed(items) => flat_indexed(items@, full, depth),
        ValidationErrorsKind::Nested(sub) => flat_tree(sub, Option::Some(full), depth + 1),
    }
}

/// Flattening the indexed subtrees of a sequence-typed field, in list order.
pub open spec fn flat_indexed(
    items: Seq<(u64, ValidationErrorTree)>,
    path: Seq<char>,
    depth: int,
) -> Seq<(int, Seq<char>, ValidationError)>
    decreases items,
{
    if items.len() == 0 {
        Seq::empty()
    } else {
        flat_tree(items[0].1, Option::Some(indexed_path(path, items[0].0)), depth + 1)
            + flat_indexed(items.drop_first(), path, depth)
    }
}

/// Appending an entry to a level flattens to the level's flattening followed
/// by the entry's.
proof fn lemma_flat_entries_push(
    es: Seq<(String, ValidationErrorsKind)>,
    x: (String, ValidationErrorsKind),
    path: Option<Seq<char>>,
    depth: int,
)
    ensures
        flat_entries(es.push(x), path, depth) == flat_entries(es, path, depth) + flat_entry(
            x.0@,
            x.1,
            path,
            depth,
        ),
    decreases es.len(),
{
    if es.len() == 0 {
        assert(es.push(x).drop_first() =~= es);
        assert(flat_entries(es.push(x), path, depth) =~= flat_entries(es, path, depth)
            + flat_entry(x.0@, x.1, path, depth));
    } else {
        assert(es.push(x).drop_first() =~= es.drop_first().push(x));
        lemma_flat_entries_push(es.drop_first(), x, path, depth);
        assert(flat_entries(es.push(x), path, depth) =~= flat_entries(es, path, depth)
            + flat_entry(x.0@, x.1, path, depth));
    }
}

/// The same, for the indexed subtrees of one sequence-typed field.
proof fn lemma_flat_indexed_push(
    items: Seq<(u64, ValidationErrorTree)>,
    x: (u64, ValidationErrorTree),
    path: Seq<char>,
    depth: int,
)
    ensures
        flat_indexed(items.push(x), path, depth) == flat_indexed(items, path, depth) + flat_tree(
            x.1,
            Option::Some(indexed_path(path, x.0)),
            depth + 1,
        ),
    decreases items.len(),
{
    if items.len() == 0 {
        assert(items.push(x).drop_first() =~= items);
        assert(flat_indexed(items.push(x), path, depth) =~= flat_indexed(items, path, depth)
            + flat_tree(x.1, Option::Some(indexed_path(path, x.0)), depth + 1));
    } else {
        assert(items.push(x).drop_first() =~= items.drop_first().push(x));
        lemma_flat_indexed_push(items.drop_first(), x, path, depth);
        assert(flat_indexed(items.push(x), path, depth) =~= flat_indexed(items, path, depth)
            + flat_tree(x.1, Option::Some(indexed_path(path, x.0)), depth + 1));
    }
}

/// How many individual failures a tree holds, over all its leaves.
pub open spec fn tree_error_count(t: ValidationErrorTree) -> nat
    decreases t,
{
    entries_error_count(t.entries@)
}

pub open spec fn entries_error_count(es: Seq<(String, ValidationErrorsKind)>) -> nat
    decreases es,
{
    if es.len() == 0 {
        0
    } else {
        kind_error_count(es[0].1) + entries_error_count(es.drop_first())
    }
}

pub open spec fn kind_error_count(k: ValidationErrorsKind) -> nat
    decreases k,
{
    match k {
        ValidationErrorsKind::Leaf(errs) => errs@.len(),
        ValidationErrorsKind::Indexed(items) => indexed_error_count(items@),
        ValidationErrorsKind::Nested(sub) => tree_error_count(sub),
    }
}

pub open spec fn indexed_error_count(items: Seq<(u64, ValidationErrorTree)>) -> nat
    decreases items,
{
    if items.len() == 0 {
        0
    } else {
        tree_error_count(items[0].1) + indexed_error_count(items.drop_first())
    }
}

/// Flattening never truncates: whatever the path and depth it starts from,
/// it emits exactly one triple per failure held in the tree.
pub proof fn lemma_flatten_counts_every_error(
    t: ValidationErrorTree,
    path: Option<Seq<char>>,
    depth: int,
)
    ensures
        flat_tree(t, path, depth).len() == tree_error_count(t),
    decreases t,
{
    lemma_flat_entries_count(t.entries@, path, depth);
}

proof fn lemma_flat_entries_count(
    es: Seq<(String, ValidationErrorsKind)>,
    path: Option<Seq<char>>,
    depth: int,
)
    ensures
        flat_entries(es, path, depth).len() == entries_error_count(es),
    decreases es,
{
    if es.len() > 0 {
        lemma_flat_entry_count(es[0].0@, es[0].1, path, depth);
        lemma_flat_entries_count(es.drop_first(), path, depth);
    }
}

proof fn lemma_flat_entry_count(
    name: Seq<char>,
    k: ValidationErrorsKind,
    path: Option<Seq<char>>,
    depth: int,
)
    ensures
        flat_entry(name, k, path, depth).len() == kind_error_count(k),
    decreases k,
{
    match k {
        ValidationErrorsKind::Leaf(_) => {},
        ValidationErrorsKind::Indexed(items) => {
            lemma_flat_indexed_count(items@, joined_path(path, name), depth);
        },
        ValidationErrorsKind::Nested(sub) => {
            lemma_flatten_counts_every_error(
                sub,
                Option::Some(joined_path(path, name)),
                depth + 1,
            );
        },
    }
}

proof fn lemma_flat_indexed_count(
    items: Seq<(u64, ValidationErrorTree)>,
    path: Seq<char>,
    depth: int,
)
    ensures
        flat_indexed(items, path, depth).len() == indexed_error_count(items),
    decreases items,
{
    if items.len() > 0 {
        lemma_flatten_counts_every_error(
            items[0].1,
            Option::Some(indexed_path(path, items[0].0)),
            depth + 1,
        );
        lemma_flat_indexed_count(items.drop_first(), path, depth);
    }
}

/// Flattening is deterministic: the flattened list is a function of the
/// tree alone, so flattening the same tree twice yields identical ordered
/// output.
pub proof fn lemma_flatten_deterministic(t1: ValidationErrorTree, t2: ValidationErrorTree)
    requires
        t1 == t2,
    ensures
        flat_tree(t1, Option::None, 0) == flat_tree(t2, Option::None, 0),
{
}

/// Every triple of a flattened list, with `p` and a dot prefixed to its
/// path and `d` added to its depth.
pub open spec fn shifted_entries(
    s: Seq<(int, Seq<char>, ValidationError)>,
    p: Seq<char>,
    d: int,
) -> Seq<(int, Seq<char>, ValidationError)> {
    s.map_values(|e: (int, Seq<char>, ValidationError)| (e.0 + d, p + seq!['.'] + e.1, e.2))
}

proof fn lemma_shifted_concat(
    s1: Seq<(int, Seq<char>, ValidationError)>,
    s2: Seq<(int, Seq<char>, ValidationError)>,
    p: Seq<char>,
    d: int,
)
    ensures
        shifted_entries(s1 + s2, p, d) == shifted_entries(s1, p, d) + shifted_entries(s2, p, d),
{
    assert(shifted_entries(s1 + s2, p, d) =~= shifted_entries(s1, p, d) + shifted_entries(
        s2,
        p,
        d,
    ));
}

/// Whether the paths `pa` and `pb` of two flattening runs differ by the
/// prefix `p`, so that every full path they build differs by it too.
pub open spec fn path_prefixed(pa: Option<Seq<char>>, pb: Option<Seq<char>>, p: Seq<char>) -> bool {
    match pb {
        Option::Some(b) => pa == Option::Some(p + seq!['.'] + b),
        Option::None => pa == Option::Some(p),
    }
}

proof fn lemma_flat_tree_shift(
    t: ValidationErrorTree,
    pa: Option<Seq<char>>,
    da: int,
    pb: Option<Seq<char>>,
    db: int,
    p: Seq<char>,
    d: int,
)
    requires
        path_prefixed(pa, pb, p),
        da == d + db,
    ensures
        flat_tree(t, pa, da) == shifted_entries(flat_tree(t, pb, db), p, d),
    decreases t,
{
    lemma_flat_entries_shift(t.entries@, pa, da, pb, db, p, d);
}

proof fn lemma_flat_entries_shift(
    es: Seq<(String, ValidationErrorsKind)>,
    pa: Option<Seq<char>>,
    da: int,
    pb: Option<Seq<char>>,
    db: int,
    p: Seq<char>,
    d: int,
)
    requires
        path_prefixed(pa, pb, p),
        da == d + db,
    ensures
        flat_entries(es, pa, da) == shifted_entries(flat_entries(es, pb, db), p, d),
    decreases es,
{
    if es.len() == 0 {
        assert(flat_entries(es, pa, da) =~= shifted_entries(flat_entries(es, pb, db), p, d));
    } else {
        lemma_flat_entry_shift(es[0].0@, es[0].1, pa, da, pb, db, p, d);
        lemma_flat_entries_shift(es.drop_first(), pa, da, pb, db, p, d);
        lemma_shifted_concat(
            flat_entry(es[0].0@, es[0].1, pb, db),
            flat_entries(es.drop_first(), pb, db),
            p,
            d,
        );
    }
}

proof fn lemma_flat_entry_shift(
    name: Seq<char>,
    k: ValidationErrorsKind,
    pa: Option<Seq<char>>,
    da: int,
    pb: Option<Seq<char>>,
    db: int,
    p: Seq<char>,
    d: int,
)
    requires
        path_prefixed(pa, pb, p),
        da == d + db,
    ensures
        flat_entry(name, k, pa, da) == shifted_entries(flat_entry(name, k, pb, db), p, d),
    decreases k,
{
    let fa = joined_path(pa, name);
    let fb = joined_path(pb, name);
    assert(fa =~= p + seq!['.'] + fb);
    match k {
        ValidationErrorsKind::Leaf(errs) => {
            assert(flat_entry(name, k, pa, da) =~= shifted_entries(
                flat_entry(name, k, pb, db),
                p,
                d,
            ));
        },
        ValidationErrorsKind::Indexed(items) => {
            lemma_flat_indexed_shift(items@, fa, da, fb, db, p, d);
        },
        ValidationErrorsKind::Nested(sub) => {
            lemma_flat_tree_shift(sub, Option::Some(fa), da + 1, Option::Some(fb), db + 1, p, d);
        },
    }
}

proof fn lemma_flat_indexed_shift(
    items: Seq<(u64, ValidationErrorTree)>,
    fa: Seq<char>,
    da: int,
    fb: Seq<char>,
    db: int,
    p: Seq<char>,
    d: int,
)
    requires
        fa == p + seq!['.'] + fb,
        da == d + db,
    ensures
        flat_indexed(items, fa, da) == shifted_entries(flat_indexed(items, fb, db), p, d),
    decreases items,
{
    if items.len() == 0 {
        assert(flat_indexed(items, fa, da) =~= shifted_entries(flat_indexed(items, fb, db), p, d));
    } else {
        assert(indexed_path(fa, items[0].0) =~= p + seq!['.'] + indexed_path(fb, items[0].0));
        lemma_flat_tree_shift(
            items[0].1,
            Option::Some(indexed_path(fa, items[0].0)),
            da + 1,
            Option::Some(indexed_path(fb, items[0].0)),
            db + 1,
            p,
            d,
        );
        lemma_flat_indexed_shift(items.drop_first(), fa, da, fb, db, p, d);
        lemma_shifted_concat(
            flat_tree(items[0].1, Option::Some(indexed_path(fb, items[0].0)), db + 1),
            flat_indexed(items.drop_first(), fb, db),
            p,
            d,
        );
    }
}

/// Nested-field paths compose: flattening a tree that sits under path `p`
/// at depth `d` yields exactly the tree's root flattening with `p` and a
/// dot prefixed to every path and `d` added to every depth. In particular,
/// every failure below index `i` of a sequence-typed field reached along
/// `p` carries a path that continues `p[i]`, piece by piece from the root.
pub proof fn lemma_flatten_path_composition(t: ValidationErrorTree, p: Seq<char>, d: int)
    ensures
        flat_tree(t, Option::Some(p), d) == shifted_entries(flat_tree(t, Option::None, 0), p, d),
{
    lemma_flat_tree_shift(t, Option::Some(p), d, Option::None, 0, p, d);
}

/// The view of an optional borrowed path.
pub open spec fn opt_path_view(path: Option<&String>) -> Option<Seq<char>> {
    match path {
        Option::None => Option::None,
        Option::Some(p) => Option::Some(p@),
    }
}

/// Flatten a whole error tree into depth-first order, top-level fields at
/// depth 0.
pub fn flatten_errors(errors: &ValidationErrorTree) -> (r: Vec<FlattenedError>)
    requires
        tree_depth(*errors) <= u16::MAX as nat,
    ensures
        flat_view(r@) == flat_tree(*errors, Option::None, 0),
{
    _flatten_errors(errors, Option::None, Option::None)
}

/// Flatten a tree that sits under `path` at nesting level `indent`;
/// `Option::None` stands for the root (no prefix, level 0).
pub fn _flatten_errors(
    errors: &ValidationErrorTree,
    path: Option<&String>,
    indent: Option<u16>,
) -> (r: Vec<FlattenedError>)
    requires
        (match indent {
            Option::Some(d) => d as nat,
            Option::None => 0,
        }) + tree_depth(*errors) <= u16::MAX as nat,
    ensures
        flat_view(r@) == flat_tree(
            *errors,
            opt_path_view(path),
            match indent {
                Option::Some(d) => d as int,
                Option::None => 0,
            },
        ),
{
    let depth: u16 = match indent {
        Option::Some(d) => d,
        Option::None => 0,
    };
    let mut out: Vec<FlattenedError> = Vec::new();
    flatten_tree_into(errors, path, depth, &mut out);
    out
}

/// Depth-first worker: append the flattening of `t` to `out`.
#[verifier::loop_isolation(false)]
fn flatten_tree_into(
    t: &ValidationErrorTree,
    path: Option<&String>,
    depth: u16,
    out: &mut Vec<FlattenedError>,
)
    requires
        depth as nat + tree_depth(*t) <= u16::MAX as nat,
    ensures
        flat_view(final(out)@) == flat_view(old(out)@) + flat_tree(
            *t,
            opt_path_view(path),
            depth as int,
        ),
    decreases *t,
{
    let ghost base = out@;
    let n: usize = t.entries.len();
    let mut i: usize = 0;
    while i < n
        invariant
            i <= n,
            flat_view(out@) == flat_view(base) + flat_entries(
                t.entries@.take(i as int),
                opt_path_view(path),
                depth as int,
            ),
        decreases n - i,
    {
        let name: &String = &t.entries[i].0;
        let kind: &ValidationErrorsKind = &t.entries[i].1;
        let full: String = match path {
            Option::None => name.clone(),
            Option::Some(p) => {
                let mut s = p.clone();
                s.append(".");
                s.append(name.as_str());
                s
            },
        };
        proof {
            reveal_strlit(".");
            assert(full@ =~= joined_path(opt_path_view(path), name@));
            lemma_entries_depth_bound(t.entries@, i as int);
        }
        let ghost mid = out@;
        match kind {
            ValidationErrorsKind::Leaf(errs) => {
                let m: usize = errs.len();
                let mut j: usize = 0;
                while j < m
                    invariant
                        j <= m,
                        flat_view(out@) == flat_view(mid) + Seq::new(
                            j as nat,
                            |jj: int| (depth as int, full@, errs@[jj]),
                        ),
                    decreases m - j,
                {
                    let fe = FlattenedError {
                        depth,
                        path: full.clone(),
                        error: errs[j].duplicate(),
                    };
                    proof {
                        assert(fe@ == (depth as int, full@, errs@[j as int]));
                    }
                    let ghost prev = out@;
                    out.push(fe);
                    proof {
                        assert(flat_view(out@) =~= flat_view(prev).push(
                            (depth as int, full@, errs@[j as int]),
                        ));
                        assert(flat_view(out@) =~= flat_view(mid) + Seq::new(
                            (j + 1) as nat,
                            |jj: int| (depth as int, full@, errs@[jj]),
                        ));
                    }
                    j += 1;
                }
                proof {
                    assert(Seq::new(m as nat, |jj: int| (depth as int, full@, errs@[jj]))
                        =~= flat_entry(name@, *kind, opt_path_view(path), depth as int));
                }
            },
            ValidationErrorsKind::Indexed(items) => {
                let m: usize = items.len();
                let mut j: usize = 0;
                while j < m
                    invariant
                        j <= m,
                        flat_view(out@) == flat_view(mid) + flat_indexed(
                            items@.take(j as int),
                            full@,
                            depth as int,
                        ),
                    decreases m - j,
                {
                    let idx: u64 = items[j].0;
                    let sub: &ValidationErrorTree = &items[j].1;
                    let mut sub_path = full.clone();
                    sub_path.append("[");
                    append_dec_digits(idx, &mut sub_path);
                    sub_path.append("]");
                    proof {
                        reveal_strlit("[");
                        reveal_strlit("]");
                        assert(sub_path@ =~= indexed_path(full@, idx));
                        lemma_indexed_depth_bound(items@, j as int);
                    }
                    flatten_tree_into(sub, Option::Some(&sub_path), depth + 1, out);
                    proof {
                        assert(items@.take(j + 1 as int) =~= items@.take(j as int).push(
                            items@[j as int],
                        ));
                        lemma_flat_indexed_push(
                            items@.take(j as int),
                            items@[j as int],
                            full@,
                            depth as int,
                        );
                    }
                    j += 1;
                }
                proof {
                    assert(items@.take(m as int) =~= items@);
                }
            },
            ValidationErrorsKind::Nested(sub) => {
                flatten_tree_into(sub, Option::Some(&full), depth + 1, out);
            },
        }
        proof {
            assert(t.entries@.take(i + 1 as int) =~= t.entries@.take(i as int).push(
                t.entries@[i as int],
            ));
            lemma_flat_entries_push(
                t.entries@.take(i as int),
                t.entries@[i as int],
                opt_path_view(path),
                depth as int,
            );
        }
        i += 1;
    }
    proof {
        assert(t.entries@.take(n as int) =~= t.entries@);
    }
}

} // verus!
