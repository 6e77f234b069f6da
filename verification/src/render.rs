//! The default rendering of validation failures when no handler is
//! registered: HTTP status 400, and a plain-text body listing one line per
//! flattened failure.
//!
//! Two inherited line shapes exist side by side: flat-list backends indent
//! each line with a tab (`\t<path>: <message>`), tree-shaped backends do not
//! (`<path>: <message>`). The `tabbed` flag picks between them.

use vstd::prelude::*;
use vstd::string::StringExecFns;

use crate::errors::ValidationError;
use crate::errors::ValidationErrorTree;
use crate::errors::tree_depth;
use crate::flatten::FlattenedError;
use crate::flatten::flat_tree;
use crate::flatten::flat_view;
use crate::flatten::flatten_errors;

verus! {

/// The fixed first line of every default body.
pub open spec fn header_text() -> Seq<char> {
    "Validation errors in fields:\n"@
}

/// One rendered body line for one flattened failure.
pub open spec fn rendered_line(e: (int, Seq<char>, ValidationError), tabbed: bool) -> Seq<char> {
    (if tabbed {
        seq!['\t']
    } else {
        Seq::<char>::empty()
    }) + e.1 + seq![':', ' '] + e.2.message@
}

/// The rendered body lines of a flattened list, separated by newlines, in
/// the list's own order.
pub open spec fn rendered_lines(
    entries: Seq<(int, Seq<char>, ValidationError)>,
    tabbed: bool,
) -> Seq<char>
    decreases entries,
{
    if entries.len() == 0 {
        Seq::empty()
    } else if entries.len() == 1 {
        rendered_line(entries[0], tabbed)
    } else {
        rendered_line(entries[0], tabbed) + seq!['\n'] + rendered_lines(
            entries.drop_first(),
            tabbed,
        )
    }
}

/// The whole default body for a tree: the header, then the flattened
/// failures, one line each.
pub open spec fn default_body_view(t: ValidationErrorTree, tabbed: bool) -> Seq<char> {
    header_text() + rendered_lines(flat_tree(t, Option::None, 0), tabbed)
}

proof fn lemma_rendered_lines_push(
    entries: Seq<(int, Seq<char>, ValidationError)>,
    x: (int, Seq<char>, ValidationError),
    tabbed: bool,
)
    ensures
        rendered_lines(entries.push(x), tabbed) == if entries.len() == 0 {
            rendered_line(x, tabbed)
        } else {
            rendered_lines(entries, tabbed) + seq!['\n'] + rendered_line(x, tabbed)
        },
    decreases entries.len(),
{
    if entries.len() == 0 {
        assert(rendered_lines(entries.push(x), tabbed) =~= rendered_line(x, tabbed));
    } else {
        assert(entries.push(x).drop_first() =~= entries.drop_first().push(x));
        lemma_rendered_lines_push(entries.drop_first(), x, tabbed);
        if entries.len() == 1 {
            assert(rendered_lines(entries.push(x), tabbed) =~= rendered_lines(entries, tabbed)
                + seq!['\n'] + rendered_line(x, tabbed));
        } else {
            assert(rendered_lines(entries.push(x), tabbed) =~= rendered_lines(entries, tabbed)
                + seq!['\n'] + rendered_line(x, tabbed));
        }
    }
}

/// Render the default plain-text body for a tree of failures.
#[verifier::loop_isolation(false)]
pub fn default_error_body(errors: &ValidationErrorTree, tabbed: bool) -> (r: String)
    requires
        tree_depth(*errors) <= u16::MAX as nat,
    ensures
        r@ == default_body_view(*errors, tabbed),
{
    let flat: Vec<FlattenedError> = flatten_errors(errors);
    let mut s: String = "Validation errors in fields:\n".to_owned();
    proof {
        assert(s@ =~= header_text() + rendered_lines(flat_view(flat@).take(0), tabbed));
    }
    let n: usize = flat.len();
    let mut i: usize = 0;
    while i < n
        invariant
            i <= n,
            s@ == header_text() + rendered_lines(flat_view(flat@).take(i as int), tabbed),
        decreases n - i,
    {
        let ghost pre = s@;
        if i > 0 {
            s.append("\n");
        }
        if tabbed {
            s.append("\t");
        }
        s.append(flat[i].path.as_str());
        s.append(": ");
        s.append(flat[i].error.message.as_str());
        proof {
            reveal_strlit("\n");
            reveal_strlit("\t");
            reveal_strlit(": ");
            assert(flat_view(flat@).take(i + 1 as int) =~= flat_view(flat@).take(i as int).push(
                flat_view(flat@)[i as int],
            ));
            lemma_rendered_lines_push(
                flat_view(flat@).take(i as int),
                flat_view(flat@)[i as int],
                tabbed,
            );
            assert(s@ =~= header_text() + rendered_lines(
                flat_view(flat@).take(i + 1 as int),
                tabbed,
            ));
        }
        i += 1;
    }
    proof {
        assert(flat_view(flat@).take(n as int) =~= flat_view(flat@));
    }
    s
}

/// The rendered lines of a flat list of failures that carry no field paths:
/// one tab-indented message per line.
pub open spec fn message_lines(errs: Seq<ValidationError>) -> Seq<char>
    decreases errs,
{
    if errs.len() == 0 {
        Seq::empty()
    } else if errs.len() == 1 {
        seq!['\t'] + errs[0].message@
    } else {
        seq!['\t'] + errs[0].message@ + seq!['\n'] + message_lines(errs.drop_first())
    }
}

proof fn lemma_message_lines_push(errs: Seq<ValidationError>, x: ValidationError)
    ensures
        message_lines(errs.push(x)) == if errs.len() == 0 {
            seq!['\t'] + x.message@
        } else {
            message_lines(errs) + seq!['\n'] + seq!['\t'] + x.message@
        },
    decreases errs.len(),
{
    if errs.len() == 0 {
        assert(message_lines(errs.push(x)) =~= seq!['\t'] + x.message@);
    } else {
        assert(errs.push(x).drop_first() =~= errs.drop_first().push(x));
        lemma_message_lines_push(errs.drop_first(), x);
        assert(message_lines(errs.push(x)) =~= message_lines(errs) + seq!['\n'] + seq!['\t']
            + x.message@);
    }
}

/// Render the default plain-text body for a flat list of failures without
/// field paths, as a rule source that reports a plain list produces.
#[verifier::loop_isolation(false)]
pub fn default_error_body_list(errors: &Vec<ValidationError>) -> (r: String)
    ensures
        r@ == header_text() + message_lines(errors@),
{
    let mut s: String = "Validation errors in fields:\n".to_owned();
    proof {
        assert(s@ =~= header_text() + message_lines(errors@.take(0)));
    }
    let n: usize = errors.len();
    let mut i: usize = 0;
    while i < n
        invariant
            i <= n,
            s@ == header_text() + message_lines(errors@.take(i as int)),
        decreases n - i,
    {
        if i > 0 {
            s.append("\n");
        }
        s.append("\t");
        s.append(errors[i].message.as_str());
        proof {
            reveal_strlit("\n");
            reveal_strlit("\t");
            assert(errors@.take(i + 1 as int) =~= errors@.take(i as int).push(
                errors@[i as int],
            ));
            lemma_message_lines_push(errors@.take(i as int), errors@[i as int]);
            assert(s@ =~= header_text() + message_lines(errors@.take(i + 1 as int)));
        }
        i += 1;
    }
    proof {
        assert(errors@.take(n as int) =~= errors@);
    }
    s
}

/// One violation of one rule on one top-level field renders, absent a
/// handler, as the header followed by exactly one line carrying that
/// field's path and the rule's own message.
pub proof fn lemma_single_violation_rendering(
    t: ValidationErrorTree,
    name: String,
    e: ValidationError,
    tabbed: bool,
)
    requires
        t.entries@.len() == 1,
        t.entries@[0].0 == name,
        t.entries@[0].1 matches crate::errors::ValidationErrorsKind::Leaf(errs) && errs@ == seq![e],
    ensures
        flat_tree(t, Option::None, 0) =~= seq![(0int, name@, e)],
        default_body_view(t, tabbed) == header_text() + rendered_line((0int, name@, e), tabbed),
{
    assert(t.entries@.drop_first() =~= Seq::<(String, crate::errors::ValidationErrorsKind)>::empty());
    assert(flat_tree(t, Option::None, 0) =~= seq![(0int, name@, e)]);
}

/// The pipeline's own error: one or more field-level rule violations,
/// carrying the full failure tree, never truncated.
#[derive(Debug, PartialEq, Eq)]
pub enum Error {
    Validate(ValidationErrorTree),
}

impl Error {
    /// The HTTP status of the default rendering.
    pub fn status_code(&self) -> (c: u16)
        ensures
            c == 400,
    {
        400
    }

    /// The default plain-text body for the carried failures.
    pub fn error_body(&self, tabbed: bool) -> (r: String)
        requires
            tree_depth(self->0) <= u16::MAX as nat,
        ensures
            r@ == default_body_view(self->0, tabbed),
    {
        match self {
            Error::Validate(t) => default_error_body(t, tabbed),
        }
    }
}

impl From<ValidationErrorTree> for Error {
    /// Wrap a failure tree as the pipeline's error.
    fn from(t: ValidationErrorTree) -> (r: Error) {
        Error::Validate(t)
    }
}

impl vstd::std_specs::convert::FromSpecImpl<ValidationErrorTree> for Error {
    open spec fn obeys_from_spec() -> bool {
        true
    }

    open spec fn from_spec(t: ValidationErrorTree) -> Error {
        Error::Validate(t)
    }
}

} // verus!
