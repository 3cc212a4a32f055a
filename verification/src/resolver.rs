//! Reduction of a type expression to its terminal identifier.

use vstd::prelude::*;

verus! {

/// One segment of a path: an identifier, with or without generic arguments.
#[derive(Debug)]
pub struct PathSegment {
    pub ident: String,
    /// Whether generic arguments follow the identifier, as in `Vec<u8>`.
    pub generic: bool,
}

/// A syntactic type reference, as it stands on the right of a type alias.
#[derive(Debug)]
pub enum TypeExpression {
    /// A path, such as `Balance` or `module::Balance`. A path that starts
    /// from a type in angle brackets, as `<T as Trait>::Output` does, is
    /// `self_qualified`.
    Path { self_qualified: bool, segments: Vec<PathSegment> },
    /// Any other shape: a tuple, a reference, an array and so on.
    Other,
}

/// Whether no segment carries generic arguments.
pub open spec fn plain(segments: Seq<PathSegment>) -> bool {
    forall|i: int| 0 <= i < segments.len() ==> !(#[trigger] segments[i]).generic
}

impl TypeExpression {
    /// The terminal identifier of the expression, where it reduces to one:
    /// the last segment of a path that is not empty, does not start from a
    /// type in angle brackets and carries no generic arguments, provided that
    /// segment is not empty.
    pub open spec fn terminal(self) -> Option<Seq<char>> {
        match self {
            TypeExpression::Path { self_qualified, segments } => if !self_qualified
                && segments@.len() > 0 && plain(segments@) && segments@.last().ident@.len() > 0 {
                Some(segments@.last().ident@)
            } else {
                None
            },
            TypeExpression::Other => None,
        }
    }

    /// The expression that consists of the single identifier `name`.
    pub fn ident(name: &str) -> (r: TypeExpression)
        ensures
            r matches TypeExpression::Path { self_qualified, segments } && !self_qualified
                && segments@.len() == 1 && segments@[0].ident@ == name@ && !segments@[0].generic,
            r.terminal() == if name@.len() > 0 {
                Some(name@)
            } else {
                None
            },
    {
        let mut segments: Vec<PathSegment> = Vec::new();
        segments.push(PathSegment { ident: name.to_owned(), generic: false });
        TypeExpression::Path { self_qualified: false, segments }
    }

    /// The path whose segments are the identifiers `idents`, in order.
    pub fn path(idents: &[&str]) -> (r: TypeExpression)
        ensures
            r matches TypeExpression::Path { self_qualified, segments } && !self_qualified
                && segments@.len() == idents@.len() && forall|i: int|
                0 <= i < idents@.len() ==> (#[trigger] segments@[i]).ident@ == idents@[i]@
                    && !segments@[i].generic,
            r.terminal() == if idents@.len() > 0 && idents@.last()@.len() > 0 {
                Some(idents@.last()@)
            } else {
                None
            },
    {
        let mut segments: Vec<PathSegment> = Vec::new();
        let mut i: usize = 0;
        while i < idents.len()
            invariant
                i <= idents@.len(),
                segments@.len() == i,
                forall|j: int|
                    0 <= j < i ==> (#[trigger] segments@[j]).ident@ == idents@[j]@
                        && !segments@[j].generic,
            decreases idents@.len() - i,
        {
            segments.push(PathSegment { ident: idents[i].to_owned(), generic: false });
            i += 1;
        }
        TypeExpression::Path { self_qualified: false, segments }
    }
}

/// Resolves a type expression to its terminal identifier. An expression that
/// does not reduce to a single identifier resolves to nothing.
pub fn fetch_ident(ty: &TypeExpression) -> (r: Option<String>)
    ensures
        match r {
            Some(id) => ty.terminal() == Some(id@),
            None => ty.terminal().is_none(),
        },
{
    match ty {
        TypeExpression::Path { self_qualified, segments } => {
            let n: usize = segments.len();
            if *self_qualified || n == 0 {
                return None;
            }
            let mut i: usize = 0;
            while i < n
                invariant
                    *ty == (TypeExpression::Path {
                        self_qualified: *self_qualified,
                        segments: *segments,
                    }),
                    n == segments@.len(),
                    i <= n,
                    forall|j: int| 0 <= j < i ==> !(#[trigger] segments@[j]).generic,
                decreases n - i,
            {
                if segments[i].generic {
                    assert(!plain(segments@)) by {
                        assert(segments@[i as int].generic);
                    }
                    return None;
                }
                i += 1;
            }
            let last = &segments[n - 1];
            if last.ident.as_str().is_empty() {
                None
            } else {
                Some(last.ident.clone())
            }
        },
        TypeExpression::Other => None,
    }
}

} // verus!
