//! Declaration items: the units of a caller's configuration fragment.

use crate::resolver::TypeExpression;
use vstd::prelude::*;

verus! {

/// One item of a declaration sequence.
#[derive(Debug)]
pub enum DeclarationItem {
    /// A named type alias, `type name = expression;`.
    TypeAlias { name: String, expression: TypeExpression },
    /// Any other item (a function, a constant, ...). Extraction passes over it.
    Other,
}

impl DeclarationItem {
    /// Whether the item is a type alias named `name`.
    pub open spec fn declares(self, name: Seq<char>) -> bool {
        match self {
            DeclarationItem::TypeAlias { name: n, .. } => n@ == name,
            DeclarationItem::Other => false,
        }
    }

    /// The name of a type alias; the empty name for any other item.
    pub open spec fn alias_name(self) -> Seq<char> {
        match self {
            DeclarationItem::TypeAlias { name, .. } => name@,
            DeclarationItem::Other => Seq::empty(),
        }
    }

    /// The identifier that the item's expression resolves to, if it is a type
    /// alias whose expression reduces to a single identifier.
    pub open spec fn resolved(self) -> Option<Seq<char>> {
        match self {
            DeclarationItem::TypeAlias { expression, .. } => expression.terminal(),
            DeclarationItem::Other => None,
        }
    }

    /// The alias `type name = expression;`.
    pub fn type_alias(name: &str, expression: TypeExpression) -> (r: DeclarationItem)
        ensures
            r matches DeclarationItem::TypeAlias { name: n, expression: e } && n@ == name@ && e
                == expression,
    {
        DeclarationItem::TypeAlias { name: name.to_owned(), expression }
    }
}

} // verus!
