//! The identifiers that a caller supplies beside the declarations.

use vstd::prelude::*;

verus! {

/// The caller's own identifiers: the name of the enclosing runtime type and
/// the name of the block type. They are never taken from the declarations.
#[derive(Debug)]
pub struct Context {
    pub runtime: String,
    pub block: String,
}

impl View for Context {
    type V = (Seq<char>, Seq<char>);

    /// The runtime's name and the block type's name.
    open spec fn view(&self) -> (Seq<char>, Seq<char>) {
        (self.runtime@, self.block@)
    }
}

impl Context {
    /// The context of the runtime `runtime` with the block type `block`.
    pub fn new(runtime: &str, block: &str) -> (r: Context)
        ensures
            r@ == (runtime@, block@),
    {
        Context { runtime: runtime.to_owned(), block: block.to_owned() }
    }
}

} // verus!
