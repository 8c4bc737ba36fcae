use vstd::prelude::*;

verus! {

/// The recoverable failure of a binary operation.
#[derive(Clone, Copy, Debug, PartialEq, Eq)]
pub enum Error {
    /// The operands' shapes cannot be combined. Carries one `(rows, cols)` pair
    /// per operand, the left operand's first.
    InvalidDimensions((usize, usize), (usize, usize)),
}

impl Error {
    /// The text every error renders as.
    pub open spec fn spec_render(self) -> Seq<char> {
        "Invalid dimensions"@
    }

    /// Renders the error as text.
    pub fn render(&self) -> (s: String)
        ensures
            s@ == self.spec_render(),
    {
        "Invalid dimensions".to_owned()
    }
}

} // verus!
