use vstd::prelude::*;

verus! {

/// The mark a player puts in a cell. `X` always moves first.
#[derive(Clone, Copy, Debug, PartialEq, Eq, Structural)]
pub enum SquareValue {
    X,
    O,
}

impl SquareValue {
    /// The other player's mark.
    pub open spec fn spec_next(&self) -> SquareValue {
        match self {
            SquareValue::X => SquareValue::O,
            SquareValue::O => SquareValue::X,
        }
    }

    /// Returns the mark of the other player: a fixed two-cycle.
    #[verifier::when_used_as_spec(spec_next)]
    pub fn next(&self) -> (r: SquareValue)
        ensures
            r == self.spec_next(),
            r != *self,
            r.spec_next() == *self,
    {
        match self {
            SquareValue::X => SquareValue::O,
            SquareValue::O => SquareValue::X,
        }
    }

    /// The symbol shown for the mark.
    pub open spec fn spec_symbol(&self) -> Seq<char> {
        match self {
            SquareValue::X => seq!['X'],
            SquareValue::O => seq!['O'],
        }
    }

    /// Returns the symbol shown for the mark, `"X"` or `"O"`.
    pub fn symbol(&self) -> (r: &'static str)
        ensures
            r@ == self.spec_symbol(),
    {
        proof {
            reveal_strlit("X");
            reveal_strlit("O");
        }
        match self {
            SquareValue::X => "X",
            SquareValue::O => "O",
        }
    }
}

} // verus!
