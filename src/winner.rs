use vstd::prelude::*;

use crate::square::SquareValue;

verus! {

/// A 3x3 board in row-major order; each cell is empty or holds a mark.
pub type SquareArray = [Option<SquareValue>; 9];

/// Number of winning lines.
pub const LINE_COUNT: usize = 8;

/// The cells of winning line `k`: the three rows, the three columns, then the
/// two diagonals.
pub open spec fn line_at(k: int) -> (int, int, int) {
    if k == 0 {
        (0, 1, 2)
    } else if k == 1 {
        (3, 4, 5)
    } else if k == 2 {
        (6, 7, 8)
    } else if k == 3 {
        (0, 3, 6)
    } else if k == 4 {
        (1, 4, 7)
    } else if k == 5 {
        (2, 5, 8)
    } else if k == 6 {
        (0, 4, 8)
    } else {
        (2, 4, 6)
    }
}

/// The mark that holds all three cells of line `k`, if one does.
pub open spec fn line_owner(b: Seq<Option<SquareValue>>, k: int) -> Option<SquareValue> {
    let (x, y, z) = line_at(k);
    if b[x] is Some && b[y] == b[x] && b[z] == b[x] {
        b[x]
    } else {
        None
    }
}

/// Whether some winning line is held entirely by `m`.
pub open spec fn has_line(b: Seq<Option<SquareValue>>, m: SquareValue) -> bool {
    exists|k: int| 0 <= k < 8 && #[trigger] line_owner(b, k) == Some(m)
}

/// The owner of the first completed line from line `k` on, in the fixed order.
pub open spec fn first_owner_from(b: Seq<Option<SquareValue>>, k: int) -> Option<SquareValue>
    decreases 8 - k,
{
    if k >= 8 {
        None
    } else if line_owner(b, k) is Some {
        line_owner(b, k)
    } else {
        first_owner_from(b, k + 1)
    }
}

/// The winner of a board: the owner of the first completed line, if any.
pub open spec fn winner_of(b: Seq<Option<SquareValue>>) -> Option<SquareValue> {
    first_owner_from(b, 0)
}

/// The cells of winning line `k`.
fn line_cells(k: usize) -> (r: (usize, usize, usize))
    requires
        k < LINE_COUNT,
    ensures
        (r.0 as int, r.1 as int, r.2 as int) == line_at(k as int),
        r.0 < 9 && r.1 < 9 && r.2 < 9,
{
    if k == 0 {
        (0, 1, 2)
    } else if k == 1 {
        (3, 4, 5)
    } else if k == 2 {
        (6, 7, 8)
    } else if k == 3 {
        (0, 3, 6)
    } else if k == 4 {
        (1, 4, 7)
    } else if k == 5 {
        (2, 5, 8)
    } else if k == 6 {
        (0, 4, 8)
    } else {
        (2, 4, 6)
    }
}

/// Returns the mark that holds a whole row, column or diagonal of `squares`,
/// checking the lines in their fixed order, or `None` if no line is complete.
pub fn calculate_winner(squares: &SquareArray) -> (r: Option<SquareValue>)
    ensures
        r == winner_of(squares@),
{
    let mut k: usize = 0;
    while k < LINE_COUNT
        invariant
            k <= LINE_COUNT,
            first_owner_from(squares@, k as int) == winner_of(squares@),
        decreases LINE_COUNT - k,
    {
        let (a, b, c) = line_cells(k);
        match (squares[a], squares[b], squares[c]) {
            (Some(x), Some(y), Some(z)) => {
                if x == y && x == z {
                    return Some(x);
                }
            },
            _ => {},
        }
        k = k + 1;
    }
    None
}

proof fn lemma_first_owner_from(b: Seq<Option<SquareValue>>, k: int)
    requires
        0 <= k <= 8,
    ensures
        first_owner_from(b, k) is None <==> (forall|j: int|
            k <= j < 8 ==> #[trigger] line_owner(b, j) is None),
        first_owner_from(b, k) is Some ==> exists|j: int|
            k <= j < 8 && #[trigger] line_owner(b, j) == first_owner_from(b, k),
    decreases 8 - k,
{
    if k < 8 {
        lemma_first_owner_from(b, k + 1);
    }
}

/// A board has no winner exactly when no line is held whole by one mark; when
/// it has one, that mark holds a whole line.
pub proof fn lemma_winner_needs_line(b: Seq<Option<SquareValue>>)
    ensures
        winner_of(b) is None <==> (forall|k: int| 0 <= k < 8 ==> #[trigger] line_owner(b, k) is None),
        winner_of(b) is Some ==> has_line(b, winner_of(b)->0),
{
    lemma_first_owner_from(b, 0);
}

/// Unless both marks hold a line, a board is won by `m` exactly when some
/// line's three cells all hold `m`.
pub proof fn lemma_winner_iff_line(b: Seq<Option<SquareValue>>, m: SquareValue)
    requires
        !(has_line(b, SquareValue::X) && has_line(b, SquareValue::O)),
    ensures
        winner_of(b) == Some(m) <==> has_line(b, m),
{
    lemma_first_owner_from(b, 0);
    if has_line(b, m) {
        let k = choose|k: int| 0 <= k < 8 && #[trigger] line_owner(b, k) == Some(m);
        assert(line_owner(b, k) is Some);
        let w = winner_of(b)->0;
        if w != m {
            assert(has_line(b, w));
            match m {
                SquareValue::X => assert(has_line(b, SquareValue::X) && has_line(b, SquareValue::O)),
                SquareValue::O => assert(has_line(b, SquareValue::X) && has_line(b, SquareValue::O)),
            }
        }
    }
}

} // verus!
