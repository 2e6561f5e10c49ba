use vstd::prelude::*;

use crate::square::SquareValue;
use crate::winner::{
    calculate_winner, lemma_winner_needs_line, line_at, line_owner, winner_of, SquareArray,
};

verus! {

/// An intent from the player.
#[derive(Clone, Copy, Debug, PartialEq, Eq, Structural)]
pub enum Message {
    /// Put the next mark in the cell with this index (0 to 8, row-major).
    SquareClicked(usize),
    /// Show the previous board of the history.
    PreviousTurn,
    /// Show the next board of the history.
    NextTurn,
    /// Throw the history away and start over.
    StartNewGame,
}

/// Every cell of `b` is empty.
pub open spec fn is_empty_board(b: SquareArray) -> bool {
    forall|i: int| 0 <= i < 9 ==> #[trigger] b@[i] is None
}

/// The mark that moves at turn `i`: `X` on even turns, `O` on odd ones.
pub open spec fn mark_for_turn(i: int) -> SquareValue {
    if i % 2 == 0 {
        SquareValue::X
    } else {
        SquareValue::O
    }
}

/// `post` is `pre` with mark `m` put in cell `k`, which was empty.
pub open spec fn places(pre: SquareArray, post: SquareArray, k: int, m: SquareValue) -> bool {
    0 <= k < 9 && pre@[k] is None && post@ == pre@.update(k, Some(m))
}

/// `post` follows from `pre` by one legal move of mark `m`: the game was not
/// yet won and one empty cell gets `m`.
pub open spec fn is_move(pre: SquareArray, post: SquareArray, m: SquareValue) -> bool {
    winner_of(pre@) is None && exists|k: int| places(pre, post, k, m)
}

/// A game session: the boards of the current timeline, the position shown,
/// whose turn it is there and who has won there.
pub struct TicTacToe {
    next_square_value: SquareValue,
    winner: Option<SquareValue>,
    turns: Vec<SquareArray>,
    turn_index: usize,
}

impl TicTacToe {
    /// The boards of the current timeline, oldest first.
    pub closed spec fn history(&self) -> Seq<SquareArray> {
        self.turns@
    }

    /// The index in the history of the board shown.
    pub closed spec fn cursor(&self) -> int {
        self.turn_index as int
    }

    /// The mark that the next move at the cursor puts down.
    pub closed spec fn mark(&self) -> SquareValue {
        self.next_square_value
    }

    /// The winner recorded for the board shown.
    pub closed spec fn won(&self) -> Option<SquareValue> {
        self.winner
    }

    /// The board shown.
    pub open spec fn current(&self) -> SquareArray {
        self.history()[self.cursor()]
    }

    /// The history starts from the empty board and each later board is one
    /// legal move, by alternating marks, after the one before it; the cursor
    /// lies within it, the mark to play follows from the cursor, and the
    /// recorded winner is that of the board shown.
    pub open spec fn wf(&self) -> bool {
        &&& self.history().len() >= 1
        &&& is_empty_board(self.history()[0])
        &&& 0 <= self.cursor() < self.history().len()
        &&& self.mark() == mark_for_turn(self.cursor())
        &&& self.won() == winner_of(self.current()@)
        &&& forall|i: int|
            1 <= i < self.history().len() ==> is_move(
                #[trigger] self.history()[i - 1],
                self.history()[i],
                mark_for_turn(i - 1),
            )
    }

    /// The state of a session just started: the empty board alone, `X` to play.
    pub open spec fn is_fresh(&self) -> bool {
        &&& self.history().len() == 1
        &&& is_empty_board(self.history()[0])
        &&& self.cursor() == 0
        &&& self.mark() == SquareValue::X
        &&& self.won() is None
    }

    /// What a click on cell `index` does: it is `accepted` exactly when the
    /// board shown has no winner and that cell is empty. Then the old future
    /// is dropped, the new board follows the one shown, the cursor moves onto
    /// it, the turn passes and the winner is that of the new board. Otherwise
    /// nothing changes.
    pub open spec fn place_step(pre: Self, post: Self, index: int, accepted: bool) -> bool {
        let board = pre.current()@.update(index, Some(pre.mark()));
        &&& accepted == (pre.won() is None && pre.current()@[index] is None)
        &&& accepted ==> {
            &&& post.history().len() == pre.cursor() + 2
            &&& post.history().subrange(0, pre.cursor() + 1) == pre.history().subrange(
                0,
                pre.cursor() + 1,
            )
            &&& post.current()@ == board
            &&& post.cursor() == pre.cursor() + 1
            &&& post.mark() == pre.mark().spec_next()
            &&& post.won() == winner_of(board)
        }
        &&& !accepted ==> post == pre
    }

    /// What stepping back does: it `moved` exactly when the cursor was past
    /// the first board; then the cursor goes back one, the turn passes and the
    /// winner is that of the board now shown. The history never changes.
    pub open spec fn back_step(pre: Self, post: Self, moved: bool) -> bool {
        &&& moved == (pre.cursor() > 0)
        &&& moved ==> {
            &&& post.history() == pre.history()
            &&& post.cursor() == pre.cursor() - 1
            &&& post.mark() == pre.mark().spec_next()
            &&& post.won() == winner_of(post.current()@)
        }
        &&& !moved ==> post == pre
    }

    /// What stepping forward does: it `moved` exactly when the cursor was
    /// before the last board; then the cursor goes on one, the turn passes and
    /// the winner is that of the board now shown. The history never changes.
    pub open spec fn forward_step(pre: Self, post: Self, moved: bool) -> bool {
        &&& moved == (pre.cursor() + 1 < pre.history().len())
        &&& moved ==> {
            &&& post.history() == pre.history()
            &&& post.cursor() == pre.cursor() + 1
            &&& post.mark() == pre.mark().spec_next()
            &&& post.won() == winner_of(post.current()@)
        }
        &&& !moved ==> post == pre
    }

    /// Starts a session: the empty board alone, `X` to play, no winner.
    pub fn new() -> (r: TicTacToe)
        ensures
            r.is_fresh(),
            r.wf(),
    {
        let r = TicTacToe {
            next_square_value: SquareValue::X,
            winner: None,
            turns: vec![[None; 9]],
            turn_index: 0,
        };
        proof {
            let b = r.current()@;
            lemma_winner_needs_line(b);
            assert forall|k: int| 0 <= k < 8 implies #[trigger] line_owner(b, k) is None by {
                assert(b[line_at(k).0] is None);
            }
        }
        r
    }

    /// Puts the next mark in cell `index` of the board shown, unless that
    /// board is won or the cell is taken. Returns whether the move was made.
    pub fn place_mark(&mut self, index: usize) -> (accepted: bool)
        requires
            old(self).wf(),
            index < 9,
        ensures
            final(self).wf(),
            Self::place_step(*old(self), *final(self), index as int, accepted),
            old(self).current()@[index as int] is Some ==> !accepted && *final(self)
                == *old(self),
    {
        let mut next_squares = self.turns[self.turn_index];
        let square = next_squares[index];
        if self.winner.is_some() || square.is_some() || calculate_winner(&next_squares).is_some() {
            return false;
        }
        let ghost pre = *self;
        next_squares[index] = Some(self.next_square_value);
        if self.turn_index < self.turns.len() - 1 {
            self.turns.set(self.turn_index + 1, next_squares);
            self.turns.truncate(self.turn_index + 2);
        } else {
            self.turns.push(next_squares);
        }
        self.turn_index = self.turn_index + 1;
        self.next_square_value = self.next_square_value.next();
        self.winner = calculate_winner(&next_squares);
        proof {
            let c = pre.cursor();
            assert(self.history() =~= pre.history().subrange(0, c + 1).push(next_squares));
            assert(places(pre.current(), next_squares, index as int, pre.mark()));
            assert(mark_for_turn(c + 1) == pre.mark().spec_next());
            assert forall|i: int| 1 <= i < self.history().len() implies is_move(
                #[trigger] self.history()[i - 1],
                self.history()[i],
                mark_for_turn(i - 1),
            ) by {
                if i <= c {
                    assert(is_move(pre.history()[i - 1], pre.history()[i], mark_for_turn(i - 1)));
                }
            }
            assert(self.history().subrange(0, c + 1) =~= pre.history().subrange(0, c + 1));
        }
        true
    }

    /// Shows the previous board, unless the first one is shown. Returns
    /// whether the cursor moved.
    pub fn step_backward(&mut self) -> (moved: bool)
        requires
            old(self).wf(),
        ensures
            final(self).wf(),
            Self::back_step(*old(self), *final(self), moved),
            old(self).cursor() == 0 ==> !moved && *final(self) == *old(self),
    {
        if self.turn_index == 0 {
            return false;
        }
        self.turn_index = self.turn_index - 1;
        self.next_square_value = self.next_square_value.next();
        self.winner = calculate_winner(&self.turns[self.turn_index]);
        true
    }

    /// Shows the next board, unless the last one is shown. Returns whether
    /// the cursor moved.
    pub fn step_forward(&mut self) -> (moved: bool)
        requires
            old(self).wf(),
        ensures
            final(self).wf(),
            Self::forward_step(*old(self), *final(self), moved),
            old(self).cursor() == old(self).history().len() - 1 ==> !moved && *final(self)
                == *old(self),
    {
        if self.turn_index >= self.turns.len() - 1 {
            return false;
        }
        self.turn_index = self.turn_index + 1;
        self.next_square_value = self.next_square_value.next();
        self.winner = calculate_winner(&self.turns[self.turn_index]);
        true
    }

    /// Starts over from the empty board, whatever the state.
    pub fn reset(&mut self)
        ensures
            final(self).is_fresh(),
            final(self).wf(),
    {
        *self = TicTacToe::new();
    }

    /// Applies one intent. Returns whether it changed the state; a start over
    /// always counts as applied.
    pub fn update(&mut self, message: Message) -> (applied: bool)
        requires
            old(self).wf(),
            message matches Message::SquareClicked(i) ==> i < 9,
        ensures
            final(self).wf(),
            match message {
                Message::SquareClicked(i) => Self::place_step(
                    *old(self),
                    *final(self),
                    i as int,
                    applied,
                ),
                Message::PreviousTurn => Self::back_step(*old(self), *final(self), applied),
                Message::NextTurn => Self::forward_step(*old(self), *final(self), applied),
                Message::StartNewGame => applied && final(self).is_fresh(),
            },
    {
        match message {
            Message::SquareClicked(square_index) => self.place_mark(square_index),
            Message::PreviousTurn => self.step_backward(),
            Message::NextTurn => self.step_forward(),
            Message::StartNewGame => {
                self.reset();
                true
            },
        }
    }

    /// The board shown.
    pub fn board(&self) -> (r: SquareArray)
        requires
            self.wf(),
        ensures
            r == self.current(),
    {
        self.turns[self.turn_index]
    }

    /// The board at position `i` of the history.
    pub fn board_at(&self, i: usize) -> (r: SquareArray)
        requires
            i < self.history().len(),
        ensures
            r == self.history()[i as int],
    {
        self.turns[i]
    }

    /// The winner of the board shown, if any.
    pub fn winner(&self) -> (r: Option<SquareValue>)
        ensures
            r == self.won(),
    {
        self.winner
    }

    /// The mark that the next move puts down.
    pub fn next_square_value(&self) -> (r: SquareValue)
        ensures
            r == self.mark(),
    {
        self.next_square_value
    }

    /// The position in the history of the board shown.
    pub fn turn_index(&self) -> (r: usize)
        ensures
            r == self.cursor(),
    {
        self.turn_index
    }

    /// The number of boards in the history.
    pub fn turn_count(&self) -> (r: usize)
        ensures
            r == self.history().len(),
    {
        self.turns.len()
    }
}

/// Two moves made one after the other put down alternating marks; from a
/// fresh session the first is `X` and the second `O`.
pub proof fn lemma_moves_alternate(a: TicTacToe, b: TicTacToe, c: TicTacToe, i: int, j: int)
    requires
        a.wf(),
        0 <= i < 9,
        0 <= j < 9,
        TicTacToe::place_step(a, b, i, true),
        TicTacToe::place_step(b, c, j, true),
    ensures
        b.current()@[i] == Some(a.mark()),
        c.current()@[j] == Some(a.mark().spec_next()),
        a.mark() != a.mark().spec_next(),
        a.is_fresh() ==> b.current()@[i] == Some(SquareValue::X) && c.current()@[j] == Some(
            SquareValue::O,
        ),
{
}

/// From a history of three boards shown at its end, two steps back and a
/// move keep the first board, replace the second with the new one and drop
/// the third. The new second board differs from the old one whenever the
/// move takes a cell that the old second board left empty.
pub proof fn lemma_branch_drops_future(
    a: TicTacToe,
    b: TicTacToe,
    c: TicTacToe,
    d: TicTacToe,
    i: int,
    back1: bool,
    back2: bool,
    placed: bool,
)
    requires
        a.wf(),
        b.wf(),
        c.wf(),
        a.history().len() == 3,
        a.cursor() == 2,
        0 <= i < 9,
        TicTacToe::back_step(a, b, back1),
        TicTacToe::back_step(b, c, back2),
        TicTacToe::place_step(c, d, i, placed),
    ensures
        back1 && back2 && placed,
        c.cursor() == 0,
        d.history().len() == 2,
        d.cursor() == 1,
        d.history()[0] == a.history()[0],
        d.history()[1]@ == a.history()[0]@.update(i, Some(SquareValue::X)),
        a.history()[1]@[i] is None ==> d.history()[1] != a.history()[1],
{
    assert(c.current() == a.history()[0]);
    assert(c.current()@[i] is None);
    assert(d.history()[0] == d.history().subrange(0, 1)[0]);
    if a.history()[1]@[i] is None && d.history()[1] == a.history()[1] {
        assert(d.history()[1]@[i] == Some(SquareValue::X));
    }
}

} // verus!
