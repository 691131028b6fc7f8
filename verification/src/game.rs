//! Turn sequencing on top of the board: a game is a board plus the mark that
//! moves next.

use vstd::prelude::*;

verus! {

use crate::board::Board;
use crate::model::ErrorKind;
use crate::model::Mark;
use crate::model::Square;
use crate::model::Triple;
use crate::model::square_mask;
use crate::model::triple_index;

/// A board together with the mark whose turn it is. Immutable value: every
/// successful move produces a new game, and a failed move leaves the caller's
/// game as it was.
#[derive(Debug)]
pub struct Game {
    current_mark: Mark,
    board: Board,
}

impl Game {
    /// The mark that moves next.
    pub closed spec fn turn(self) -> Mark {
        self.current_mark
    }

    /// The current board.
    pub closed spec fn board(self) -> Board {
        self.board
    }

    /// Game invariant: the board is well formed.
    pub open spec fn wf(self) -> bool {
        self.board().wf()
    }

    /// A fresh game: the given mark moves first on an empty board.
    pub fn new(starting_mark: Mark) -> (g: Game)
        ensures
            g.wf(),
            g.turn() == starting_mark,
            g.board().mask_of(Mark::Cross) == 0u32,
            g.board().mask_of(Mark::Naught) == 0u32,
            forall|mk: Mark, s: Square| !g.board().occupied_by(mk, s),
    {
        Game { current_mark: starting_mark, board: Board::new() }
    }

    /// Plays the current mark on the given square. On success the turn passes
    /// to the other mark and the board gains exactly that square; on an
    /// occupied square the move fails and no new game arises, so the same
    /// player moves again.
    pub fn make_move(&self, square: Square) -> (r: Result<Game, ErrorKind>)
        requires
            self.wf(),
        ensures
            match r {
                Ok(g) => {
                    &&& !self.board().occupied(square)
                    &&& g.wf()
                    &&& g.turn() == self.turn().flipped()
                    &&& g.board().mask_of(self.turn()) == self.board().mask_of(self.turn())
                        | square_mask(square)
                    &&& g.board().mask_of(self.turn().flipped()) == self.board().mask_of(
                        self.turn().flipped(),
                    )
                    &&& forall|mk: Mark, s: Square|
                        g.board().occupied_by(mk, s) <==> (self.board().occupied_by(mk, s) || (mk
                            == self.turn() && s == square))
                },
                Err(e) => self.board().occupied(square) && e == ErrorKind::IndexError(square),
            },
    {
        match self.board.make_move(&self.current_mark, square) {
            Err(e) => Err(e),
            Ok(current_state) => Ok(
                Game { current_mark: self.current_mark.other(), board: current_state },
            ),
        }
    }

    /// The winner on the current board, regardless of whose turn it is; a
    /// game with a winner stays playable, so callers who want to stop must
    /// ask after every move.
    pub fn calculate_winner(&self) -> (r: Option<(Mark, Triple)>)
        requires
            self.wf(),
        ensures
            match r {
                Some(win) => {
                    &&& self.board().wins(win.0, win.1)
                    &&& forall|t: Triple|
                        triple_index(t) < triple_index(win.1) ==> !self.board().wins(win.0, t)
                    &&& win.0 == Mark::Naught ==> forall|t: Triple|
                        !self.board().wins(Mark::Cross, t)
                },
                None => forall|t: Triple|
                    !self.board().wins(Mark::Cross, t) && !self.board().wins(Mark::Naught, t),
            },
    {
        self.board.calculate_winner()
    }
}

impl Default for Game {
    /// The conventional start: Cross moves first on an empty board.
    fn default() -> (g: Game)
        ensures
            g.wf(),
            g.turn() == Mark::Cross,
            g.board().mask_of(Mark::Cross) == 0u32,
            g.board().mask_of(Mark::Naught) == 0u32,
            forall|mk: Mark, s: Square| !g.board().occupied_by(mk, s),
    {
        Game { current_mark: Mark::Cross, board: Board::new() }
    }
}

} // verus!
