//! What a click on the board means: which piece is picked up, where it may
//! go, and what the engine is asked next.
//!
//! The engine is not called from here. A click is answered with an
//! [`Action`] that the caller carries out; where the action is a question,
//! the caller hands the engine's reply to [`Interaction::select`].

use vstd::prelude::*;
use crate::board::{can_pick, may_pick, piece_at, piece_on, shows_every_square};
use crate::notation::{
    algebraic, is_algebraic, on_board, square_at_pixel, square_named, square_under,
    transform_back, transform_input, within_board,
};

verus! {

/// What a click does while a piece is selected and the click hits neither a
/// destination of that piece nor the piece itself.
#[derive(Clone, Copy, Debug, PartialEq, Eq, Structural)]
pub enum ClickMode {
    /// The selection is dropped and nothing else happens.
    Cancel,
    /// The selection is dropped and the clicked square is tried as a new
    /// selection.
    Reselect,
}

/// What the caller does with the engine after a click.
#[derive(Debug, PartialEq, Eq)]
pub enum Action {
    /// Nothing.
    Nothing,
    /// Tell the engine to move the piece on `from` to `to`, once. Whatever
    /// the engine says to that, the selection is already gone.
    ApplyMove { from: String, to: String },
    /// Ask the engine where the piece on `square`, named `from`, may go, and
    /// hand `square` and the reply to [`Interaction::select`].
    QueryMoves { square: (u32, u32), from: String },
}

/// An [`Action`] with its names as sequences of characters.
pub enum Request {
    Nothing,
    ApplyMove { from: Seq<char>, to: Seq<char> },
    QueryMoves { square: (u32, u32), from: Seq<char> },
}

impl View for Action {
    type V = Request;

    open spec fn view(&self) -> Request {
        match *self {
            Action::Nothing => Request::Nothing,
            Action::ApplyMove { from, to } => Request::ApplyMove { from: from@, to: to@ },
            Action::QueryMoves { square, from } => Request::QueryMoves { square, from: from@ },
        }
    }
}

/// The two states of the board's interaction: no piece is selected, or the
/// piece on `square` is, with the squares it may go to.
pub enum Selection {
    Idle,
    Selected { square: (u32, u32), candidates: Seq<(u32, u32)> },
}

impl Selection {
    /// The selected square, if there is one.
    pub open spec fn selected(self) -> Option<(u32, u32)> {
        match self {
            Selection::Idle => None,
            Selection::Selected { square, .. } => Some(square),
        }
    }

    /// The squares that the selected piece may go to; none while idle.
    pub open spec fn candidates(self) -> Seq<(u32, u32)> {
        match self {
            Selection::Idle => Seq::empty(),
            Selection::Selected { candidates, .. } => candidates,
        }
    }
}

/// What happens to a click on `square` that is tried as a new selection: the
/// engine is asked for the piece's destinations if the side to move owns a
/// piece there, and nothing is selected until it has answered.
pub open spec fn pick_outcome(board: Seq<u8>, white_to_move: bool, square: (u32, u32)) -> (
    Selection,
    Request,
) {
    if may_pick(piece_on(board, square), white_to_move) {
        (
            Selection::Idle,
            Request::QueryMoves { square, from: algebraic(square.0, square.1) },
        )
    } else {
        (Selection::Idle, Request::Nothing)
    }
}

/// The state after a click and the action it calls for. `hit` is the clicked
/// square, or `None` for a click beside the board.
pub open spec fn click_outcome(
    state: Selection,
    mode: ClickMode,
    board: Seq<u8>,
    white_to_move: bool,
    hit: Option<(u32, u32)>,
) -> (Selection, Request) {
    match hit {
        None => (state, Request::Nothing),
        Some(clicked) => match state {
            Selection::Idle => pick_outcome(board, white_to_move, clicked),
            Selection::Selected { square, candidates } => {
                if candidates.contains(clicked) {
                    (
                        Selection::Idle,
                        Request::ApplyMove {
                            from: algebraic(square.0, square.1),
                            to: algebraic(clicked.0, clicked.1),
                        },
                    )
                } else if clicked == square || mode == ClickMode::Cancel {
                    (Selection::Idle, Request::Nothing)
                } else {
                    pick_outcome(board, white_to_move, clicked)
                }
            },
        },
    }
}

/// The names in the engine's reply, in its order; none where it gave no list.
pub open spec fn reported(reply: Option<Vec<String>>) -> Seq<Seq<char>> {
    match reply {
        Some(names) => names@.map_values(|name: String| name@),
        None => Seq::empty(),
    }
}

/// Whether every one of `names` names a square.
pub open spec fn all_algebraic(names: Seq<Seq<char>>) -> bool {
    forall|i: int| 0 <= i < names.len() ==> is_algebraic(#[trigger] names[i])
}

/// The squares that `names` name, in the same order.
pub open spec fn squares_named(names: Seq<Seq<char>>) -> Seq<(u32, u32)> {
    names.map_values(|name: Seq<char>| square_named(name))
}

/// The state in which `square` is selected and the engine has reported
/// `names` as its destinations.
pub open spec fn selection_of(square: (u32, u32), names: Seq<Seq<char>>) -> Selection {
    Selection::Selected { square, candidates: squares_named(names) }
}

/// A click beside the board changes neither the selection nor the squares to
/// highlight, and asks nothing of the engine.
pub proof fn lemma_click_beside_board(
    state: Selection,
    mode: ClickMode,
    board: Seq<u8>,
    white_to_move: bool,
    x: int,
    y: int,
)
    requires
        !within_board(x, y),
    ensures
        click_outcome(state, mode, board, white_to_move, square_under(x, y)) == (
            state,
            Request::Nothing,
        ),
{
}

/// A click on the selected square leaves no square selected, whatever the
/// mode, the board and the side to move.
pub proof fn lemma_click_on_selected(
    state: Selection,
    mode: ClickMode,
    board: Seq<u8>,
    white_to_move: bool,
)
    requires
        state is Selected,
    ensures
        click_outcome(state, mode, board, white_to_move, state.selected()).0 == Selection::Idle,
{
}

/// A click on a square to which the selected piece may go asks for that one
/// move, from the selected square to the clicked one, and leaves no square
/// selected.
pub proof fn lemma_click_on_candidate(
    state: Selection,
    mode: ClickMode,
    board: Seq<u8>,
    white_to_move: bool,
    clicked: (u32, u32),
)
    requires
        state matches Selection::Selected { candidates, .. } && candidates.contains(clicked),
    ensures
        click_outcome(state, mode, board, white_to_move, Some(clicked)) == (
            Selection::Idle,
            Request::ApplyMove {
                from: algebraic(state.selected().unwrap().0, state.selected().unwrap().1),
                to: algebraic(clicked.0, clicked.1),
            },
        ),
{
}

/// A click that asks the engine where a piece may go asks about the clicked
/// square, on which the side to move has a piece, and selects nothing yet;
/// once `select` has the reply, that square is selected and the squares to
/// highlight are the squares that the reply names, as many and in the same
/// order.
pub proof fn lemma_pick_shows_reported(
    state: Selection,
    mode: ClickMode,
    board: Seq<u8>,
    white_to_move: bool,
    clicked: (u32, u32),
    names: Seq<Seq<char>>,
)
    requires
        click_outcome(state, mode, board, white_to_move, Some(clicked)).1 is QueryMoves,
    ensures
        may_pick(piece_on(board, clicked), white_to_move),
        click_outcome(state, mode, board, white_to_move, Some(clicked)) == (
            Selection::Idle,
            Request::QueryMoves { square: clicked, from: algebraic(clicked.0, clicked.1) },
        ),
        selection_of(clicked, names).selected() == Some(clicked),
        selection_of(clicked, names).candidates().len() == names.len(),
        forall|i: int|
            0 <= i < names.len() ==> #[trigger] selection_of(clicked, names).candidates()[i]
                == square_named(names[i]),
{
}

/// A click either leaves the state as it is or leaves no square selected and
/// none highlighted: the highlights never outlive the selection that they
/// belong to.
pub proof fn lemma_click_keeps_or_clears(
    state: Selection,
    mode: ClickMode,
    board: Seq<u8>,
    white_to_move: bool,
    hit: Option<(u32, u32)>,
)
    ensures
        ({
            let after = click_outcome(state, mode, board, white_to_move, hit).0;
            after == state || (after.selected() is None && after.candidates().len() == 0)
        }),
{
}

/// The selection and the squares to highlight.
#[derive(Debug)]
pub struct Interaction {
    selected: Option<(u32, u32)>,
    candidates: Vec<(u32, u32)>,
}

impl View for Interaction {
    type V = Selection;

    closed spec fn view(&self) -> Selection {
        match self.selected {
            Some(square) => Selection::Selected { square, candidates: self.candidates@ },
            None => Selection::Idle,
        }
    }
}

fn holds(squares: &Vec<(u32, u32)>, square: (u32, u32)) -> (found: bool)
    ensures
        found == squares@.contains(square),
{
    let mut i: usize = 0;
    while i < squares.len()
        invariant
            i <= squares.len(),
            forall|j: int| 0 <= j < i ==> squares@[j] != square,
        decreases squares.len() - i,
    {
        let other = squares[i];
        if other.0 == square.0 && other.1 == square.1 {
            return true;
        }
        i += 1;
    }
    false
}

impl Interaction {
    /// A selected square lies on the board, and nothing is highlighted while
    /// no square is selected.
    #[verifier::type_invariant]
    spec fn well_formed(self) -> bool {
        match self.selected {
            Some(square) => on_board(square),
            None => self.candidates@.len() == 0,
        }
    }

    /// The state before the first click.
    pub fn new() -> (state: Interaction)
        ensures
            state@ == Selection::Idle,
    {
        Interaction { selected: None, candidates: Vec::new() }
    }

    /// The selected square, if there is one.
    pub fn selected(&self) -> (square: Option<(u32, u32)>)
        ensures
            square == self@.selected(),
            square matches Some(on) ==> on_board(on),
    {
        proof {
            use_type_invariant(self);
        }
        self.selected
    }

    /// The squares to highlight: where the selected piece may go.
    pub fn candidates(&self) -> (squares: &Vec<(u32, u32)>)
        ensures
            squares@ == self@.candidates(),
    {
        proof {
            use_type_invariant(self);
        }
        &self.candidates
    }

    /// Takes a click at pixel `(x, y)`, with the board and the side to move as
    /// the engine shows them now, and returns what to do with the engine.
    pub fn click(
        &mut self,
        mode: ClickMode,
        board: &[u8],
        white_to_move: bool,
        x: i64,
        y: i64,
    ) -> (action: Action)
        requires
            shows_every_square(board@),
        ensures
            (final(self)@, action@) == click_outcome(
                old(self)@,
                mode,
                board@,
                white_to_move,
                square_under(x as int, y as int),
            ),
    {
        proof {
            use_type_invariant(&*self);
        }
        let clicked = match square_at_pixel(x, y) {
            Some(clicked) => clicked,
            None => {
                return Action::Nothing;
            },
        };
        let mut action = Action::Nothing;
        let mut pick = true;
        if let Some(square) = self.selected {
            if holds(&self.candidates, clicked) {
                action = Action::ApplyMove {
                    from: transform_back(square.0, square.1),
                    to: transform_back(clicked.0, clicked.1),
                };
                pick = false;
            } else if (clicked.0 == square.0 && clicked.1 == square.1) || mode == ClickMode::Cancel {
                pick = false;
            }
        }
        if pick && can_pick(piece_at(board, clicked), white_to_move) {
            action = Action::QueryMoves {
                square: clicked,
                from: transform_back(clicked.0, clicked.1),
            };
        }
        *self = Interaction { selected: None, candidates: Vec::new() };
        action
    }

    /// Selects `square` with the destinations that the engine reported for
    /// it, in the engine's order. No reply selects the square with nowhere to
    /// go.
    pub fn select(&mut self, square: (u32, u32), reply: Option<Vec<String>>)
        requires
            on_board(square),
            all_algebraic(reported(reply)),
        ensures
            final(self)@ == selection_of(square, reported(reply)),
    {
        let mut candidates: Vec<(u32, u32)> = Vec::new();
        if let Some(names) = reply {
            let mut i: usize = 0;
            while i < names.len()
                invariant
                    i <= names.len(),
                    reported(reply) == names@.map_values(|name: String| name@),
                    all_algebraic(reported(reply)),
                    candidates@ == squares_named(reported(reply).subrange(0, i as int)),
                decreases names.len() - i,
            {
                assert(reported(reply)[i as int] == names@[i as int]@);
                let found = transform_input(names[i].as_str());
                candidates.push(found);
                i += 1;
                assert(candidates@ =~= squares_named(reported(reply).subrange(0, i as int)));
            }
            assert(reported(reply).subrange(0, i as int) =~= reported(reply));
        } else {
            assert(candidates@ =~= squares_named(reported(reply)));
        }
        *self = Interaction { selected: Some(square), candidates };
    }
}

} // verus!
