use vstd::prelude::*;

use crate::engine::{
    legal_list, legal_moves, piece_color_at, piece_colors, play_at, played, side_to_move, turn_of,
    MoveCoords,
};
use crate::grid_position::{GridPosition, SquareId};
use crate::util::{GRID_COLS, GRID_ROWS};

verus! {

broadcast use vstd::seq_lib::lemma_seq_contains_after_push;

/// The interaction state: either no piece is picked up, or one square is
/// picked up together with the legal destinations to preview for it.
pub enum Selection {
    Idle,
    PieceSelected { square: SquareId, destinations: Vec<SquareId> },
}

impl Selection {
    /// The square a piece was picked up from, if any.
    pub open spec fn selected_square(self) -> Option<SquareId> {
        match self {
            Selection::Idle => None,
            Selection::PieceSelected { square, .. } => Some(square),
        }
    }

    /// The destination squares to preview, as a set; empty when idle.
    pub open spec fn preview_set(self) -> Set<SquareId> {
        match self {
            Selection::Idle => Set::empty(),
            Selection::PieceSelected { destinations, .. } => destinations@.to_set(),
        }
    }
}

/// Whether the move at index `i` of `legal` goes from `from` to `to`.
pub open spec fn is_match(legal: Seq<MoveCoords>, i: int, from: SquareId, to: SquareId) -> bool {
    legal[i].from == Some(from) && legal[i].to == to
}

/// Whether some legal move goes from `from` to `to`.
pub open spec fn has_move(legal: Seq<MoveCoords>, from: SquareId, to: SquareId) -> bool {
    exists|i: int| 0 <= i < legal.len() && #[trigger] is_match(legal, i, from, to)
}

/// The target squares of the legal moves that leave from `from`.
pub open spec fn destinations_of(legal: Seq<MoveCoords>, from: SquareId) -> Set<SquareId> {
    Set::new(
        |t: SquareId| exists|i: int| 0 <= i < legal.len() && #[trigger] is_match(legal, i, from, t),
    )
}

/// Whether the square holds a piece of the side to move in `p`.
pub open spec fn occupied_by_turn(p: shakmaty::Chess, c: SquareId) -> bool {
    piece_colors(p).dom().contains(c) && piece_colors(p)[c] == turn_of(p)
}

/// The board square a click at pixel `(px, py)` lands on, or none when the
/// click falls outside the board.
pub open spec fn click_target(px: u32, py: u32) -> Option<SquareId> {
    let cell = GridPosition::spec_from_pixel(px, py);
    if cell.x < GRID_COLS && cell.y < GRID_ROWS {
        Some(SquareId { file: cell.x as u8, rank: cell.y as u8 })
    } else {
        None
    }
}

/// Whether `post` is `pre` with the first legal move from `from` to `to`
/// played, where "first" follows the engine's enumeration order.
pub open spec fn plays_first_match(
    pre: shakmaty::Chess,
    post: shakmaty::Chess,
    from: SquareId,
    to: SquareId,
) -> bool {
    exists|i: int|
        {
            &&& 0 <= i < legal_list(pre).len()
            &&& #[trigger] is_match(legal_list(pre), i, from, to)
            &&& forall|j: int| 0 <= j < i ==> !is_match(legal_list(pre), j, from, to)
            &&& post == played(pre, i)
        }
}

/// One game view's session: the position, owned by the rules engine, and the
/// current interaction state.
pub struct GameSession {
    pub position: shakmaty::Chess,
    pub selection: Selection,
}

impl GameSession {
    /// The session invariant: whenever a piece is picked up, its square lies
    /// on the board and the preview holds exactly the target squares of the
    /// position's legal moves leaving from it, without duplicates.
    pub open spec fn wf(self) -> bool {
        match self.selection {
            Selection::Idle => true,
            Selection::PieceSelected { square, destinations } => {
                &&& square.wf()
                &&& destinations@.no_duplicates()
                &&& destinations@.to_set() == destinations_of(legal_list(self.position), square)
            },
        }
    }

    /// A fresh session: nothing selected, nothing previewed.
    pub fn new(position: shakmaty::Chess) -> (s: Self)
        ensures
            s.position == position,
            s.selection is Idle,
            s.wf(),
    {
        GameSession { position, selection: Selection::Idle }
    }

    /// Processes one click at pixel `(px, py)`:
    /// - a click outside the board is ignored;
    /// - re-clicking the selected square deselects, before every other rule;
    /// - clicking a square holding a piece of the side to move selects that
    ///   square and previews its legal destinations, replacing any prior
    ///   selection;
    /// - any other click, with a piece selected, plays the first legal move
    ///   from the selected square to the clicked one if there is any, and in
    ///   every case clears the selection.
    pub fn handle_click(&mut self, px: u32, py: u32)
        requires
            old(self).wf(),
        ensures
            final(self).wf(),
            click_transition(*old(self), *final(self), px, py),
    {
        let cell = GridPosition::from_pixel(px, py);
        if cell.y >= GRID_ROWS {
            return;
        }
        let clicked = match cell.to_square_id() {
            Ok(sq) => sq,
            Err(_) => {
                return;
            },
        };
        let is_reclick = match &self.selection {
            Selection::PieceSelected { square, .. } => *square == clicked,
            Selection::Idle => false,
        };
        if is_reclick {
            self.selection = Selection::Idle;
            return;
        }
        let own_piece = match piece_color_at(&self.position, clicked) {
            Some(color) => color == side_to_move(&self.position),
            None => false,
        };
        if own_piece {
            let moves = legal_moves(&self.position);
            let destinations = compute_destinations(&moves, clicked);
            self.selection = Selection::PieceSelected { square: clicked, destinations };
        } else {
            let selected = match &self.selection {
                Selection::PieceSelected { square, .. } => Some(*square),
                Selection::Idle => None,
            };
            if let Some(from) = selected {
                let moves = legal_moves(&self.position);
                if let Some(i) = find_move(&moves, from, clicked) {
                    play_at(&mut self.position, i);
                }
            }
            self.selection = Selection::Idle;
        }
    }

    /// The square a piece is currently picked up from, if any.
    pub fn selected(&self) -> (r: Option<SquareId>)
        ensures
            r == self.selection.selected_square(),
    {
        match &self.selection {
            Selection::Idle => None,
            Selection::PieceSelected { square, .. } => Some(*square),
        }
    }

    /// Whether the square is currently previewed as a legal destination.
    pub fn is_preview_destination(&self, square: SquareId) -> (b: bool)
        ensures
            b == self.selection.preview_set().contains(square),
    {
        match &self.selection {
            Selection::Idle => false,
            Selection::PieceSelected { destinations, .. } => contains_square(destinations, square),
        }
    }
}

/// The selection controller's full transition relation: what one click at
/// pixel `(px, py)` does to the session, from `pre` to `post`.
pub open spec fn click_transition(pre: GameSession, post: GameSession, px: u32, py: u32) -> bool {
    match click_target(px, py) {
        None => post == pre,
        Some(c) => {
            if pre.selection.selected_square() == Some(c) {
                &&& post.position == pre.position
                &&& post.selection is Idle
            } else if occupied_by_turn(pre.position, c) {
                &&& post.position == pre.position
                &&& post.selection.selected_square() == Some(c)
                &&& post.selection.preview_set() == destinations_of(legal_list(pre.position), c)
            } else {
                &&& post.selection is Idle
                &&& match pre.selection.selected_square() {
                    Some(s) => if has_move(legal_list(pre.position), s, c) {
                        plays_first_match(pre.position, post.position, s, c)
                    } else {
                        post.position == pre.position
                    },
                    None => post.position == pre.position,
                }
            }
        },
    }
}

/// Law: a click outside the board is swallowed; the session does not change.
pub proof fn lemma_outside_click_ignored(pre: GameSession, post: GameSession, px: u32, py: u32)
    requires
        click_transition(pre, post, px, py),
        click_target(px, py) is None,
    ensures
        post == pre,
{
}

/// Law: re-clicking the selected square always deselects, whatever the
/// preview holds and whatever stands on the board.
pub proof fn lemma_reclick_deselects(pre: GameSession, post: GameSession, px: u32, py: u32)
    requires
        click_transition(pre, post, px, py),
        click_target(px, py) is Some,
        pre.selection.selected_square() == Some(click_target(px, py).unwrap()),
    ensures
        post.selection is Idle,
        post.selection.preview_set() == Set::<SquareId>::empty(),
        post.position == pre.position,
{
}

/// Law: clicking a square that holds a piece of the side to move, other than
/// the selected square, selects it, and the preview then holds exactly the
/// target squares of the legal moves leaving from it.
pub proof fn lemma_select_previews(pre: GameSession, post: GameSession, px: u32, py: u32)
    requires
        click_transition(pre, post, px, py),
        click_target(px, py) is Some,
        pre.selection.selected_square() != Some(click_target(px, py).unwrap()),
        occupied_by_turn(pre.position, click_target(px, py).unwrap()),
    ensures
        post.position == pre.position,
        post.selection.selected_square() == Some(click_target(px, py).unwrap()),
        post.selection.preview_set() == destinations_of(
            legal_list(pre.position),
            click_target(px, py).unwrap(),
        ),
{
}

/// Law: with a piece selected, clicking one of its legal destinations plays
/// the first legal move from the selected square to it, and the session
/// returns to idle with an empty preview.
pub proof fn lemma_move_execution(pre: GameSession, post: GameSession, px: u32, py: u32)
    requires
        click_transition(pre, post, px, py),
        click_target(px, py) is Some,
        pre.selection.selected_square() is Some,
        pre.selection.selected_square() != Some(click_target(px, py).unwrap()),
        !occupied_by_turn(pre.position, click_target(px, py).unwrap()),
        has_move(
            legal_list(pre.position),
            pre.selection.selected_square().unwrap(),
            click_target(px, py).unwrap(),
        ),
    ensures
        post.selection is Idle,
        post.selection.preview_set() == Set::<SquareId>::empty(),
        plays_first_match(
            pre.position,
            post.position,
            pre.selection.selected_square().unwrap(),
            click_target(px, py).unwrap(),
        ),
{
}

/// Law: with a piece selected, clicking a square that is not its own square,
/// not a piece of the side to move, and not a legal destination cancels the
/// selection without touching the position.
pub proof fn lemma_illegal_destination_cancels(
    pre: GameSession,
    post: GameSession,
    px: u32,
    py: u32,
)
    requires
        click_transition(pre, post, px, py),
        click_target(px, py) is Some,
        pre.selection.selected_square() is Some,
        pre.selection.selected_square() != Some(click_target(px, py).unwrap()),
        !occupied_by_turn(pre.position, click_target(px, py).unwrap()),
        !has_move(
            legal_list(pre.position),
            pre.selection.selected_square().unwrap(),
            click_target(px, py).unwrap(),
        ),
    ensures
        post.selection is Idle,
        post.selection.preview_set() == Set::<SquareId>::empty(),
        post.position == pre.position,
{
}

/// Law: a square that does not hold a piece of the side to move never becomes
/// the selected square through a click on it.
pub proof fn lemma_wrong_turn_click(pre: GameSession, post: GameSession, px: u32, py: u32)
    requires
        click_transition(pre, post, px, py),
        click_target(px, py) is Some,
        !occupied_by_turn(pre.position, click_target(px, py).unwrap()),
    ensures
        post.selection.selected_square() != Some(click_target(px, py).unwrap()),
{
}

/// Whether the vector holds the square.
fn contains_square(v: &Vec<SquareId>, t: SquareId) -> (b: bool)
    ensures
        b == v@.contains(t),
{
    let mut i: usize = 0;
    while i < v.len()
        invariant
            i <= v@.len(),
            forall|j: int| 0 <= j < i ==> v@[j] != t,
        decreases v@.len() - i,
    {
        if v[i] == t {
            return true;
        }
        i = i + 1;
    }
    false
}

/// Collects the target squares of the moves leaving from `from`, each once.
fn compute_destinations(moves: &Vec<MoveCoords>, from: SquareId) -> (dests: Vec<SquareId>)
    ensures
        dests@.no_duplicates(),
        dests@.to_set() == destinations_of(moves@, from),
{
    let mut dests: Vec<SquareId> = Vec::new();
    let mut k: usize = 0;
    while k < moves.len()
        invariant
            k <= moves@.len(),
            dests@.no_duplicates(),
            forall|t: SquareId| #[trigger]
                dests@.contains(t) ==> exists|i: int|
                    0 <= i < k && #[trigger] is_match(moves@, i, from, t),
            forall|i: int|
                0 <= i < k && (#[trigger] moves@[i]).from == Some(from) ==> dests@.contains(
                    moves@[i].to,
                ),
        decreases moves@.len() - k,
    {
        let m = moves[k];
        let from_matches = match m.from {
            Some(f) => f == from,
            None => false,
        };
        if from_matches {
            if !contains_square(&dests, m.to) {
                dests.push(m.to);
            }
            proof {
                assert(is_match(moves@, k as int, from, m.to));
                assert(dests@.contains(m.to));
            }
        }
        k = k + 1;
    }
    proof {
        assert(dests@.to_set() =~= destinations_of(moves@, from));
    }
    dests
}

/// Finds the first move in the list from `from` to `to`, if there is one.
fn find_move(moves: &Vec<MoveCoords>, from: SquareId, to: SquareId) -> (r: Option<usize>)
    ensures
        match r {
            Some(i) => {
                &&& i < moves@.len()
                &&& is_match(moves@, i as int, from, to)
                &&& forall|j: int| 0 <= j < i ==> !is_match(moves@, j, from, to)
            },
            None => !has_move(moves@, from, to),
        },
{
    let mut k: usize = 0;
    while k < moves.len()
        invariant
            k <= moves@.len(),
            forall|j: int| 0 <= j < k ==> !is_match(moves@, j, from, to),
        decreases moves@.len() - k,
    {
        let m = moves[k];
        let from_matches = match m.from {
            Some(f) => f == from,
            None => false,
        };
        if from_matches && m.to == to {
            return Some(k);
        }
        k = k + 1;
    }
    None
}

} // verus!
