use vstd::prelude::*;

use crate::grid_position::SquareId;

verus! {

/// The side a piece belongs to; also the side whose turn it is to move.
#[derive(Clone, Copy, PartialEq, Eq, Structural, Debug)]
pub enum Color {
    White,
    Black,
}

/// One legal move as the rules engine reports it, reduced to coordinates:
/// the origin square (absent only for piece drops, which regular chess never
/// produces) and the target square.
#[derive(Clone, Copy, Debug)]
pub struct MoveCoords {
    pub from: Option<SquareId>,
    pub to: SquareId,
}

#[verifier::external_type_specification]
#[verifier::external_body]
pub struct ExChess(shakmaty::Chess);

/// The color of the piece standing on each occupied square of the position.
pub uninterp spec fn piece_colors(p: shakmaty::Chess) -> Map<SquareId, Color>;

/// The side to move in the position.
pub uninterp spec fn turn_of(p: shakmaty::Chess) -> Color;

/// The rules engine's legal-move enumeration for the position, each move
/// reduced to its coordinates, in the engine's order.
pub uninterp spec fn legal_list(p: shakmaty::Chess) -> Seq<MoveCoords>;

/// The position that results from playing the move at index `i` of the
/// position's legal-move enumeration.
pub uninterp spec fn played(p: shakmaty::Chess, i: int) -> shakmaty::Chess;

/// Relies on shakmaty's `Position::board` and `Board::piece_at`: reports the
/// color of the piece occupying the square, if the square is occupied.
#[verifier::external_body]
pub(crate) fn piece_color_at(p: &shakmaty::Chess, sq: SquareId) -> (r: Option<Color>)
    requires
        sq.wf(),
    ensures
        piece_colors(*p).dom().contains(sq) ==> r == Some(piece_colors(*p)[sq]),
        !piece_colors(*p).dom().contains(sq) ==> r is None,
{
    let square = shakmaty::Square::from_coords(
        shakmaty::File::new(sq.file as u32),
        shakmaty::Rank::new(sq.rank as u32),
    );
    match shakmaty::Position::board(p).piece_at(square) {
        Some(piece) => match piece.color {
            shakmaty::Color::White => Some(Color::White),
            shakmaty::Color::Black => Some(Color::Black),
        },
        None => None,
    }
}

/// Relies on shakmaty's `Position::turn`: reports the side to move.
#[verifier::external_body]
pub(crate) fn side_to_move(p: &shakmaty::Chess) -> (c: Color)
    ensures
        c == turn_of(*p),
{
    match shakmaty::Position::turn(p) {
        shakmaty::Color::White => Color::White,
        shakmaty::Color::Black => Color::Black,
    }
}

/// Relies on shakmaty's `Position::legal_moves`, `Move::from` and `Move::to`:
/// hands out the position's legal moves, each reduced to its coordinates.
/// Every square an engine move names lies on the board.
#[verifier::external_body]
pub(crate) fn legal_moves(p: &shakmaty::Chess) -> (v: Vec<MoveCoords>)
    ensures
        v@ == legal_list(*p),
        forall|i: int|
            0 <= i < v@.len() ==> (#[trigger] v@[i]).to.wf() && (v@[i].from is Some
                ==> v@[i].from.unwrap().wf()),
{
    shakmaty::Position::legal_moves(p)
        .iter()
        .map(|m| MoveCoords {
            from: m.from().map(|s| SquareId {
                file: s.file().to_u32() as u8,
                rank: s.rank().to_u32() as u8,
            }),
            to: SquareId {
                file: m.to().file().to_u32() as u8,
                rank: m.to().rank().to_u32() as u8,
            },
        })
        .collect()
}

/// Relies on shakmaty's `Position::legal_moves` and `Position::play_unchecked`:
/// plays the move at index `i` of the position's legal-move enumeration. Only
/// an index into the current enumeration is accepted, since the engine may
/// corrupt the position, or panic, on a move not drawn from its own list.
#[verifier::external_body]
pub(crate) fn play_at(p: &mut shakmaty::Chess, i: usize)
    requires
        i < legal_list(*old(p)).len(),
    ensures
        *final(p) == played(*old(p), i as int),
{
    let moves = shakmaty::Position::legal_moves(p);
    shakmaty::Position::play_unchecked(p, moves[i]);
}

} // verus!
