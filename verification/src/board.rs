//! Bitboard board representation: piece sets, derived occupancy masks, and
//! game metadata (side to move, castling rights, en-passant target, clocks).
//!
//! Square indices run 0 = a1 ... 63 = h8, rank-major, file-minor. Each
//! (side, piece kind) pair owns a 64-bit mask whose bit `i` is set iff such a
//! piece stands on square `i`.

use vstd::prelude::*;

use crate::bits::{bit_is_set, count_bits, lemma_bit_or, lemma_count_bits_constant_range};

verus! {

/// The two sides of a chess game.
#[derive(Clone, Copy, PartialEq, Eq, Structural, Debug)]
pub enum Side {
    White,
    Black,
}

/// The six piece kinds.
#[derive(Clone, Copy, PartialEq, Eq, Structural, Debug)]
pub enum PieceKind {
    Pawn,
    Knight,
    Bishop,
    Rook,
    Queen,
    King,
}

impl Side {
    /// Row of `pieces` and `occupancy` that belongs to this side.
    pub open spec fn idx(self) -> int {
        match self {
            Side::White => 0,
            Side::Black => 1,
        }
    }

    /// Executable counterpart of [`Side::idx`].
    pub fn index(self) -> (i: usize)
        ensures
            i == self.idx(),
    {
        match self {
            Side::White => 0,
            Side::Black => 1,
        }
    }
}

impl PieceKind {
    /// Column of a side's `pieces` row that belongs to this kind.
    pub open spec fn idx(self) -> int {
        match self {
            PieceKind::Pawn => 0,
            PieceKind::Knight => 1,
            PieceKind::Bishop => 2,
            PieceKind::Rook => 3,
            PieceKind::Queen => 4,
            PieceKind::King => 5,
        }
    }

    /// Executable counterpart of [`PieceKind::idx`].
    pub fn index(self) -> (i: usize)
        ensures
            i == self.idx(),
    {
        match self {
            PieceKind::Pawn => 0,
            PieceKind::Knight => 1,
            PieceKind::Bishop => 2,
            PieceKind::Rook => 3,
            PieceKind::Queen => 4,
            PieceKind::King => 5,
        }
    }
}

/// Castling-rights flag: White may still castle kingside.
pub const CASTLE_WHITE_KINGSIDE: u8 = 0x1;

/// Castling-rights flag: White may still castle queenside.
pub const CASTLE_WHITE_QUEENSIDE: u8 = 0x2;

/// Castling-rights flag: Black may still castle kingside.
pub const CASTLE_BLACK_KINGSIDE: u8 = 0x4;

/// Castling-rights flag: Black may still castle queenside.
pub const CASTLE_BLACK_QUEENSIDE: u8 = 0x8;

/// All four castling-rights flags together.
pub const CASTLE_ALL: u8 = 0xF;

/// Starting squares of the white pawns (rank 2).
pub const WHITE_PAWN_START: u64 = 0x0000_0000_0000_FF00;

/// Starting squares of the white knights (b1, g1).
pub const WHITE_KNIGHT_START: u64 = 0x0000_0000_0000_0042;

/// Starting squares of the white bishops (c1, f1).
pub const WHITE_BISHOP_START: u64 = 0x0000_0000_0000_0024;

/// Starting squares of the white rooks (a1, h1).
pub const WHITE_ROOK_START: u64 = 0x0000_0000_0000_0081;

/// Starting square of the white queen (d1).
pub const WHITE_QUEEN_START: u64 = 0x0000_0000_0000_0008;

/// Starting square of the white king (e1).
pub const WHITE_KING_START: u64 = 0x0000_0000_0000_0010;

/// Starting squares of the black pawns (rank 7).
pub const BLACK_PAWN_START: u64 = 0x00FF_0000_0000_0000;

/// Starting squares of the black knights (b8, g8).
pub const BLACK_KNIGHT_START: u64 = 0x4200_0000_0000_0000;

/// Starting squares of the black bishops (c8, f8).
pub const BLACK_BISHOP_START: u64 = 0x2400_0000_0000_0000;

/// Starting squares of the black rooks (a8, h8).
pub const BLACK_ROOK_START: u64 = 0x8100_0000_0000_0000;

/// Starting square of the black queen (d8).
pub const BLACK_QUEEN_START: u64 = 0x0800_0000_0000_0000;

/// Starting square of the black king (e8).
pub const BLACK_KING_START: u64 = 0x1000_0000_0000_0000;

/// The starting mask of the (side, kind) pair at row `c`, column `k` of
/// `pieces` (row 0 = White; column order pawn, knight, bishop, rook, queen,
/// king).
pub open spec fn start_mask(c: u64, k: u64) -> u64 {
    if c == 0 {
        if k == 0 {
            WHITE_PAWN_START
        } else if k == 1 {
            WHITE_KNIGHT_START
        } else if k == 2 {
            WHITE_BISHOP_START
        } else if k == 3 {
            WHITE_ROOK_START
        } else if k == 4 {
            WHITE_QUEEN_START
        } else {
            WHITE_KING_START
        }
    } else {
        if k == 0 {
            BLACK_PAWN_START
        } else if k == 1 {
            BLACK_KNIGHT_START
        } else if k == 2 {
            BLACK_BISHOP_START
        } else if k == 3 {
            BLACK_ROOK_START
        } else if k == 4 {
            BLACK_QUEEN_START
        } else {
            BLACK_KING_START
        }
    }
}

/// Union of the six per-kind masks of side-row `c`.
pub open spec fn side_union(p: [[u64; 6]; 2], c: int) -> u64 {
    p[c][0] | p[c][1] | p[c][2] | p[c][3] | p[c][4] | p[c][5]
}

/// No two distinct (side, kind) masks share a set bit: every square holds at
/// most one piece.
pub open spec fn no_overlap(p: [[u64; 6]; 2]) -> bool {
    forall|c1: int, k1: int, c2: int, k2: int|
        #![trigger p[c1][k1], p[c2][k2]]
        0 <= c1 < 2 && 0 <= k1 < 6 && 0 <= c2 < 2 && 0 <= k2 < 6 && !(c1 == c2 && k1 == k2)
            ==> p[c1][k1] & p[c2][k2] == 0
}

/// The piece standing on square `sq`, found in the canonical query order:
/// White before Black, and pawn, knight, bishop, rook, queen, king within a
/// side. On a board satisfying [`no_overlap`] at most one mask can match, so
/// the order is immaterial there.
pub open spec fn piece_at_spec(p: [[u64; 6]; 2], sq: int) -> Option<(Side, PieceKind)> {
    if bit_is_set(p[0][0], sq) {
        Some((Side::White, PieceKind::Pawn))
    } else if bit_is_set(p[0][1], sq) {
        Some((Side::White, PieceKind::Knight))
    } else if bit_is_set(p[0][2], sq) {
        Some((Side::White, PieceKind::Bishop))
    } else if bit_is_set(p[0][3], sq) {
        Some((Side::White, PieceKind::Rook))
    } else if bit_is_set(p[0][4], sq) {
        Some((Side::White, PieceKind::Queen))
    } else if bit_is_set(p[0][5], sq) {
        Some((Side::White, PieceKind::King))
    } else if bit_is_set(p[1][0], sq) {
        Some((Side::Black, PieceKind::Pawn))
    } else if bit_is_set(p[1][1], sq) {
        Some((Side::Black, PieceKind::Knight))
    } else if bit_is_set(p[1][2], sq) {
        Some((Side::Black, PieceKind::Bishop))
    } else if bit_is_set(p[1][3], sq) {
        Some((Side::Black, PieceKind::Rook))
    } else if bit_is_set(p[1][4], sq) {
        Some((Side::Black, PieceKind::Queen))
    } else if bit_is_set(p[1][5], sq) {
        Some((Side::Black, PieceKind::King))
    } else {
        None
    }
}

/// The board: per-(side, kind) piece masks, derived occupancy masks, and game
/// metadata.
#[derive(Clone, Copy)]
pub struct BoardState {
    /// Row per side (0 = White, 1 = Black), column per piece kind (pawn,
    /// knight, bishop, rook, queen, king); bit `i` of a mask is set iff such
    /// a piece stands on square `i`.
    pub pieces: [[u64; 6]; 2],
    /// Derived: per side, the union of that side's six masks.
    pub occupancy: [u64; 2],
    /// Derived: the union of both sides' occupancy.
    pub all_pieces: u64,
    /// Which side moves next.
    pub side_to_move: Side,
    /// Flag set over the four `CASTLE_*` bits.
    pub castling_rights: u8,
    /// Square a pawn just skipped over, capturable en passant, if any.
    pub en_passant: Option<u8>,
    /// Half-moves since the last pawn move or capture (fifty-move rule).
    pub halfmove_clock: u32,
    /// Full-move counter, starting at 1.
    pub fullmove_number: u32,
}

impl BoardState {
    /// The derived fields agree with `pieces`: each side's occupancy is the
    /// union of its six masks, and `all_pieces` is the union of both sides.
    pub open spec fn occupancy_synced(self) -> bool {
        &&& self.occupancy[0] == side_union(self.pieces, 0)
        &&& self.occupancy[1] == side_union(self.pieces, 1)
        &&& self.all_pieces == self.occupancy[0] | self.occupancy[1]
    }

    /// Every square holds at most one piece.
    pub open spec fn no_double_occupancy(self) -> bool {
        no_overlap(self.pieces)
    }

    /// A well-formed board: no square doubly occupied, derived fields in sync.
    pub open spec fn wf(self) -> bool {
        &&& self.no_double_occupancy()
        &&& self.occupancy_synced()
    }

    /// Every (side, kind) mask holds its canonical starting squares.
    pub open spec fn is_start_position(self) -> bool {
        forall|c: int, k: int|
            #![trigger self.pieces[c][k]]
            0 <= c < 2 && 0 <= k < 6 ==> self.pieces[c][k] == start_mask(c as u64, k as u64)
    }

    /// The metadata of a fresh game: White to move, all castling rights, no
    /// en-passant target, clocks at 0 and 1.
    pub open spec fn has_initial_metadata(self) -> bool {
        &&& self.side_to_move == Side::White
        &&& self.castling_rights == CASTLE_ALL
        &&& self.en_passant == None::<u8>
        &&& self.halfmove_clock == 0
        &&& self.fullmove_number == 1
    }

    /// A fresh board: the standard starting position, initial metadata, and
    /// occupancy already derived.
    pub fn new() -> (b: BoardState)
        ensures
            b.is_start_position(),
            b.has_initial_metadata(),
            b.wf(),
    {
        let mut b = BoardState {
            pieces: [[0, 0, 0, 0, 0, 0], [0, 0, 0, 0, 0, 0]],
            occupancy: [0, 0],
            all_pieces: 0,
            side_to_move: Side::White,
            castling_rights: CASTLE_ALL,
            en_passant: None,
            halfmove_clock: 0,
            fullmove_number: 1,
        };
        b.set_starting_position();
        b
    }

    /// Reset `pieces` to the sixteen canonical starting masks per side and
    /// re-derive the occupancy fields. Metadata is left untouched.
    pub fn set_starting_position(&mut self)
        ensures
            final(self).is_start_position(),
            final(self).wf(),
            final(self).side_to_move == old(self).side_to_move,
            final(self).castling_rights == old(self).castling_rights,
            final(self).en_passant == old(self).en_passant,
            final(self).halfmove_clock == old(self).halfmove_clock,
            final(self).fullmove_number == old(self).fullmove_number,
    {
        self.pieces = [
            [
                WHITE_PAWN_START,
                WHITE_KNIGHT_START,
                WHITE_BISHOP_START,
                WHITE_ROOK_START,
                WHITE_QUEEN_START,
                WHITE_KING_START,
            ],
            [
                BLACK_PAWN_START,
                BLACK_KNIGHT_START,
                BLACK_BISHOP_START,
                BLACK_ROOK_START,
                BLACK_QUEEN_START,
                BLACK_KING_START,
            ],
        ];
        self.update_occupancy();
        proof {
            lemma_start_masks_no_overlap(self.pieces);
        }
    }

    /// Recompute `occupancy` and `all_pieces` from `pieces`. Must be called
    /// after any mutation of `pieces` before the derived fields are read; it
    /// changes nothing else and cannot fail.
    pub fn update_occupancy(&mut self)
        ensures
            occupancy_updated(*old(self), *final(self)),
            final(self).occupancy_synced(),
    {
        let white = self.pieces[0][0] | self.pieces[0][1] | self.pieces[0][2] | self.pieces[0][3]
            | self.pieces[0][4] | self.pieces[0][5];
        let black = self.pieces[1][0] | self.pieces[1][1] | self.pieces[1][2] | self.pieces[1][3]
            | self.pieces[1][4] | self.pieces[1][5];
        self.occupancy = [white, black];
        self.all_pieces = white | black;
    }

    /// The piece on `square`, looked up in the canonical order (White before
    /// Black; pawn, knight, bishop, rook, queen, king within a side), the
    /// first match winning.
    pub fn piece_at(&self, square: u8) -> (r: Option<(Side, PieceKind)>)
        requires
            square < 64,
        ensures
            r == piece_at_spec(self.pieces, square as int),
    {
        if (self.pieces[0][0] >> square) & 1 == 1 {
            Some((Side::White, PieceKind::Pawn))
        } else if (self.pieces[0][1] >> square) & 1 == 1 {
            Some((Side::White, PieceKind::Knight))
        } else if (self.pieces[0][2] >> square) & 1 == 1 {
            Some((Side::White, PieceKind::Bishop))
        } else if (self.pieces[0][3] >> square) & 1 == 1 {
            Some((Side::White, PieceKind::Rook))
        } else if (self.pieces[0][4] >> square) & 1 == 1 {
            Some((Side::White, PieceKind::Queen))
        } else if (self.pieces[0][5] >> square) & 1 == 1 {
            Some((Side::White, PieceKind::King))
        } else if (self.pieces[1][0] >> square) & 1 == 1 {
            Some((Side::Black, PieceKind::Pawn))
        } else if (self.pieces[1][1] >> square) & 1 == 1 {
            Some((Side::Black, PieceKind::Knight))
        } else if (self.pieces[1][2] >> square) & 1 == 1 {
            Some((Side::Black, PieceKind::Bishop))
        } else if (self.pieces[1][3] >> square) & 1 == 1 {
            Some((Side::Black, PieceKind::Rook))
        } else if (self.pieces[1][4] >> square) & 1 == 1 {
            Some((Side::Black, PieceKind::Queen))
        } else if (self.pieces[1][5] >> square) & 1 == 1 {
            Some((Side::Black, PieceKind::King))
        } else {
            None
        }
    }
}

/// The relation `update_occupancy` establishes between the board before
/// (`pre`) and after (`post`) the call: `pieces` and the metadata are
/// untouched, and the derived fields are recomputed from `pre.pieces`.
pub open spec fn occupancy_updated(pre: BoardState, post: BoardState) -> bool {
    &&& post.pieces == pre.pieces
    &&& post.side_to_move == pre.side_to_move
    &&& post.castling_rights == pre.castling_rights
    &&& post.en_passant == pre.en_passant
    &&& post.halfmove_clock == pre.halfmove_clock
    &&& post.fullmove_number == pre.fullmove_number
    &&& post.occupancy[0] == side_union(pre.pieces, 0)
    &&& post.occupancy[1] == side_union(pre.pieces, 1)
    &&& post.all_pieces == side_union(pre.pieces, 0) | side_union(pre.pieces, 1)
}

/// The twelve canonical starting masks are pairwise disjoint, case-split over
/// the row and column indices by the bit-vector solver.
proof fn lemma_start_masks_disjoint_bv(c1: u64, k1: u64, c2: u64, k2: u64)
    by (bit_vector)
    requires
        c1 < 2,
        k1 < 6,
        c2 < 2,
        k2 < 6,
        !(c1 == c2 && k1 == k2),
    ensures
        start_mask(c1, k1) & start_mask(c2, k2) == 0,
{
}

/// A board whose masks are the canonical starting masks has no doubly
/// occupied square.
pub proof fn lemma_start_masks_no_overlap(p: [[u64; 6]; 2])
    requires
        forall|c: int, k: int|
            #![trigger p[c][k]]
            0 <= c < 2 && 0 <= k < 6 ==> p[c][k] == start_mask(c as u64, k as u64),
    ensures
        no_overlap(p),
{
    assert forall|c1: int, k1: int, c2: int, k2: int|
        #![trigger p[c1][k1], p[c2][k2]]
        0 <= c1 < 2 && 0 <= k1 < 6 && 0 <= c2 < 2 && 0 <= k2 < 6 && !(c1 == c2 && k1 == k2)
            implies p[c1][k1] & p[c2][k2] == 0 by {
        lemma_start_masks_disjoint_bv(c1 as u64, k1 as u64, c2 as u64, k2 as u64);
        assert(p[c1][k1] == start_mask(c1 as u64, k1 as u64));
        assert(p[c2][k2] == start_mask(c2 as u64, k2 as u64));
    }
}

/// The low 16 bits of a mask equal to `0xFFFF` are set and the rest clear,
/// so it has exactly 16 set bits.
proof fn lemma_count_low_16()
    ensures
        count_bits(0xFFFFu64) == 16,
{
    assert forall|i: int| 0 <= i < 16 implies bit_is_set(0xFFFFu64, i) by {
        let j = i as u64;
        assert((0xFFFFu64 >> j) & 1u64 == 1u64) by (bit_vector)
            requires
                j < 16,
        ;
    }
    assert forall|i: int| 16 <= i < 64 implies !bit_is_set(0xFFFFu64, i) by {
        let j = i as u64;
        assert((0xFFFFu64 >> j) & 1u64 != 1u64) by (bit_vector)
            requires
                16 <= j < 64,
        ;
    }
    lemma_count_bits_constant_range(0xFFFF, 0, 16, true);
    lemma_count_bits_constant_range(0xFFFF, 16, 64, false);
}

/// The high 16 bits of `0xFFFF000000000000` are set and the rest clear, so it
/// has exactly 16 set bits.
proof fn lemma_count_high_16()
    ensures
        count_bits(0xFFFF_0000_0000_0000u64) == 16,
{
    assert forall|i: int| 0 <= i < 48 implies !bit_is_set(0xFFFF_0000_0000_0000u64, i) by {
        let j = i as u64;
        assert((0xFFFF_0000_0000_0000u64 >> j) & 1u64 != 1u64) by (bit_vector)
            requires
                j < 48,
        ;
    }
    assert forall|i: int| 48 <= i < 64 implies bit_is_set(0xFFFF_0000_0000_0000u64, i) by {
        let j = i as u64;
        assert((0xFFFF_0000_0000_0000u64 >> j) & 1u64 == 1u64) by (bit_vector)
            requires
                48 <= j < 64,
        ;
    }
    lemma_count_bits_constant_range(0xFFFF_0000_0000_0000, 0, 48, false);
    lemma_count_bits_constant_range(0xFFFF_0000_0000_0000, 48, 64, true);
}

/// The mask `0xFFFF00000000FFFF` (both back ranks and both pawn ranks) has
/// exactly 32 set bits.
proof fn lemma_count_start_all()
    ensures
        count_bits(0xFFFF_0000_0000_FFFFu64) == 32,
{
    assert forall|i: int| 0 <= i < 16 implies bit_is_set(0xFFFF_0000_0000_FFFFu64, i) by {
        let j = i as u64;
        assert((0xFFFF_0000_0000_FFFFu64 >> j) & 1u64 == 1u64) by (bit_vector)
            requires
                j < 16,
        ;
    }
    assert forall|i: int| 16 <= i < 48 implies !bit_is_set(0xFFFF_0000_0000_FFFFu64, i) by {
        let j = i as u64;
        assert((0xFFFF_0000_0000_FFFFu64 >> j) & 1u64 != 1u64) by (bit_vector)
            requires
                16 <= j < 48,
        ;
    }
    assert forall|i: int| 48 <= i < 64 implies bit_is_set(0xFFFF_0000_0000_FFFFu64, i) by {
        let j = i as u64;
        assert((0xFFFF_0000_0000_FFFFu64 >> j) & 1u64 == 1u64) by (bit_vector)
            requires
                48 <= j < 64,
        ;
    }
    lemma_count_bits_constant_range(0xFFFF_0000_0000_FFFF, 0, 16, true);
    lemma_count_bits_constant_range(0xFFFF_0000_0000_FFFF, 16, 48, false);
    lemma_count_bits_constant_range(0xFFFF_0000_0000_FFFF, 48, 64, true);
}

/// On a board holding the starting position with its occupancy derived,
/// `all_pieces` has exactly 32 set bits and each side's occupancy exactly 16:
/// the 32 men of a fresh game, 16 per side.
pub proof fn lemma_fresh_board_piece_counts(b: BoardState)
    requires
        b.is_start_position(),
        b.occupancy_synced(),
    ensures
        count_bits(b.all_pieces) == 32,
        count_bits(b.occupancy[0]) == 16,
        count_bits(b.occupancy[1]) == 16,
{
    assert(b.pieces[0][0] == WHITE_PAWN_START);
    assert(b.pieces[0][1] == WHITE_KNIGHT_START);
    assert(b.pieces[0][2] == WHITE_BISHOP_START);
    assert(b.pieces[0][3] == WHITE_ROOK_START);
    assert(b.pieces[0][4] == WHITE_QUEEN_START);
    assert(b.pieces[0][5] == WHITE_KING_START);
    assert(b.pieces[1][0] == BLACK_PAWN_START);
    assert(b.pieces[1][1] == BLACK_KNIGHT_START);
    assert(b.pieces[1][2] == BLACK_BISHOP_START);
    assert(b.pieces[1][3] == BLACK_ROOK_START);
    assert(b.pieces[1][4] == BLACK_QUEEN_START);
    assert(b.pieces[1][5] == BLACK_KING_START);
    assert(WHITE_PAWN_START | WHITE_KNIGHT_START | WHITE_BISHOP_START | WHITE_ROOK_START
        | WHITE_QUEEN_START | WHITE_KING_START == 0xFFFFu64) by (bit_vector);
    assert(BLACK_PAWN_START | BLACK_KNIGHT_START | BLACK_BISHOP_START | BLACK_ROOK_START
        | BLACK_QUEEN_START | BLACK_KING_START == 0xFFFF_0000_0000_0000u64) by (bit_vector);
    assert(0xFFFFu64 | 0xFFFF_0000_0000_0000u64 == 0xFFFF_0000_0000_FFFFu64) by (bit_vector);
    lemma_count_low_16();
    lemma_count_high_16();
    lemma_count_start_all();
}

/// On a board with no doubly occupied square, two (side, kind) pairs whose
/// masks both cover square `sq` are the same pair: a square holds at most one
/// piece.
pub proof fn lemma_at_most_one_piece(
    p: [[u64; 6]; 2],
    sq: int,
    c1: int,
    k1: int,
    c2: int,
    k2: int,
)
    requires
        no_overlap(p),
        0 <= c1 < 2,
        0 <= k1 < 6,
        0 <= c2 < 2,
        0 <= k2 < 6,
        bit_is_set(p[c1][k1], sq),
        bit_is_set(p[c2][k2], sq),
    ensures
        c1 == c2 && k1 == k2,
{
    if !(c1 == c2 && k1 == k2) {
        let a = p[c1][k1];
        let b = p[c2][k2];
        let s = sq as u64;
        assert(a & b == 0);
        assert(!(a & b == 0 && (a >> s) & 1u64 == 1u64 && (b >> s) & 1u64 == 1u64))
            by (bit_vector);
    }
}

/// `update_occupancy` is idempotent: a second call with no intervening
/// mutation of `pieces` leaves `pieces`, both occupancy entries and
/// `all_pieces` exactly as the first call left them.
pub proof fn lemma_update_occupancy_idempotent(b0: BoardState, b1: BoardState, b2: BoardState)
    requires
        occupancy_updated(b0, b1),
        occupancy_updated(b1, b2),
    ensures
        b2.pieces == b1.pieces,
        b2.occupancy[0] == b1.occupancy[0],
        b2.occupancy[1] == b1.occupancy[1],
        b2.all_pieces == b1.all_pieces,
{
}

/// On a board whose derived fields are in sync, `all_pieces` covers square
/// `sq` iff a piece stands there: the derived mask and the piece query agree.
pub proof fn lemma_occupied_iff_piece_at(b: BoardState, sq: int)
    requires
        b.occupancy_synced(),
        0 <= sq < 64,
    ensures
        bit_is_set(b.all_pieces, sq) <==> piece_at_spec(b.pieces, sq) is Some,
{
    let p = b.pieces;
    lemma_bit_or(p[0][0], p[0][1], sq);
    lemma_bit_or(p[0][0] | p[0][1], p[0][2], sq);
    lemma_bit_or(p[0][0] | p[0][1] | p[0][2], p[0][3], sq);
    lemma_bit_or(p[0][0] | p[0][1] | p[0][2] | p[0][3], p[0][4], sq);
    lemma_bit_or(p[0][0] | p[0][1] | p[0][2] | p[0][3] | p[0][4], p[0][5], sq);
    lemma_bit_or(p[1][0], p[1][1], sq);
    lemma_bit_or(p[1][0] | p[1][1], p[1][2], sq);
    lemma_bit_or(p[1][0] | p[1][1] | p[1][2], p[1][3], sq);
    lemma_bit_or(p[1][0] | p[1][1] | p[1][2] | p[1][3], p[1][4], sq);
    lemma_bit_or(p[1][0] | p[1][1] | p[1][2] | p[1][3] | p[1][4], p[1][5], sq);
    lemma_bit_or(side_union(p, 0), side_union(p, 1), sq);
}

/// Re-deriving occupancy on a board whose piece masks are all zero yields
/// zero occupancy for both sides and a zero `all_pieces`.
pub proof fn lemma_empty_pieces_empty_occupancy(pre: BoardState, post: BoardState)
    requires
        occupancy_updated(pre, post),
        forall|c: int, k: int|
            #![trigger pre.pieces[c][k]]
            0 <= c < 2 && 0 <= k < 6 ==> pre.pieces[c][k] == 0,
    ensures
        post.occupancy[0] == 0,
        post.occupancy[1] == 0,
        post.all_pieces == 0,
{
    assert(pre.pieces[0][0] == 0);
    assert(pre.pieces[0][1] == 0);
    assert(pre.pieces[0][2] == 0);
    assert(pre.pieces[0][3] == 0);
    assert(pre.pieces[0][4] == 0);
    assert(pre.pieces[0][5] == 0);
    assert(pre.pieces[1][0] == 0);
    assert(pre.pieces[1][1] == 0);
    assert(pre.pieces[1][2] == 0);
    assert(pre.pieces[1][3] == 0);
    assert(pre.pieces[1][4] == 0);
    assert(pre.pieces[1][5] == 0);
    assert(0u64 | 0u64 == 0u64) by (bit_vector);
}

} // verus!
