//! Text rendering of a board: an 8x8 grid, one line per rank from rank 8
//! down to rank 1, files a to h left to right. Each square is one character
//! (uppercase `PNBRQK` for White, lowercase `pnbrqk` for Black, `.` for an
//! empty square); squares are separated by single spaces and each rank ends
//! with a newline.

use vstd::prelude::*;

use crate::board::{BoardState, PieceKind, Side, piece_at_spec};

verus! {

/// The character a piece is rendered as: uppercase for White, lowercase for
/// Black.
pub open spec fn glyph(c: Side, k: PieceKind) -> char {
    match (c, k) {
        (Side::White, PieceKind::Pawn) => 'P',
        (Side::White, PieceKind::Knight) => 'N',
        (Side::White, PieceKind::Bishop) => 'B',
        (Side::White, PieceKind::Rook) => 'R',
        (Side::White, PieceKind::Queen) => 'Q',
        (Side::White, PieceKind::King) => 'K',
        (Side::Black, PieceKind::Pawn) => 'p',
        (Side::Black, PieceKind::Knight) => 'n',
        (Side::Black, PieceKind::Bishop) => 'b',
        (Side::Black, PieceKind::Rook) => 'r',
        (Side::Black, PieceKind::Queen) => 'q',
        (Side::Black, PieceKind::King) => 'k',
    }
}

/// The character square `sq` is rendered as: its piece's glyph, or `.` when
/// empty.
pub open spec fn square_glyph(p: [[u64; 6]; 2], sq: int) -> char {
    match piece_at_spec(p, sq) {
        Some((c, k)) => glyph(c, k),
        None => '.',
    }
}

/// What follows the square at file `f` on its line: a space, or a newline
/// after the last file.
pub open spec fn sep_char(f: int) -> char {
    if f == 7 {
        '\n'
    } else {
        ' '
    }
}

/// The first `n` squares of the line for rank `r` (each square's character
/// followed by its separator).
pub open spec fn rank_line_prefix(p: [[u64; 6]; 2], r: int, n: int) -> Seq<char>
    decreases n,
{
    if n <= 0 {
        Seq::empty()
    } else {
        rank_line_prefix(p, r, n - 1).push(square_glyph(p, r * 8 + (n - 1))).push(sep_char(n - 1))
    }
}

/// The first `n` printed lines: ranks 8 down to `9 - n`, rank 8 first.
pub open spec fn board_text_prefix(p: [[u64; 6]; 2], n: int) -> Seq<char>
    decreases n,
{
    if n <= 0 {
        Seq::empty()
    } else {
        board_text_prefix(p, n - 1) + rank_line_prefix(p, 8 - n, 8)
    }
}

/// The full text rendering: ranks 8 down to 1, one line each.
pub open spec fn board_text(p: [[u64; 6]; 2]) -> Seq<char> {
    board_text_prefix(p, 8)
}

/// The glyph of a (side, kind) pair, as a one-character string slice.
fn glyph_str(c: Side, k: PieceKind) -> (r: &'static str)
    ensures
        r@ =~= seq![glyph(c, k)],
{
    proof {
        reveal_strlit("P");
        reveal_strlit("N");
        reveal_strlit("B");
        reveal_strlit("R");
        reveal_strlit("Q");
        reveal_strlit("K");
        reveal_strlit("p");
        reveal_strlit("n");
        reveal_strlit("b");
        reveal_strlit("r");
        reveal_strlit("q");
        reveal_strlit("k");
    }
    match (c, k) {
        (Side::White, PieceKind::Pawn) => "P",
        (Side::White, PieceKind::Knight) => "N",
        (Side::White, PieceKind::Bishop) => "B",
        (Side::White, PieceKind::Rook) => "R",
        (Side::White, PieceKind::Queen) => "Q",
        (Side::White, PieceKind::King) => "K",
        (Side::Black, PieceKind::Pawn) => "p",
        (Side::Black, PieceKind::Knight) => "n",
        (Side::Black, PieceKind::Bishop) => "b",
        (Side::Black, PieceKind::Rook) => "r",
        (Side::Black, PieceKind::Queen) => "q",
        (Side::Black, PieceKind::King) => "k",
    }
}

impl BoardState {
    /// The character square `square` is rendered as.
    pub fn square_char(&self, square: u8) -> (c: char)
        requires
            square < 64,
        ensures
            c == square_glyph(self.pieces, square as int),
    {
        match self.piece_at(square) {
            Some((side, kind)) => match (side, kind) {
                (Side::White, PieceKind::Pawn) => 'P',
                (Side::White, PieceKind::Knight) => 'N',
                (Side::White, PieceKind::Bishop) => 'B',
                (Side::White, PieceKind::Rook) => 'R',
                (Side::White, PieceKind::Queen) => 'Q',
                (Side::White, PieceKind::King) => 'K',
                (Side::Black, PieceKind::Pawn) => 'p',
                (Side::Black, PieceKind::Knight) => 'n',
                (Side::Black, PieceKind::Bishop) => 'b',
                (Side::Black, PieceKind::Rook) => 'r',
                (Side::Black, PieceKind::Queen) => 'q',
                (Side::Black, PieceKind::King) => 'k',
            },
            None => '.',
        }
    }

    /// Render the board as text: ranks 8 down to 1, one line per rank, each
    /// square a single character, single spaces between squares, a newline
    /// after each rank.
    pub fn render_text(&self) -> (s: String)
        ensures
            s@ == board_text(self.pieces),
    {
        proof {
            reveal_strlit(".");
            reveal_strlit(" ");
            reveal_strlit("\n");
        }
        let mut s = String::new();
        for line in 0..8u8
            invariant
                s@ =~= board_text_prefix(self.pieces, line as int),
        {
            let rank = 7 - line;
            for file in 0..8u8
                invariant
                    line < 8,
                    rank == 7 - line,
                    s@ =~= board_text_prefix(self.pieces, line as int) + rank_line_prefix(
                        self.pieces,
                        rank as int,
                        file as int,
                    ),
            {
                proof {
                    reveal_strlit(".");
                    reveal_strlit(" ");
                    reveal_strlit("\n");
                }
                let square = rank * 8 + file;
                match self.piece_at(square) {
                    Some((side, kind)) => {
                        s.append(glyph_str(side, kind));
                    },
                    None => {
                        s.append(".");
                    },
                }
                if file == 7 {
                    s.append("\n");
                } else {
                    s.append(" ");
                }
            }
            assert(s@ =~= board_text_prefix(self.pieces, line as int) + rank_line_prefix(
                self.pieces,
                rank as int,
                8,
            ));
            assert(s@ =~= board_text_prefix(self.pieces, line as int + 1));
        }
        assert(s@ =~= board_text(self.pieces));
        s
    }
}

} // verus!
