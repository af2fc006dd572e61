use chessboard::bits::popcount;
use chessboard::board::{
    BoardState, PieceKind, Side, CASTLE_ALL, CASTLE_BLACK_KINGSIDE, CASTLE_BLACK_QUEENSIDE,
    CASTLE_WHITE_KINGSIDE, CASTLE_WHITE_QUEENSIDE,
};

#[test]
fn fresh_board_piece_counts() {
    let b = BoardState::new();
    assert_eq!(popcount(b.all_pieces), 32);
    assert_eq!(popcount(b.occupancy[0]), 16);
    assert_eq!(popcount(b.occupancy[1]), 16);
}

#[test]
fn fresh_board_no_double_occupancy() {
    let b = BoardState::new();
    for sq in 0..64u32 {
        let mut matches: u32 = 0;
        for c in 0..2usize {
            for k in 0..6usize {
                if (b.pieces[c][k] >> sq) & 1 == 1 {
                    matches += 1;
                }
            }
        }
        assert!(matches <= 1, "square {} held {} pieces", sq, matches);
    }
}

#[test]
fn starting_position_text() {
    let b = BoardState::new();
    let expected = "r n b q k b n r\n\
                    p p p p p p p p\n\
                    . . . . . . . .\n\
                    . . . . . . . .\n\
                    . . . . . . . .\n\
                    . . . . . . . .\n\
                    P P P P P P P P\n\
                    R N B Q K B N R\n";
    assert_eq!(b.render_text(), expected);
}

#[test]
fn update_occupancy_idempotent() {
    let mut b = BoardState::new();
    b.update_occupancy();
    let first = b;
    b.update_occupancy();
    assert_eq!(b.pieces, first.pieces);
    assert_eq!(b.occupancy, first.occupancy);
    assert_eq!(b.all_pieces, first.all_pieces);
}

#[test]
fn cleared_pieces_zero_occupancy() {
    let mut b = BoardState::new();
    b.pieces = [[0; 6]; 2];
    b.update_occupancy();
    assert_eq!(b.occupancy[0], 0);
    assert_eq!(b.occupancy[1], 0);
    assert_eq!(b.all_pieces, 0);
}

#[test]
fn fresh_board_defaults() {
    let b = BoardState::new();
    assert_eq!(b.side_to_move, Side::White);
    assert_eq!(b.castling_rights, CASTLE_ALL);
    assert_eq!(b.en_passant, None);
    assert_eq!(b.halfmove_clock, 0);
    assert_eq!(b.fullmove_number, 1);
}

#[test]
fn castling_flags_cover_all() {
    assert_eq!(
        CASTLE_WHITE_KINGSIDE | CASTLE_WHITE_QUEENSIDE | CASTLE_BLACK_KINGSIDE
            | CASTLE_BLACK_QUEENSIDE,
        CASTLE_ALL
    );
}

#[test]
fn piece_at_start_squares() {
    let b = BoardState::new();
    assert_eq!(b.piece_at(0), Some((Side::White, PieceKind::Rook)));
    assert_eq!(b.piece_at(1), Some((Side::White, PieceKind::Knight)));
    assert_eq!(b.piece_at(2), Some((Side::White, PieceKind::Bishop)));
    assert_eq!(b.piece_at(3), Some((Side::White, PieceKind::Queen)));
    assert_eq!(b.piece_at(4), Some((Side::White, PieceKind::King)));
    assert_eq!(b.piece_at(8), Some((Side::White, PieceKind::Pawn)));
    assert_eq!(b.piece_at(28), None);
    assert_eq!(b.piece_at(35), None);
    assert_eq!(b.piece_at(48), Some((Side::Black, PieceKind::Pawn)));
    assert_eq!(b.piece_at(56), Some((Side::Black, PieceKind::Rook)));
    assert_eq!(b.piece_at(59), Some((Side::Black, PieceKind::Queen)));
    assert_eq!(b.piece_at(60), Some((Side::Black, PieceKind::King)));
    assert_eq!(b.piece_at(63), Some((Side::Black, PieceKind::Rook)));
}

#[test]
fn square_char_start_squares() {
    let b = BoardState::new();
    assert_eq!(b.square_char(0), 'R');
    assert_eq!(b.square_char(6), 'N');
    assert_eq!(b.square_char(12), 'P');
    assert_eq!(b.square_char(28), '.');
    assert_eq!(b.square_char(58), 'b');
    assert_eq!(b.square_char(60), 'k');
}

#[test]
fn all_pieces_agrees_with_piece_at() {
    let b = BoardState::new();
    for sq in 0..64u8 {
        let occupied = (b.all_pieces >> sq) & 1 == 1;
        assert_eq!(occupied, b.piece_at(sq).is_some(), "square {}", sq);
    }
}

#[test]
fn side_and_kind_indices() {
    assert_eq!(Side::White.index(), 0);
    assert_eq!(Side::Black.index(), 1);
    assert_eq!(PieceKind::Pawn.index(), 0);
    assert_eq!(PieceKind::Knight.index(), 1);
    assert_eq!(PieceKind::Bishop.index(), 2);
    assert_eq!(PieceKind::Rook.index(), 3);
    assert_eq!(PieceKind::Queen.index(), 4);
    assert_eq!(PieceKind::King.index(), 5);
}

#[test]
fn popcount_exact_values() {
    assert_eq!(popcount(0), 0);
    assert_eq!(popcount(1), 1);
    assert_eq!(popcount(0b1011), 3);
    assert_eq!(popcount(0x8000_0000_0000_0000), 1);
    assert_eq!(popcount(u64::MAX), 64);
    assert_eq!(popcount(0xFFFF_0000_0000_FFFF), 32);
}

#[test]
fn set_starting_position_restores_board() {
    let fresh = BoardState::new();
    let mut b = BoardState::new();
    b.pieces = [[0; 6]; 2];
    b.update_occupancy();
    b.set_starting_position();
    assert_eq!(b.pieces, fresh.pieces);
    assert_eq!(b.occupancy, fresh.occupancy);
    assert_eq!(b.all_pieces, fresh.all_pieces);
    assert_eq!(b.side_to_move, fresh.side_to_move);
    assert_eq!(b.castling_rights, fresh.castling_rights);
}
