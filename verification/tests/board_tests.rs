use chess3d::board::{
    board_setup, piece_material, square_shade, starting_piece, PieceColor, PieceKind, Shade,
    StartingPiece, Turn,
};

#[test]
fn board_has_sixty_four_squares_in_column_order() {
    let squares = board_setup();
    assert_eq!(squares.len(), 64);
    for col in 0..8u8 {
        for row in 0..8u8 {
            let sq = squares[(col as usize) * 8 + row as usize];
            assert_eq!(sq.row, row);
            assert_eq!(sq.col, col);
            assert_eq!(sq.shade, square_shade(row, col));
            assert_eq!(sq.piece, starting_piece(row, col));
        }
    }
}

#[test]
fn corner_tiles_and_checkerboard() {
    assert_eq!(square_shade(0, 0), Shade::Dark);
    assert_eq!(square_shade(0, 1), Shade::Light);
    assert_eq!(square_shade(1, 0), Shade::Light);
    assert_eq!(square_shade(7, 7), Shade::Dark);
    for row in 0..7u8 {
        for col in 0..7u8 {
            assert_ne!(square_shade(row, col), square_shade(row + 1, col));
            assert_ne!(square_shade(row, col), square_shade(row, col + 1));
        }
    }
}

#[test]
fn back_rows_follow_the_usual_order() {
    let kinds = [
        PieceKind::Rook,
        PieceKind::Knight,
        PieceKind::Bishop,
        PieceKind::King,
        PieceKind::Queen,
        PieceKind::Bishop,
        PieceKind::Knight,
        PieceKind::Rook,
    ];
    for col in 0..8u8 {
        let white = starting_piece(0, col).unwrap();
        let black = starting_piece(7, col).unwrap();
        assert_eq!(white.kind, kinds[col as usize]);
        assert_eq!(black.kind, kinds[col as usize]);
        assert_eq!(white.color, PieceColor::White);
        assert_eq!(black.color, PieceColor::Black);
        assert_eq!(starting_piece(1, col).unwrap().kind, PieceKind::Pawn);
        assert_eq!(starting_piece(6, col).unwrap().kind, PieceKind::Pawn);
        for row in 2..6u8 {
            assert_eq!(starting_piece(row, col), None);
        }
    }
}

#[test]
fn knight_columns_are_turned() {
    assert_eq!(
        starting_piece(0, 1),
        Some(StartingPiece { kind: PieceKind::Knight, color: PieceColor::White, turn: Turn::NegativeQuarter })
    );
    assert_eq!(
        starting_piece(7, 6),
        Some(StartingPiece { kind: PieceKind::Knight, color: PieceColor::Black, turn: Turn::PositiveQuarter })
    );
    // Pawns in those columns are turned as well.
    assert_eq!(starting_piece(1, 6).unwrap().turn, Turn::NegativeQuarter);
    assert_eq!(starting_piece(6, 1).unwrap().turn, Turn::PositiveQuarter);
    assert_eq!(starting_piece(0, 0).unwrap().turn, Turn::Straight);
    assert_eq!(starting_piece(7, 3).unwrap().turn, Turn::Straight);
}

#[test]
fn each_side_has_sixteen_pieces() {
    let squares = board_setup();
    let count = |color: PieceColor, kind: Option<PieceKind>| {
        squares
            .iter()
            .filter(|sq| match sq.piece {
                Some(p) => p.color == color && kind.map_or(true, |k| p.kind == k),
                None => false,
            })
            .count()
    };
    for color in [PieceColor::White, PieceColor::Black] {
        assert_eq!(count(color, None), 16);
        assert_eq!(count(color, Some(PieceKind::Pawn)), 8);
        assert_eq!(count(color, Some(PieceKind::King)), 1);
        assert_eq!(count(color, Some(PieceKind::Queen)), 1);
        assert_eq!(count(color, Some(PieceKind::Rook)), 2);
    }
}

#[test]
fn board_is_mirrored() {
    for row in 0..8u8 {
        for col in 0..8u8 {
            match (starting_piece(row, col), starting_piece(7 - row, col)) {
                (Some(p), Some(q)) => {
                    assert_eq!(p.kind, q.kind);
                    assert_eq!(p.color.opponent(), q.color);
                }
                (None, None) => {}
                _ => panic!("board is not symmetric"),
            }
        }
    }
}

#[test]
fn pieces_wear_the_opposite_material() {
    assert_eq!(piece_material(PieceColor::White), Shade::Dark);
    assert_eq!(piece_material(PieceColor::Black), Shade::Light);
    assert_eq!(PieceColor::White.opponent(), PieceColor::Black);
    assert_eq!(PieceColor::Black.opponent(), PieceColor::White);
}
