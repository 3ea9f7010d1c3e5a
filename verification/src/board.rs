use vstd::prelude::*;

verus! {

/// Number of squares along each side of the board.
pub const BOARD_SIZE: u8 = 8;

/// The two sides of the game.
#[derive(Clone, Copy, Debug, PartialEq, Eq, Structural)]
pub enum PieceColor {
    White,
    Black,
}

/// The six kinds of chess pieces; each has its own model.
#[derive(Clone, Copy, Debug, PartialEq, Eq, Structural)]
pub enum PieceKind {
    Pawn,
    Rook,
    Knight,
    Bishop,
    King,
    Queen,
}

/// A turn of a piece's model about the vertical axis: none, or a quarter
/// turn in the negative or positive direction.
#[derive(Clone, Copy, Debug, PartialEq, Eq, Structural)]
pub enum Turn {
    Straight,
    NegativeQuarter,
    PositiveQuarter,
}

/// A material shade: black or white.
#[derive(Clone, Copy, Debug, PartialEq, Eq, Structural)]
pub enum Shade {
    Dark,
    Light,
}

/// What stands on a square when a game starts.
#[derive(Clone, Copy, Debug, PartialEq, Eq, Structural)]
pub struct StartingPiece {
    pub kind: PieceKind,
    pub color: PieceColor,
    pub turn: Turn,
}

/// One square of the starting board: its place, the shade of its tile, and
/// the piece on it, if any.
#[derive(Clone, Copy, Debug, PartialEq, Eq, Structural)]
pub struct SquareSetup {
    pub row: u8,
    pub col: u8,
    pub shade: Shade,
    pub piece: Option<StartingPiece>,
}

impl PieceColor {
    /// The other side.
    pub open spec fn spec_opponent(self) -> PieceColor {
        match self {
            PieceColor::White => PieceColor::Black,
            PieceColor::Black => PieceColor::White,
        }
    }

    /// The other side.
    pub fn opponent(self) -> (c: PieceColor)
        ensures
            c == self.spec_opponent(),
    {
        match self {
            PieceColor::White => PieceColor::Black,
            PieceColor::Black => PieceColor::White,
        }
    }
}

/// A tile is light where row and column differ in parity, dark elsewhere.
pub open spec fn spec_square_shade(row: int, col: int) -> Shade {
    if (row + col) % 2 != 0 {
        Shade::Light
    } else {
        Shade::Dark
    }
}

/// The shade of the tile at `row`, `col`.
pub fn square_shade(row: u8, col: u8) -> (s: Shade)
    ensures
        s == spec_square_shade(row as int, col as int),
{
    assert(((row as int + col as int) % 2 != 0) == (row % 2 != col % 2)) by (nonlinear_arith);
    if row % 2 != col % 2 {
        Shade::Light
    } else {
        Shade::Dark
    }
}

/// The kind of piece that starts in `row`, `col` of an occupied row: pawns in
/// the second row from each edge, and along the back rows rook, knight,
/// bishop, king, queen, bishop, knight, rook.
pub open spec fn spec_starting_kind(row: int, col: int) -> PieceKind {
    if row == 1 || row == 6 {
        PieceKind::Pawn
    } else if col == 0 || col == 7 {
        PieceKind::Rook
    } else if col == 1 || col == 6 {
        PieceKind::Knight
    } else if col == 2 || col == 5 {
        PieceKind::Bishop
    } else if col == 3 {
        PieceKind::King
    } else {
        PieceKind::Queen
    }
}

/// The piece that starts on `row`, `col`: white on the two rows below the
/// middle, black on the two rows above it, none in the four middle rows.
/// Every piece in the second and seventh column is turned a quarter, white
/// ones negatively and black ones positively.
pub open spec fn spec_starting_piece(row: int, col: int) -> Option<StartingPiece> {
    if 2 <= row && row <= 5 {
        None
    } else {
        let color = if row < 2 { PieceColor::White } else { PieceColor::Black };
        let turn = if col == 1 || col == 6 {
            if row < 2 { Turn::NegativeQuarter } else { Turn::PositiveQuarter }
        } else {
            Turn::Straight
        };
        Some(StartingPiece { kind: spec_starting_kind(row, col), color, turn })
    }
}

/// The piece that starts on `row`, `col` of the board.
pub fn starting_piece(row: u8, col: u8) -> (p: Option<StartingPiece>)
    requires
        row < BOARD_SIZE,
        col < BOARD_SIZE,
    ensures
        p == spec_starting_piece(row as int, col as int),
{
    if row >= 2 && row <= 5 {
        return None;
    }
    let kind = if row == 1 || row == 6 {
        PieceKind::Pawn
    } else if col == 0 || col == 7 {
        PieceKind::Rook
    } else if col == 1 || col == 6 {
        PieceKind::Knight
    } else if col == 2 || col == 5 {
        PieceKind::Bishop
    } else if col == 3 {
        PieceKind::King
    } else {
        PieceKind::Queen
    };
    let color = if row < 2 { PieceColor::White } else { PieceColor::Black };
    let turn = if col == 1 || col == 6 {
        if row < 2 { Turn::NegativeQuarter } else { Turn::PositiveQuarter }
    } else {
        Turn::Straight
    };
    Some(StartingPiece { kind, color, turn })
}

/// The square setup at `row`, `col`.
pub open spec fn spec_square_setup(row: int, col: int) -> SquareSetup {
    SquareSetup {
        row: row as u8,
        col: col as u8,
        shade: spec_square_shade(row, col),
        piece: spec_starting_piece(row, col),
    }
}

/// Every square of the board, column by column, and within a column row by
/// row: the square at `row`, `col` stands at index `col * 8 + row`.
pub fn board_setup() -> (squares: Vec<SquareSetup>)
    ensures
        squares.len() == 64,
        forall|i: int|
            0 <= i < 64 ==> #[trigger] squares@[i] == spec_square_setup(i % 8, i / 8),
{
    let mut squares: Vec<SquareSetup> = Vec::new();
    let mut col: u8 = 0;
    while col < BOARD_SIZE
        invariant
            col <= 8,
            squares.len() == col * 8,
            forall|i: int|
                0 <= i < squares.len() ==> #[trigger] squares@[i] == spec_square_setup(i % 8, i / 8),
        decreases 8 - col,
    {
        let mut row: u8 = 0;
        while row < BOARD_SIZE
            invariant
                col < 8,
                row <= 8,
                squares.len() == col * 8 + row,
                forall|i: int|
                    0 <= i < squares.len() ==> #[trigger] squares@[i] == spec_square_setup(i % 8, i / 8),
            decreases 8 - row,
        {
            let shade = square_shade(row, col);
            let piece = starting_piece(row, col);
            let ghost idx: int = col * 8 + row;
            assert(idx % 8 == row && idx / 8 == col) by (nonlinear_arith)
                requires
                    idx == col * 8 + row,
                    0 <= row < 8,
                    0 <= col;
            squares.push(SquareSetup { row, col, shade, piece });
            row = row + 1;
        }
        col = col + 1;
    }
    squares
}

/// The material that a piece of `color` wears: white pieces are dressed in
/// the dark material and black pieces in the light one.
pub open spec fn spec_piece_material(color: PieceColor) -> Shade {
    match color {
        PieceColor::White => Shade::Dark,
        PieceColor::Black => Shade::Light,
    }
}

/// The material for the meshes of a piece of `color`.
pub fn piece_material(color: PieceColor) -> (s: Shade)
    ensures
        s == spec_piece_material(color),
{
    match color {
        PieceColor::White => Shade::Dark,
        PieceColor::Black => Shade::Light,
    }
}

/// Neighbouring tiles differ in shade, along rows and along columns.
pub proof fn lemma_checkerboard(row: int, col: int)
    ensures
        spec_square_shade(row, col) != spec_square_shade(row + 1, col),
        spec_square_shade(row, col) != spec_square_shade(row, col + 1),
{
}

/// The starting board is symmetric across its middle: the square at `row`
/// and the square at `7 - row` in the same column hold the same kind of
/// piece, or are both empty, and the two pieces belong to opposite sides and
/// are turned in opposite directions.
pub proof fn lemma_starting_mirror(row: int, col: int)
    requires
        0 <= row < 8,
        0 <= col < 8,
    ensures
        spec_starting_piece(row, col) is Some <==> spec_starting_piece(7 - row, col) is Some,
        spec_starting_piece(row, col) matches Some(p) ==> {
            let q = spec_starting_piece(7 - row, col)->0;
            &&& q.kind == p.kind
            &&& q.color == p.color.spec_opponent()
            &&& q.turn == mirrored_turn(p.turn)
        },
{
}

/// The same turn in the opposite direction.
pub open spec fn mirrored_turn(t: Turn) -> Turn {
    match t {
        Turn::Straight => Turn::Straight,
        Turn::NegativeQuarter => Turn::PositiveQuarter,
        Turn::PositiveQuarter => Turn::NegativeQuarter,
    }
}

/// Whether the square at `row`, `col` starts with a piece of `color`, of
/// `kind` when a kind is given.
pub open spec fn holds(row: int, col: int, color: PieceColor, kind: Option<PieceKind>) -> bool {
    match spec_starting_piece(row, col) {
        Some(p) => p.color == color && match kind {
            Some(k) => p.kind == k,
            None => true,
        },
        None => false,
    }
}

/// How many of the first `n` squares of `row` start with such a piece.
pub open spec fn count_in_row(row: int, n: nat, color: PieceColor, kind: Option<PieceKind>) -> nat
    decreases n,
{
    if n == 0 {
        0
    } else {
        count_in_row(row, (n - 1) as nat, color, kind) + if holds(row, n - 1, color, kind) {
            1nat
        } else {
            0nat
        }
    }
}

/// How many squares of the first `n` rows start with such a piece.
pub open spec fn count_in_rows(n: nat, color: PieceColor, kind: Option<PieceKind>) -> nat
    decreases n,
{
    if n == 0 {
        0
    } else {
        count_in_rows((n - 1) as nat, color, kind) + count_in_row(n - 1, 8, color, kind)
    }
}

/// Each side starts with sixteen pieces: eight pawns, two rooks, two
/// knights, two bishops, one king and one queen.
pub proof fn lemma_starting_counts(color: PieceColor)
    ensures
        count_in_rows(8, color, None) == 16,
        count_in_rows(8, color, Some(PieceKind::Pawn)) == 8,
        count_in_rows(8, color, Some(PieceKind::Rook)) == 2,
        count_in_rows(8, color, Some(PieceKind::Knight)) == 2,
        count_in_rows(8, color, Some(PieceKind::Bishop)) == 2,
        count_in_rows(8, color, Some(PieceKind::King)) == 1,
        count_in_rows(8, color, Some(PieceKind::Queen)) == 1,
{
    reveal_with_fuel(count_in_row, 9);
    reveal_with_fuel(count_in_rows, 9);
}

/// The two sides wear different materials, and white pieces wear the dark
/// one.
pub proof fn lemma_material_opposes_side(color: PieceColor)
    ensures
        spec_piece_material(PieceColor::White) == Shade::Dark,
        spec_piece_material(color) != spec_piece_material(color.spec_opponent()),
{
}

/// The starting sides: every square of the two rows below the middle holds
/// a white piece, every square of the two rows above it a black piece, and
/// the four middle rows are empty.
pub proof fn law_starting_sides(row: int, col: int)
    requires
        0 <= row < 8,
        0 <= col < 8,
    ensures
        row < 2 ==> (spec_starting_piece(row, col) matches Some(p) && p.color == PieceColor::White),
        row > 5 ==> (spec_starting_piece(row, col) matches Some(p) && p.color == PieceColor::Black),
        2 <= row <= 5 ==> spec_starting_piece(row, col) is None,
{
}

/// The starting kinds: pawns fill rows 1 and 6, and both back rows read,
/// column by column, rook, knight, bishop, king, queen, bishop, knight,
/// rook.
pub proof fn law_starting_kinds(row: int, col: int)
    requires
        0 <= col < 8,
        row == 0 || row == 1 || row == 6 || row == 7,
    ensures
        ({
            let k = spec_starting_piece(row, col)->0.kind;
            &&& spec_starting_piece(row, col) is Some
            &&& (row == 1 || row == 6) ==> k == PieceKind::Pawn
            &&& (row == 0 || row == 7) ==> {
                &&& (col == 0 || col == 7) ==> k == PieceKind::Rook
                &&& (col == 1 || col == 6) ==> k == PieceKind::Knight
                &&& (col == 2 || col == 5) ==> k == PieceKind::Bishop
                &&& col == 3 ==> k == PieceKind::King
                &&& col == 4 ==> k == PieceKind::Queen
            }
        }),
{
}

/// The starting turns: in the second and seventh columns white pieces are
/// turned a negative quarter and black pieces a positive quarter; all other
/// pieces stand straight.
pub proof fn law_starting_turns(row: int, col: int)
    requires
        0 <= row < 8,
        0 <= col < 8,
        spec_starting_piece(row, col) is Some,
    ensures
        ({
            let p = spec_starting_piece(row, col)->0;
            &&& (col == 1 || col == 6) && p.color == PieceColor::White ==> p.turn == Turn::NegativeQuarter
            &&& (col == 1 || col == 6) && p.color == PieceColor::Black ==> p.turn == Turn::PositiveQuarter
            &&& !(col == 1 || col == 6) ==> p.turn == Turn::Straight
        }),
{
}

/// The corner tile at row 0, column 0 is dark; with the checkerboard law
/// this fixes every tile.
pub proof fn law_corner_is_dark()
    ensures
        spec_square_shade(0, 0) == Shade::Dark,
        spec_square_shade(0, 1) == Shade::Light,
{
}

/// The setup of a square names that square, its tile and its piece.
pub proof fn law_square_setup_names_its_square(row: int, col: int)
    requires
        0 <= row < 8,
        0 <= col < 8,
    ensures
        spec_square_setup(row, col).row == row,
        spec_square_setup(row, col).col == col,
        spec_square_setup(row, col).shade == spec_square_shade(row, col),
        spec_square_setup(row, col).piece == spec_starting_piece(row, col),
{
}

/// White pieces wear the dark material and black pieces the light one; the
/// opponent of each side is the other side.
pub proof fn law_materials_and_sides()
    ensures
        spec_piece_material(PieceColor::White) == Shade::Dark,
        spec_piece_material(PieceColor::Black) == Shade::Light,
        PieceColor::White.spec_opponent() == PieceColor::Black,
        PieceColor::Black.spec_opponent() == PieceColor::White,
{
}

} // verus!
