use chess3d::board::PieceColor;
use chess3d::play::{is_same_place, same_coord};
use chess3d::play::{
    search_capture, Animation, Click, Destination, EntityId, Height, PieceOnBoard, PlayState, Scan,
    Spot,
};

const WHITE_ROOK: EntityId = EntityId(10);
const WHITE_PAWN: EntityId = EntityId(11);
const BLACK_PAWN: EntityId = EntityId(20);
const TILE: EntityId = EntityId(99);

fn spot(x: u32, z: u32) -> Spot {
    Spot { x, z }
}

fn pieces() -> Vec<PieceOnBoard> {
    vec![
        PieceOnBoard { id: WHITE_ROOK, color: Some(PieceColor::White), spot: spot(1, 1) },
        PieceOnBoard { id: WHITE_PAWN, color: Some(PieceColor::White), spot: spot(1, 2) },
        PieceOnBoard { id: BLACK_PAWN, color: Some(PieceColor::Black), spot: spot(5, 5) },
    ]
}

fn click_on(hovered: EntityId, at: Option<Spot>, is_piece: bool, hovered_color: Option<PieceColor>, selected_color: Option<PieceColor>) -> Click {
    Click {
        hovered,
        hovered_spot: at,
        hovered_is_piece: is_piece,
        hovered_color,
        selected_color,
        pieces: pieces(),
    }
}

fn selected_rook() -> PlayState {
    let mut s = PlayState::new();
    s.selected = Some(WHITE_ROOK);
    s
}

#[test]
fn new_state_is_idle() {
    let s = PlayState::new();
    assert_eq!(s.selected, None);
    assert_eq!(s.animation, Animation { target: None, final_location: None, is_finished: true });
    assert_eq!(s.moving_piece(), None);
}

#[test]
fn clicking_a_piece_selects_and_lifts_it() {
    let mut s = PlayState::new();
    let c = click_on(WHITE_ROOK, Some(spot(1, 1)), true, Some(PieceColor::White), None);
    assert!(!s.click_fails(&c));
    assert_eq!(s.handle_click(&c), None);
    assert_eq!(s.selected, Some(WHITE_ROOK));
    assert_eq!(
        s.moving_piece(),
        Some((WHITE_ROOK, Destination { spot: spot(1, 1), height: Height::Lifted }))
    );
    assert!(!s.animation.is_finished);
}

#[test]
fn clicks_are_ignored_while_moving() {
    let mut s = PlayState::new();
    let c = click_on(WHITE_ROOK, Some(spot(1, 1)), true, Some(PieceColor::White), None);
    s.handle_click(&c);
    let before = s;
    let c2 = click_on(TILE, Some(spot(3, 3)), false, None, Some(PieceColor::White));
    assert_eq!(s.handle_click(&c2), None);
    assert_eq!(s, before);
}

#[test]
fn clicking_a_tile_with_nothing_selected_does_nothing() {
    let mut s = PlayState::new();
    let c = click_on(TILE, Some(spot(3, 3)), false, None, None);
    assert_eq!(s.handle_click(&c), None);
    assert_eq!(s, PlayState::new());
}

#[test]
fn moving_to_an_empty_tile() {
    let mut s = selected_rook();
    let c = click_on(TILE, Some(spot(3, 3)), false, None, Some(PieceColor::White));
    assert_eq!(s.handle_click(&c), None);
    assert_eq!(s.selected, None);
    assert_eq!(
        s.moving_piece(),
        Some((WHITE_ROOK, Destination { spot: spot(3, 3), height: Height::Resting }))
    );
}

#[test]
fn clicking_an_opponent_captures_it() {
    let mut s = selected_rook();
    let c = click_on(BLACK_PAWN, Some(spot(5, 5)), true, Some(PieceColor::Black), Some(PieceColor::White));
    assert_eq!(s.handle_click(&c), Some(BLACK_PAWN));
    assert_eq!(s.selected, None);
    assert_eq!(
        s.moving_piece(),
        Some((WHITE_ROOK, Destination { spot: spot(5, 5), height: Height::Resting }))
    );
}

#[test]
fn clicking_the_tile_under_an_opponent_captures_it() {
    let mut s = selected_rook();
    let c = click_on(TILE, Some(spot(5, 5)), false, None, Some(PieceColor::White));
    assert_eq!(search_capture(WHITE_ROOK, &c), Scan::Going(Some(BLACK_PAWN)));
    assert_eq!(s.handle_click(&c), Some(BLACK_PAWN));
}

#[test]
fn own_piece_blocks_the_move() {
    let mut s = selected_rook();
    let before = s;
    let c = click_on(WHITE_PAWN, Some(spot(1, 2)), true, Some(PieceColor::White), Some(PieceColor::White));
    assert_eq!(search_capture(WHITE_ROOK, &c), Scan::Blocked);
    assert_eq!(s.handle_click(&c), None);
    assert_eq!(s, before);
    // The tile under an own piece blocks as well.
    let c = click_on(TILE, Some(spot(1, 2)), false, None, Some(PieceColor::White));
    assert_eq!(s.handle_click(&c), None);
    assert_eq!(s, before);
}

#[test]
fn clicking_the_selected_piece_again_blocks() {
    let mut s = selected_rook();
    let before = s;
    let c = click_on(WHITE_ROOK, Some(spot(1, 1)), true, Some(PieceColor::White), Some(PieceColor::White));
    assert_eq!(s.handle_click(&c), None);
    assert_eq!(s, before);
}

#[test]
fn hovered_without_place_aims_at_origin() {
    let mut s = selected_rook();
    let c = click_on(TILE, None, false, None, Some(PieceColor::White));
    assert_eq!(s.handle_click(&c), None);
    assert_eq!(
        s.moving_piece(),
        Some((WHITE_ROOK, Destination { spot: spot(0, 0), height: Height::Resting }))
    );
}

#[test]
fn missing_side_fails() {
    let s = selected_rook();
    let c = click_on(BLACK_PAWN, Some(spot(5, 5)), true, Some(PieceColor::Black), None);
    assert!(s.click_fails(&c));
    let c = click_on(TILE, Some(spot(7, 7)), false, None, None);
    assert!(!s.click_fails(&c));
    assert!(!PlayState::new().click_fails(&c));
}

#[test]
fn arriving_and_letting_go() {
    let mut s = PlayState::new();
    let c = click_on(WHITE_PAWN, Some(spot(1, 2)), true, Some(PieceColor::White), None);
    s.handle_click(&c);
    // Letting go while the piece is still rising does nothing.
    let rising = s;
    s.cancel_selection(Some(spot(1, 2)));
    assert_eq!(s, rising);
    s.arrive();
    assert_eq!(s.animation, Animation { target: None, final_location: None, is_finished: true });
    assert_eq!(s.selected, Some(WHITE_PAWN));
    s.cancel_selection(Some(spot(1, 2)));
    assert_eq!(s.selected, None);
    assert_eq!(
        s.moving_piece(),
        Some((WHITE_PAWN, Destination { spot: spot(1, 2), height: Height::Resting }))
    );
}

#[test]
fn letting_go_of_a_piece_without_place_does_nothing() {
    let mut s = selected_rook();
    let before = s;
    s.cancel_selection(None);
    assert_eq!(s, before);
    let mut idle = PlayState::new();
    idle.cancel_selection(Some(spot(1, 1)));
    assert_eq!(idle, PlayState::new());
}

#[test]
fn later_opponent_on_the_same_place_wins() {
    let mut s = selected_rook();
    let mut c = click_on(TILE, Some(spot(5, 5)), false, None, Some(PieceColor::White));
    c.pieces.push(PieceOnBoard { id: EntityId(21), color: Some(PieceColor::Black), spot: spot(5, 5) });
    assert_eq!(s.handle_click(&c), Some(EntityId(21)));
}

#[test]
fn places_match_as_numbers() {
    let zero = 0.0f32.to_bits();
    let neg_zero = (-0.0f32).to_bits();
    let nan = f32::NAN.to_bits();
    let x = 3.85f32.to_bits();
    assert!(same_coord(zero, neg_zero));
    assert!(same_coord(neg_zero, zero));
    assert!(same_coord(x, x));
    assert!(!same_coord(x, zero));
    assert!(!same_coord(nan, nan));
    assert!(!same_coord(nan, zero));
    assert!(is_same_place(spot(neg_zero, x), spot(zero, x)));
    assert!(!is_same_place(spot(nan, x), spot(nan, x)));
}

#[test]
fn negative_zero_place_meets_the_origin() {
    // A click on an entity with no place aims at the origin, which is the
    // same place as one whose coordinates are negative zeros.
    let mut s = selected_rook();
    let neg_zero = (-0.0f32).to_bits();
    let mut c = click_on(TILE, None, false, None, Some(PieceColor::White));
    c.pieces.push(PieceOnBoard { id: EntityId(30), color: Some(PieceColor::Black), spot: spot(neg_zero, neg_zero) });
    assert_eq!(s.handle_click(&c), Some(EntityId(30)));
}

#[test]
fn pieces_at_an_unnumbered_place_are_never_met() {
    let mut s = selected_rook();
    let nan = f32::NAN.to_bits();
    let mut c = click_on(TILE, Some(spot(nan, 0)), false, None, Some(PieceColor::White));
    c.pieces.push(PieceOnBoard { id: EntityId(31), color: Some(PieceColor::Black), spot: spot(nan, 0) });
    assert_eq!(s.handle_click(&c), None);
    assert_eq!(s.selected, None);
}
