//! Laws of play, stated over the inputs and results of the operations.

use vstd::prelude::*;

use crate::board::PieceColor;
use crate::play::{
    first_meeting, move_scan, same_place, scan, Animation, Click, Destination, EntityId, Height,
    PieceOnBoard, PlayState, Scan, Spot,
};

verus! {

/// The pattern of a finite single-precision value: its exponent bits are
/// not all set.
pub open spec fn finite_bits(a: u32) -> bool {
    (a & 0x7f80_0000u32) != 0x7f80_0000u32
}

/// The pattern of a zero of either sign.
pub open spec fn zero_bits(a: u32) -> bool {
    (a & 0x7fff_ffffu32) == 0
}

/// The pattern of a value that is not a number.
pub open spec fn not_a_number_bits(a: u32) -> bool {
    (a & 0x7f80_0000u32) == 0x7f80_0000u32 && (a & 0x007f_ffffu32) != 0
}

/// Places are matched as numbers, coordinate by coordinate: a place with
/// finite coordinates is the same as itself; places whose x or whose z
/// coordinates differ (and are not both zeros) are different; the two zeros
/// match; a coordinate that is not a number matches nothing; and matching
/// is symmetric.
pub proof fn law_places_match_as_numbers(a: Spot, b: Spot)
    ensures
        finite_bits(a.x) && finite_bits(a.z) ==> same_place(a, a),
        a.x != b.x && !(zero_bits(a.x) && zero_bits(b.x)) ==> !same_place(a, b),
        a.z != b.z && !(zero_bits(a.z) && zero_bits(b.z)) ==> !same_place(a, b),
        zero_bits(a.x) && zero_bits(b.x) && a.z == b.z && finite_bits(a.z) ==> same_place(a, b),
        zero_bits(a.z) && zero_bits(b.z) && a.x == b.x && finite_bits(a.x) ==> same_place(a, b),
        not_a_number_bits(a.x) || not_a_number_bits(a.z) ==> !same_place(a, b),
        same_place(a, b) == same_place(b, a),
{
    assert(forall|v: u32| #[trigger] (v & 0x7fff_ffffu32) == 0 ==> (v & 0x7f80_0000u32) != 0x7f80_0000u32)
        by (bit_vector);
}

/// A search that has stopped stays stopped.
pub proof fn law_stopped_search_stays(pieces: Seq<PieceOnBoard>, spot: Spot, mover: Option<PieceColor>, start: Scan)
    requires
        !(start is Going),
    ensures
        scan(pieces, spot, mover, start) == start,
    decreases pieces.len(),
{
    if pieces.len() > 0 {
        law_stopped_search_stays(pieces.drop_last(), spot, mover, start);
    }
}

/// A piece of the mover's own side on the searched place stops the search:
/// it does not end going on.
pub proof fn law_own_piece_stops_search(
    pieces: Seq<PieceOnBoard>,
    spot: Spot,
    mine: PieceColor,
    start: Scan,
    i: int,
)
    requires
        0 <= i < pieces.len(),
        same_place(pieces[i].spot, spot),
        pieces[i].color == Some(mine),
    ensures
        !(scan(pieces, spot, Some(mine), start) is Going),
    decreases pieces.len(),
{
    let prev = pieces.drop_last();
    if i == pieces.len() - 1 {
        assert(pieces[i] == pieces.last());
    } else {
        assert(prev[i] == pieces[i]);
        law_own_piece_stops_search(prev, spot, mine, start, i);
    }
}

/// When every piece on the searched place belongs to the other side, a
/// search that starts going ends going; it ends on the last such piece in
/// the list when there is one, and on its start when there is none.
pub proof fn law_search_among_opponents(pieces: Seq<PieceOnBoard>, spot: Spot, mine: PieceColor, start: Scan)
    requires
        start is Going,
        forall|j: int|
            0 <= j < pieces.len() && #[trigger] same_place(pieces[j].spot, spot) ==> pieces[j].color
                == Some(mine.spec_opponent()),
    ensures
        scan(pieces, spot, Some(mine), start) is Going,
        (start matches Scan::Going(Some(_)) || exists|j: int|
            0 <= j < pieces.len() && #[trigger] same_place(pieces[j].spot, spot)) ==> scan(
            pieces,
            spot,
            Some(mine),
            start,
        ) matches Scan::Going(Some(_)),
        (forall|j: int| 0 <= j < pieces.len() ==> !#[trigger] same_place(pieces[j].spot, spot))
            ==> scan(pieces, spot, Some(mine), start) == start,
        forall|k: int|
            0 <= k < pieces.len() && #[trigger] same_place(pieces[k].spot, spot) && (forall|j: int|
                k < j < pieces.len() ==> !#[trigger] same_place(pieces[j].spot, spot)) ==> scan(
                pieces,
                spot,
                Some(mine),
                start,
            ) == Scan::Going(Some(pieces[k].id)),
    decreases pieces.len(),
{
    if pieces.len() > 0 {
        let prev = pieces.drop_last();
        let n = pieces.len() - 1;
        assert forall|j: int|
            0 <= j < prev.len() && #[trigger] same_place(prev[j].spot, spot) implies prev[j].color
                == Some(mine.spec_opponent()) by {
            assert(prev[j] == pieces[j]);
        }
        law_search_among_opponents(prev, spot, mine, start);
        assert(pieces[n] == pieces.last());
        if exists|j: int| 0 <= j < pieces.len() && #[trigger] same_place(pieces[j].spot, spot) {
            let j = choose|j: int| 0 <= j < pieces.len() && #[trigger] same_place(pieces[j].spot, spot);
            if j < n {
                assert(prev[j] == pieces[j]);
            }
        }
        if (forall|j: int| 0 <= j < pieces.len() ==> !#[trigger] same_place(pieces[j].spot, spot)) {
            assert forall|j: int| 0 <= j < prev.len() implies !#[trigger] same_place(prev[j].spot, spot) by {
                assert(prev[j] == pieces[j]);
                assert(!same_place(pieces[j].spot, spot));
            }
        }
        assert forall|k: int|
            0 <= k < pieces.len() && #[trigger] same_place(pieces[k].spot, spot) && (forall|j: int|
                k < j < pieces.len() ==> !#[trigger] same_place(pieces[j].spot, spot)) implies scan(
            pieces,
            spot,
            Some(mine),
            start,
        ) == Scan::Going(Some(pieces[k].id)) by {
            if k < n {
                assert(!same_place(pieces[n].spot, spot));
                assert(prev[k] == pieces[k]);
                assert forall|j: int| k < j < prev.len() implies !#[trigger] same_place(prev[j].spot, spot) by {
                    assert(prev[j] == pieces[j]);
                    assert(!same_place(pieces[j].spot, spot));
                }
            }
        }
    }
}

/// With a piece selected and no movement under way, a click on a place
/// where an opponent stands (the clicked piece, or a listed piece on the
/// place), with no piece of the selected side in the way, captures: the
/// selection is cleared, the selected piece heads for the place at resting
/// height, and the captured piece is the last listed piece on the place, or
/// the clicked piece when none is listed there. This holds for either side.
pub proof fn law_click_on_opponent_captures(s: PlayState, click: Click, place: Spot, mine: PieceColor)
    requires
        s.animation.is_finished,
        s.selected is Some,
        click.selected_color == Some(mine),
        click.hovered_spot == Some(place) || (click.hovered_spot is None && place == Spot { x: 0, z: 0 }),
        finite_bits(place.x),
        finite_bits(place.z),
        click.hovered_is_piece && click.hovered != s.selected->0 ==> click.hovered_color == Some(
            mine.spec_opponent(),
        ),
        forall|j: int|
            0 <= j < click.pieces@.len() && #[trigger] same_place(click.pieces@[j].spot, place)
                ==> click.pieces@[j].color == Some(mine.spec_opponent()),
        (click.hovered_is_piece && click.hovered != s.selected->0) || exists|i: int|
            0 <= i < click.pieces@.len() && #[trigger] click.pieces@[i].spot == place,
    ensures
        s.spec_after_click(click).1 is Some,
        s.spec_after_click(click).0.selected is None,
        s.spec_after_click(click).0.animation == (Animation {
            target: s.selected,
            final_location: Some(Destination { spot: place, height: Height::Resting }),
            is_finished: false,
        }),
        forall|k: int|
            0 <= k < click.pieces@.len() && #[trigger] same_place(click.pieces@[k].spot, place) && (
            forall|j: int|
                k < j < click.pieces@.len() ==> !#[trigger] same_place(click.pieces@[j].spot, place))
                ==> s.spec_after_click(click).1 == Some(click.pieces@[k].id),
        (forall|j: int| 0 <= j < click.pieces@.len() ==> !#[trigger] same_place(click.pieces@[j].spot, place))
            ==> s.spec_after_click(click).1 == Some(click.hovered),
{
    let sel = s.selected->0;
    law_places_match_as_numbers(place, place);
    let start = first_meeting(sel, click);
    law_search_among_opponents(click.pieces@, place, mine, start);
    if exists|i: int| 0 <= i < click.pieces@.len() && #[trigger] click.pieces@[i].spot == place {
        let i = choose|i: int| 0 <= i < click.pieces@.len() && #[trigger] click.pieces@[i].spot == place;
        assert(same_place(click.pieces@[i].spot, place));
    }
    assert(move_scan(sel, click) == scan(click.pieces@, place, Some(mine), start));
    assert(move_scan(sel, click) matches Scan::Going(Some(_)));
    let capture = move_scan(sel, click)->Going_0;
    assert(s.spec_after_click(click) == (
        PlayState {
            selected: None,
            animation: Animation {
                target: s.selected,
                final_location: Some(Destination { spot: place, height: Height::Resting }),
                is_finished: false,
            },
        },
        capture,
    ));
}

/// With a piece selected and no movement under way, a click on another
/// piece of the selected side, or on a place where a listed piece of that
/// side stands, changes nothing and captures nothing. This holds for either
/// side.
pub proof fn law_own_side_blocks(s: PlayState, click: Click, place: Spot, mine: PieceColor)
    requires
        s.animation.is_finished,
        s.selected is Some,
        click.selected_color == Some(mine),
        click.hovered_spot == Some(place) || (click.hovered_spot is None && place == Spot { x: 0, z: 0 }),
        finite_bits(place.x),
        finite_bits(place.z),
        (click.hovered_is_piece && click.hovered != s.selected->0 && click.hovered_color == Some(mine))
            || exists|i: int|
            0 <= i < click.pieces@.len() && #[trigger] click.pieces@[i].spot == place
                && click.pieces@[i].color == Some(mine),
    ensures
        s.spec_after_click(click) == (s, None::<EntityId>),
{
    let sel = s.selected->0;
    law_places_match_as_numbers(place, place);
    let start = first_meeting(sel, click);
    if start is Going {
        let i = choose|i: int|
            0 <= i < click.pieces@.len() && #[trigger] click.pieces@[i].spot == place
                && click.pieces@[i].color == Some(mine);
        law_own_piece_stops_search(click.pieces@, place, mine, start, i);
    } else {
        law_stopped_search_stays(click.pieces@, place, Some(mine), start);
    }
    assert(move_scan(sel, click) == scan(click.pieces@, place, Some(mine), start));
}

/// With a piece selected and no movement under way, a click on a place
/// where no listed piece stands, and that is not on another chess piece,
/// moves the selected piece there at resting height, clears the selection
/// and captures nothing.
pub proof fn law_move_to_free_place(s: PlayState, click: Click, place: Spot, mine: PieceColor)
    requires
        s.animation.is_finished,
        s.selected is Some,
        click.selected_color == Some(mine),
        click.hovered_spot == Some(place) || (click.hovered_spot is None && place == Spot { x: 0, z: 0 }),
        !(click.hovered_is_piece && click.hovered != s.selected->0),
        forall|j: int| 0 <= j < click.pieces@.len() ==> !#[trigger] same_place(click.pieces@[j].spot, place),
    ensures
        s.spec_after_click(click) == (
            PlayState {
                selected: None,
                animation: Animation {
                    target: s.selected,
                    final_location: Some(Destination { spot: place, height: Height::Resting }),
                    is_finished: false,
                },
            },
            None::<EntityId>,
        ),
{
    let sel = s.selected->0;
    let start = first_meeting(sel, click);
    law_search_among_opponents(click.pieces@, place, mine, start);
    assert(move_scan(sel, click) == scan(click.pieces@, place, Some(mine), start));
}

/// A click that aims at a place (the clicked entity's, or the origin when
/// it has none) fails when a side it needs is missing: the selected piece's
/// side when another chess piece is clicked or a listed piece stands on the
/// place, or the clicked piece's side.
pub proof fn law_missing_side_fails(s: PlayState, click: Click, place: Spot)
    requires
        s.animation.is_finished,
        s.selected is Some,
        click.hovered_spot == Some(place) || (click.hovered_spot is None && place == Spot { x: 0, z: 0 }),
        finite_bits(place.x),
        finite_bits(place.z),
        ({
            ||| click.hovered_is_piece && click.hovered != s.selected->0 && (click.selected_color is None
                || click.hovered_color is None)
            ||| click.selected_color is None && exists|i: int|
                0 <= i < click.pieces@.len() && #[trigger] click.pieces@[i].spot == place
        }),
    ensures
        s.spec_click_fails(click),
{
    let sel = s.selected->0;
    law_places_match_as_numbers(place, place);
    let start = first_meeting(sel, click);
    if start is Going {
        let i = choose|i: int| 0 <= i < click.pieces@.len() && #[trigger] click.pieces@[i].spot == place;
        assert(same_place(click.pieces@[i].spot, place));
        law_sideless_mover_fails(click.pieces@, place, start);
    } else {
        law_stopped_search_stays(click.pieces@, place, click.selected_color, start);
    }
    assert(move_scan(sel, click) == scan(click.pieces@, place, click.selected_color, start));
}

/// A search for a mover without a side either meets nothing and ends
/// where it started, or fails; it fails as soon as a piece stands on the
/// searched place.
pub proof fn law_sideless_mover_fails(pieces: Seq<PieceOnBoard>, spot: Spot, start: Scan)
    requires
        start is Going,
    ensures
        scan(pieces, spot, None, start) == start || scan(pieces, spot, None, start) == Scan::Failed,
        (exists|i: int| 0 <= i < pieces.len() && #[trigger] same_place(pieces[i].spot, spot)) ==> scan(
            pieces,
            spot,
            None,
            start,
        ) == Scan::Failed,
    decreases pieces.len(),
{
    if pieces.len() > 0 {
        let prev = pieces.drop_last();
        law_sideless_mover_fails(prev, spot, start);
        let n = pieces.len() - 1;
        assert(pieces[n] == pieces.last());
        if exists|i: int| 0 <= i < pieces.len() && #[trigger] same_place(pieces[i].spot, spot) {
            let i = choose|i: int| 0 <= i < pieces.len() && #[trigger] same_place(pieces[i].spot, spot);
            if i < n {
                assert(prev[i] == pieces[i]);
            }
        }
    }
}

/// With nothing selected and no movement under way, a click on a chess
/// piece selects it and captures nothing; when the piece has a place it is
/// lifted there, and otherwise the movement is left as it was.
pub proof fn law_click_picks_up(s: PlayState, click: Click)
    requires
        s.animation.is_finished,
        s.selected is None,
        click.hovered_is_piece,
    ensures
        s.spec_after_click(click).1 is None,
        s.spec_after_click(click).0.selected == Some(click.hovered),
        click.hovered_spot matches Some(p) ==> s.spec_after_click(click).0.animation == (Animation {
            target: Some(click.hovered),
            final_location: Some(Destination { spot: p, height: Height::Lifted }),
            is_finished: false,
        }),
        click.hovered_spot is None ==> s.spec_after_click(click).0.animation == s.animation,
{
}

/// Letting go, when no movement is under way and the selected piece has a
/// place, clears the selection and sets that piece down on its place at
/// resting height; in every other case it changes nothing.
pub proof fn law_let_go(s: PlayState, selected_spot: Option<Spot>)
    ensures
        s.animation.is_finished && s.selected is Some && selected_spot is Some ==> s.spec_after_cancel(
            selected_spot,
        ) == (PlayState {
            selected: None,
            animation: Animation {
                target: s.selected,
                final_location: Some(Destination { spot: selected_spot->0, height: Height::Resting }),
                is_finished: false,
            },
        }),
        !(s.animation.is_finished && s.selected is Some && selected_spot is Some)
            ==> s.spec_after_cancel(selected_spot) == s,
{
}

/// The piece being moved is the movement's target, heading for its final
/// location, and there is one exactly when both are set.
pub proof fn law_moving_piece(s: PlayState)
    ensures
        s.spec_moving_piece() is Some <==> (s.animation.target is Some && s.animation.final_location is Some),
        s.spec_moving_piece() matches Some((t, d)) ==> s.animation.target == Some(t)
            && s.animation.final_location == Some(d),
        PlayState::spec_new().selected is None,
        PlayState::spec_new().animation.is_finished,
        PlayState::spec_new().spec_moving_piece() is None,
        PlayState::spec_new().animation == (Animation { target: None, final_location: None, is_finished: true }),
{
}

} // verus!
