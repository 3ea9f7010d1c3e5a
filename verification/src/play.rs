use vstd::prelude::*;

use crate::board::PieceColor;

verus! {

/// An entity of the scene, known by the bits of its identifier.
#[derive(Clone, Copy, Debug, PartialEq, Eq, Structural)]
pub struct EntityId(pub u64);

/// A place on the board plane, given by the bit patterns of its two
/// single-precision horizontal coordinates; the origin has the pattern zero
/// in both. Places are matched as numbers (see `same_place`), not as
/// patterns.
#[derive(Clone, Copy, Debug, PartialEq, Eq, Structural)]
pub struct Spot {
    pub x: u32,
    pub z: u32,
}

/// The height a moving piece heads for: standing on the board, or lifted
/// above it while it is selected.
#[derive(Clone, Copy, Debug, PartialEq, Eq, Structural)]
pub enum Height {
    Resting,
    Lifted,
}

/// Where a moving piece ends up.
#[derive(Clone, Copy, Debug, PartialEq, Eq, Structural)]
pub struct Destination {
    pub spot: Spot,
    pub height: Height,
}

/// The one piece movement that may be under way.
#[derive(Clone, Copy, Debug, PartialEq, Eq, Structural)]
pub struct Animation {
    pub target: Option<EntityId>,
    pub final_location: Option<Destination>,
    pub is_finished: bool,
}

/// A chess piece as a click sees it: its entity, its side if it has one,
/// and where it stands.
#[derive(Clone, Copy, Debug, PartialEq, Eq, Structural)]
pub struct PieceOnBoard {
    pub id: EntityId,
    pub color: Option<PieceColor>,
    pub spot: Spot,
}

/// Everything a click on an entity needs to know of the scene.
///
/// `hovered_spot` is where the clicked entity stands, if it has a place;
/// `hovered_is_piece` says whether it is a chess piece; `hovered_color` and
/// `selected_color` are the sides of the clicked entity and of the selected
/// piece, where they have one; `pieces` lists every chess piece that has a
/// place, in the order in which the scene walks them.
#[derive(Clone, Debug)]
pub struct Click {
    pub hovered: EntityId,
    pub hovered_spot: Option<Spot>,
    pub hovered_is_piece: bool,
    pub hovered_color: Option<PieceColor>,
    pub selected_color: Option<PieceColor>,
    pub pieces: Vec<PieceOnBoard>,
}

/// The state of play between frames: the selected piece, if any, and the
/// piece movement.
#[derive(Clone, Copy, Debug, PartialEq, Eq, Structural)]
pub struct PlayState {
    pub selected: Option<EntityId>,
    pub animation: Animation,
}

/// How the search for a piece to capture stands: still going, with the
/// capture found so far; given up because a piece of the mover's own side
/// stands there; or failed because a side could not be looked up.
#[derive(Clone, Copy, Debug, PartialEq, Eq, Structural)]
pub enum Scan {
    Going(Option<EntityId>),
    Blocked,
    Failed,
}

/// The pattern of a single-precision value that is not a number: all
/// exponent bits set and a nonzero fraction.
pub open spec fn is_nan_bits(a: u32) -> bool {
    (a & 0x7f80_0000u32) == 0x7f80_0000u32 && (a & 0x007f_ffffu32) != 0
}

/// Whether two single-precision values, given by their patterns, are equal
/// as numbers: a value that is not a number equals nothing, the two zeros
/// equal each other, and any other values are equal when their patterns
/// are.
pub open spec fn spec_same_coord(a: u32, b: u32) -> bool {
    if is_nan_bits(a) || is_nan_bits(b) {
        false
    } else {
        a == b || ((a & 0x7fff_ffffu32) == 0 && (b & 0x7fff_ffffu32) == 0)
    }
}

/// Two places are the same when both coordinates are equal as numbers.
pub open spec fn same_place(a: Spot, b: Spot) -> bool {
    spec_same_coord(a.x, b.x) && spec_same_coord(a.z, b.z)
}

/// Whether two coordinates are equal as numbers.
pub fn same_coord(a: u32, b: u32) -> (r: bool)
    ensures
        r == spec_same_coord(a, b),
{
    let a_nan = (a & 0x7f80_0000u32) == 0x7f80_0000u32 && (a & 0x007f_ffffu32) != 0;
    let b_nan = (b & 0x7f80_0000u32) == 0x7f80_0000u32 && (b & 0x007f_ffffu32) != 0;
    if a_nan || b_nan {
        false
    } else {
        a == b || ((a & 0x7fff_ffffu32) == 0 && (b & 0x7fff_ffffu32) == 0)
    }
}

/// Whether two places are the same (see `same_place`).
pub fn is_same_place(a: Spot, b: Spot) -> (r: bool)
    ensures
        r == same_place(a, b),
{
    same_coord(a.x, b.x) && same_coord(a.z, b.z)
}

/// The movement that is under way in no way: nothing to move.
pub open spec fn idle_animation() -> Animation {
    Animation { target: None, final_location: None, is_finished: true }
}

/// A movement is finished exactly when it has neither a target nor a
/// destination, and it has both or neither.
pub open spec fn animation_wf(a: Animation) -> bool {
    &&& (a.is_finished <==> a.target is None)
    &&& (a.target is None <==> a.final_location is None)
}

/// The place a click aims at: where the clicked entity stands, or the origin
/// when it has no place.
pub open spec fn click_spot(click: Click) -> Spot {
    match click.hovered_spot {
        Some(s) => s,
        None => Spot { x: 0, z: 0 },
    }
}

/// Compare the mover's side with the side of a piece in the way: a piece of
/// the other side is the one to capture, one of the same side blocks the
/// move, and a side that cannot be looked up fails.
pub open spec fn meet(mover: Option<PieceColor>, other: Option<PieceColor>, id: EntityId) -> Scan {
    match (mover, other) {
        (Some(a), Some(b)) => if a != b {
            Scan::Going(Some(id))
        } else {
            Scan::Blocked
        },
        _ => Scan::Failed,
    }
}

/// One step of the search over the pieces: a piece that stands on `spot`
/// is met, other pieces are passed by, and a search that has stopped stays
/// stopped.
pub open spec fn scan_step(acc: Scan, p: PieceOnBoard, spot: Spot, mover: Option<PieceColor>) -> Scan {
    match acc {
        Scan::Going(_) => if same_place(p.spot, spot) {
            meet(mover, p.color, p.id)
        } else {
            acc
        },
        _ => acc,
    }
}

/// The search over `pieces` in order, from `start`.
pub open spec fn scan(pieces: Seq<PieceOnBoard>, spot: Spot, mover: Option<PieceColor>, start: Scan) -> Scan
    decreases pieces.len(),
{
    if pieces.len() == 0 {
        start
    } else {
        scan_step(scan(pieces.drop_last(), spot, mover, start), pieces.last(), spot, mover)
    }
}

/// Where the search starts when `sel` is selected: a click on another chess
/// piece meets that piece first.
pub open spec fn first_meeting(sel: EntityId, click: Click) -> Scan {
    if click.hovered_is_piece && sel != click.hovered {
        meet(click.selected_color, click.hovered_color, click.hovered)
    } else {
        Scan::Going(None)
    }
}

/// The whole search for a capture when `sel` is selected.
pub open spec fn move_scan(sel: EntityId, click: Click) -> Scan {
    scan(click.pieces@, click_spot(click), click.selected_color, first_meeting(sel, click))
}

impl Click {
    /// Well formed with respect to the selection `sel`: every entity has one
    /// side wherever the click names it, so a listed piece that is the
    /// clicked entity carries the clicked entity's side, and the selected
    /// piece carries the selected side wherever it is listed or clicked.
    pub open spec fn wf(self, sel: Option<EntityId>) -> bool {
        &&& forall|i: int|
            0 <= i < self.pieces@.len() && #[trigger] self.pieces@[i].id == self.hovered
                ==> self.pieces@[i].color == self.hovered_color
        &&& sel matches Some(s) ==> {
            &&& (forall|i: int|
                0 <= i < self.pieces@.len() && #[trigger] self.pieces@[i].id == s
                    ==> self.pieces@[i].color == self.selected_color)
            &&& self.hovered == s ==> self.hovered_color == self.selected_color
        }
    }
}

impl PlayState {
    /// Nothing selected and nothing moving.
    pub open spec fn spec_new() -> PlayState {
        PlayState { selected: None, animation: idle_animation() }
    }

    /// Well formed: the movement is finished exactly when it has no target.
    pub open spec fn wf(self) -> bool {
        animation_wf(self.animation)
    }

    /// A click cannot be handled: a piece is selected, no movement is under
    /// way, and the side of the selected piece or of a piece in its way
    /// cannot be looked up.
    pub open spec fn spec_click_fails(self, click: Click) -> bool {
        &&& self.animation.is_finished
        &&& self.selected matches Some(sel)
        &&& move_scan(sel, click) is Failed
    }

    /// The state after a click, and the piece the click captures.
    ///
    /// While a movement is under way clicks are ignored. With a piece
    /// selected, the click moves it: it heads for the clicked place at
    /// resting height, the selection is cleared, and the last piece of the
    /// other side met on the way is captured; a piece of its own side there
    /// stops the move and nothing changes. With nothing selected, a click on
    /// a chess piece selects it and lifts it where it stands.
    pub open spec fn spec_after_click(self, click: Click) -> (PlayState, Option<EntityId>) {
        if !self.animation.is_finished {
            (self, None)
        } else {
            match self.selected {
                Some(sel) => match move_scan(sel, click) {
                    Scan::Going(capture) => (
                        PlayState {
                            selected: None,
                            animation: Animation {
                                target: Some(sel),
                                final_location: Some(
                                    Destination { spot: click_spot(click), height: Height::Resting },
                                ),
                                is_finished: false,
                            },
                        },
                        capture,
                    ),
                    _ => (self, None),
                },
                None => if click.hovered_is_piece {
                    (
                        PlayState {
                            selected: Some(click.hovered),
                            animation: match click.hovered_spot {
                                Some(s) => Animation {
                                    target: Some(click.hovered),
                                    final_location: Some(
                                        Destination { spot: s, height: Height::Lifted },
                                    ),
                                    is_finished: false,
                                },
                                None => self.animation,
                            },
                        },
                        None,
                    )
                } else {
                    (self, None)
                },
            }
        }
    }

    /// The state after the player lets go of the selected piece, given where
    /// that piece stands: when nothing is moving and the selected piece has a
    /// place, it is set back down there at resting height and the selection
    /// is cleared; otherwise nothing changes.
    pub open spec fn spec_after_cancel(self, selected_spot: Option<Spot>) -> PlayState {
        if self.animation.is_finished {
            match (self.selected, selected_spot) {
                (Some(sel), Some(s)) => PlayState {
                    selected: None,
                    animation: Animation {
                        target: Some(sel),
                        final_location: Some(Destination { spot: s, height: Height::Resting }),
                        is_finished: false,
                    },
                },
                _ => self,
            }
        } else {
            self
        }
    }

    /// The movement under way: the piece to move and where it goes.
    pub open spec fn spec_moving_piece(self) -> Option<(EntityId, Destination)> {
        match (self.animation.target, self.animation.final_location) {
            (Some(t), Some(d)) => Some((t, d)),
            _ => None,
        }
    }

    /// Nothing selected and nothing moving.
    pub fn new() -> (s: PlayState)
        ensures
            s == PlayState::spec_new(),
            s.wf(),
    {
        PlayState {
            selected: None,
            animation: Animation { target: None, final_location: None, is_finished: true },
        }
    }

    /// Whether `click` cannot be handled (see `spec_click_fails`).
    pub fn click_fails(&self, click: &Click) -> (fails: bool)
        ensures
            fails == self.spec_click_fails(*click),
    {
        if !self.animation.is_finished {
            return false;
        }
        match self.selected {
            Some(sel) => match search_capture(sel, click) {
                Scan::Failed => true,
                _ => false,
            },
            None => false,
        }
    }

    /// Handle a click on an entity; returns the piece to remove, if any.
    pub fn handle_click(&mut self, click: &Click) -> (capture: Option<EntityId>)
        requires
            !old(self).spec_click_fails(*click),
        ensures
            (*final(self), capture) == old(self).spec_after_click(*click),
            click.wf(old(self).selected) && capture is Some ==> capture != old(self).selected,
    {
        proof {
            if old(self).spec_after_click(*click).1 is Some {
                lemma_capture_takes_opponent(*old(self), *click);
            }
        }
        if !self.animation.is_finished {
            return None;
        }
        match self.selected {
            Some(sel) => {
                match search_capture(sel, click) {
                    Scan::Going(capture) => {
                        let spot = match click.hovered_spot {
                            Some(s) => s,
                            None => Spot { x: 0, z: 0 },
                        };
                        self.animation = Animation {
                            target: Some(sel),
                            final_location: Some(Destination { spot, height: Height::Resting }),
                            is_finished: false,
                        };
                        self.selected = None;
                        capture
                    },
                    _ => None,
                }
            },
            None => {
                if click.hovered_is_piece {
                    self.selected = Some(click.hovered);
                    match click.hovered_spot {
                        Some(s) => {
                            self.animation = Animation {
                                target: Some(click.hovered),
                                final_location: Some(Destination { spot: s, height: Height::Lifted }),
                                is_finished: false,
                            };
                        },
                        None => {},
                    }
                }
                None
            },
        }
    }

    /// Let go of the selected piece (see `spec_after_cancel`).
    pub fn cancel_selection(&mut self, selected_spot: Option<Spot>)
        ensures
            *final(self) == old(self).spec_after_cancel(selected_spot),
    {
        if self.animation.is_finished {
            match (self.selected, selected_spot) {
                (Some(sel), Some(s)) => {
                    self.animation = Animation {
                        target: Some(sel),
                        final_location: Some(Destination { spot: s, height: Height::Resting }),
                        is_finished: false,
                    };
                    self.selected = None;
                },
                _ => {},
            }
        }
    }

    /// The piece being moved and its destination, if a movement is set.
    pub fn moving_piece(&self) -> (m: Option<(EntityId, Destination)>)
        ensures
            m == self.spec_moving_piece(),
    {
        match (self.animation.target, self.animation.final_location) {
            (Some(t), Some(d)) => Some((t, d)),
            _ => None,
        }
    }

    /// The moving piece has reached its destination: the movement ends and
    /// nothing is moving any more; the selection stays as it is.
    pub fn arrive(&mut self)
        ensures
            final(self).animation == idle_animation(),
            final(self).selected == old(self).selected,
    {
        self.animation = Animation { target: None, final_location: None, is_finished: true };
    }
}

/// What a search over `pieces` can find: a capture found by the search is
/// either the one it started with or a piece of the other side than
/// `mover` that stands on `spot`.
pub proof fn lemma_scan_capture(pieces: Seq<PieceOnBoard>, spot: Spot, mover: Option<PieceColor>, start: Scan)
    ensures
        scan(pieces, spot, mover, start) matches Scan::Going(Some(c)) ==> {
            ||| start == Scan::Going(Some(c))
            ||| exists|i: int|
                0 <= i < pieces.len() && #[trigger] pieces[i].id == c && same_place(pieces[i].spot, spot)
                    && mover is Some && pieces[i].color == Some(mover->0.spec_opponent())
        },
    decreases pieces.len(),
{
    if pieces.len() > 0 {
        let prev = pieces.drop_last();
        lemma_scan_capture(prev, spot, mover, start);
        let last_index = pieces.len() - 1;
        assert(pieces[last_index] == pieces.last());
        let prev_result = scan(prev, spot, mover, start);
        match prev_result {
            Scan::Going(Some(c)) => {
                if start != Scan::Going(Some(c)) {
                    let i = choose|i: int|
                        0 <= i < prev.len() && #[trigger] prev[i].id == c && same_place(prev[i].spot, spot)
                            && mover is Some && prev[i].color == Some(mover->0.spec_opponent());
                    assert(pieces[i] == prev[i]);
                }
            },
            _ => {},
        }
    }
}

/// A search that starts going and finds nothing in its way stays going
/// with no capture; in particular a search never fails when every side it
/// needs can be looked up.
pub proof fn lemma_scan_fails_only_without_sides(
    pieces: Seq<PieceOnBoard>,
    spot: Spot,
    mover: Option<PieceColor>,
    start: Scan,
)
    requires
        start != Scan::Failed,
        mover is Some,
        forall|i: int| 0 <= i < pieces.len() && #[trigger] same_place(pieces[i].spot, spot) ==> pieces[i].color is Some,
    ensures
        scan(pieces, spot, mover, start) != Scan::Failed,
    decreases pieces.len(),
{
    if pieces.len() > 0 {
        let prev = pieces.drop_last();
        assert forall|i: int| 0 <= i < prev.len() && #[trigger] same_place(prev[i].spot, spot) implies prev[i].color is Some by {
            assert(prev[i] == pieces[i]);
        }
        lemma_scan_fails_only_without_sides(prev, spot, mover, start);
        assert(pieces[pieces.len() - 1] == pieces.last());
    }
}

/// A click fails only when a side it needs is missing: with nothing
/// selected it never fails, and with a piece selected it does not fail when
/// the selected piece, a clicked chess piece and every piece on the clicked
/// place all have a side.
pub proof fn lemma_click_fails_only_without_sides(s: PlayState, click: Click)
    requires
        s.selected is Some ==> {
            &&& click.selected_color is Some
            &&& click.hovered_is_piece ==> click.hovered_color is Some
            &&& forall|i: int|
                0 <= i < click.pieces@.len() && #[trigger] same_place(click.pieces@[i].spot, click_spot(click))
                    ==> click.pieces@[i].color is Some
        },
    ensures
        !s.spec_click_fails(click),
{
    if let Some(sel) = s.selected {
        lemma_scan_fails_only_without_sides(
            click.pieces@,
            click_spot(click),
            click.selected_color,
            first_meeting(sel, click),
        );
    }
}

/// The state of play starts well formed, and every operation keeps it well
/// formed: a movement is finished exactly when it has neither a target nor
/// a destination.
pub proof fn lemma_operations_keep_wf(s: PlayState, click: Click, selected_spot: Option<Spot>)
    requires
        s.wf(),
    ensures
        PlayState::spec_new().wf(),
        s.spec_after_click(click).0.wf(),
        s.spec_after_cancel(selected_spot).wf(),
        (PlayState { selected: s.selected, animation: idle_animation() }).wf(),
{
}

/// While a piece is moving, a click changes nothing and captures nothing.
pub proof fn lemma_click_while_moving_is_ignored(s: PlayState, click: Click)
    requires
        !s.animation.is_finished,
    ensures
        s.spec_after_click(click) == (s, None::<EntityId>),
        !s.spec_click_fails(click),
{
}

/// A click on something that is not a chess piece, with nothing selected,
/// changes nothing.
pub proof fn lemma_click_on_empty_without_selection(s: PlayState, click: Click)
    requires
        s.selected is None,
        !click.hovered_is_piece,
    ensures
        s.spec_after_click(click) == (s, None::<EntityId>),
{
}

/// A capture takes only a piece of the other side than the selected piece,
/// and only one that was clicked or stands on the clicked place, and only
/// when no movement was under way; when the click is well formed (each
/// entity has one side wherever the click names it), the captured piece is
/// never the selected one. A capture always comes with a move: the
/// selection is cleared and the selected piece heads for the clicked place.
pub proof fn lemma_capture_takes_opponent(s: PlayState, click: Click)
    requires
        s.spec_after_click(click).1 is Some,
    ensures
        s.selected is Some,
        s.spec_after_click(click).0.selected is None,
        s.spec_after_click(click).0.spec_moving_piece()
            == Some((s.selected->0, Destination { spot: click_spot(click), height: Height::Resting })),
        click.selected_color is Some,
        ({
            let c = s.spec_after_click(click).1->0;
            let mine = click.selected_color->0;
            ||| (c == click.hovered && click.hovered_is_piece && click.hovered_color == Some(mine.spec_opponent()))
            ||| exists|i: int|
                0 <= i < click.pieces@.len() && #[trigger] click.pieces@[i].id == c
                    && same_place(click.pieces@[i].spot, click_spot(click))
                    && click.pieces@[i].color == Some(mine.spec_opponent())
        }),
        s.animation.is_finished,
        click.wf(s.selected) ==> s.spec_after_click(click).1 != s.selected,
{
    let sel = s.selected->0;
    let c = s.spec_after_click(click).1->0;
    let start = first_meeting(sel, click);
    lemma_scan_capture(click.pieces@, click_spot(click), click.selected_color, start);
    if start == Scan::Going(Some(c)) {
        assert(click.hovered_is_piece && sel != click.hovered);
    }
}

/// Picking a piece up and letting it go again puts it back: with nothing
/// selected and nothing moving, a click on a piece standing on `spot` lifts
/// it there; once it has arrived, letting go of it sets it back down on
/// `spot` and leaves nothing selected.
pub proof fn lemma_pick_up_then_let_go(s: PlayState, click: Click, spot: Spot)
    requires
        s.selected is None,
        s.animation.is_finished,
        click.hovered_is_piece,
        click.hovered_spot == Some(spot),
    ensures
        ({
            let picked = s.spec_after_click(click).0;
            let landed = PlayState { selected: picked.selected, animation: idle_animation() };
            let dropped = landed.spec_after_cancel(Some(spot));
            &&& picked.selected == Some(click.hovered)
            &&& picked.spec_moving_piece() == Some((click.hovered, Destination { spot, height: Height::Lifted }))
            &&& dropped.selected is None
            &&& dropped.spec_moving_piece() == Some((click.hovered, Destination { spot, height: Height::Resting }))
        }),
{
}

/// A move that is not blocked always sends the selected piece to the
/// clicked place at resting height and clears the selection.
pub proof fn lemma_move_lands_on_click(s: PlayState, click: Click)
    requires
        s.animation.is_finished,
        s.selected is Some,
        !(move_scan(s.selected->0, click) is Blocked),
        !s.spec_click_fails(click),
    ensures
        s.spec_after_click(click).0.selected is None,
        s.spec_after_click(click).0.spec_moving_piece()
            == Some((s.selected->0, Destination { spot: click_spot(click), height: Height::Resting })),
{
}

/// Meet the mover's side against another side.
fn meet_exec(mover: Option<PieceColor>, other: Option<PieceColor>, id: EntityId) -> (s: Scan)
    ensures
        s == meet(mover, other, id),
{
    match (mover, other) {
        (Some(a), Some(b)) => if a != b {
            Scan::Going(Some(id))
        } else {
            Scan::Blocked
        },
        _ => Scan::Failed,
    }
}

/// Search for the piece a move of `sel` captures.
pub fn search_capture(sel: EntityId, click: &Click) -> (s: Scan)
    ensures
        s == move_scan(sel, *click),
{
    let spot = match click.hovered_spot {
        Some(s) => s,
        None => Spot { x: 0, z: 0 },
    };
    let mut acc = if click.hovered_is_piece && sel != click.hovered {
        meet_exec(click.selected_color, click.hovered_color, click.hovered)
    } else {
        Scan::Going(None)
    };
    let ghost start = acc;
    let n = click.pieces.len();
    let mut i: usize = 0;
    while i < n
        invariant
            n == click.pieces@.len(),
            i <= n,
            spot == click_spot(*click),
            start == first_meeting(sel, *click),
            acc == scan(click.pieces@.take(i as int), spot, click.selected_color, start),
        decreases n - i,
    {
        let p = click.pieces[i];
        assert(click.pieces@.take(i + 1).drop_last() =~= click.pieces@.take(i as int));
        match acc {
            Scan::Going(_) => {
                if is_same_place(p.spot, spot) {
                    acc = meet_exec(click.selected_color, p.color, p.id);
                }
            },
            _ => {},
        }
        i = i + 1;
    }
    assert(click.pieces@.take(n as int) =~= click.pieces@);
    acc
}

} // verus!
