//! The chessboard widget: what it shows, what it remembers between frames,
//! and how it answers the host.

use crate::board::Square;
use crate::chess::GameState;
use crate::geometry::{spec_cursor_square, Cursor, Point, Rectangle, Size};
use crate::style::chess_board::Style;
use crate::widget::chess_board::event::{Button, Event, Interaction, MouseEvent, Response};
use crate::widget::chess_board::overlay::{
    lemma_cursor_on_board, on_cursor_moved, spec_diff_sound, spec_find_move,
    spec_mouse_interaction, spec_on_diff, spec_on_event, spec_on_event_mouse, Overlay,
    OverlayView,
};
use crate::widget::chess_board::render::{ChessBoardRenderer, Shape};
use crate::widget::chess_board::sound::SoundType;
use vstd::prelude::*;

pub mod event;
pub mod overlay;
pub mod render;
pub mod sound;

verus! {

/// What the board shows: a game state, and from which side.
#[derive(Clone, Copy, Debug)]
pub struct BState {
    pub game: GameState,
    pub flipped: bool,
}

impl PartialEq for BState {
    fn eq(&self, other: &BState) -> (r: bool) {
        self.game == other.game && self.flipped == other.flipped
    }
}

impl Eq for BState {

}

impl vstd::std_specs::cmp::PartialEqSpecImpl for BState {
    open spec fn obeys_eq_spec() -> bool {
        true
    }

    open spec fn eq_spec(&self, other: &BState) -> bool {
        self.game == other.game && self.flipped == other.flipped
    }
}

/// What the host wants to hear of. Moves are proposed, and destinations
/// hinted at, only while `on_move` is set.
#[derive(Clone, Copy, Debug, PartialEq, Eq, Structural)]
pub struct Messages {
    pub on_move: bool,
}

/// One layer's drawn shapes, kept until the layer is cleared. A cleared
/// cache holds nothing; a filled one holds the shapes and the size of the
/// bounds they were drawn for.
#[derive(Debug)]
pub struct Cache {
    pub filled: bool,
    pub width: i32,
    pub height: i32,
    pub shapes: Vec<Shape>,
    /// How often the layer has been drawn afresh. It stops at the largest
    /// number it can hold.
    pub redraws: u64,
}

#[verifier::ext_equal]
pub struct CacheView {
    pub filled: bool,
    pub width: int,
    pub height: int,
    pub shapes: Seq<Shape>,
    pub redraws: int,
}

impl CacheView {
    /// An empty cache that has never been drawn.
    pub open spec fn empty() -> CacheView {
        CacheView { filled: false, width: 0, height: 0, shapes: Seq::empty(), redraws: 0 }
    }

    /// The cache emptied; the count of redraws stays.
    pub open spec fn cleared(self) -> CacheView {
        CacheView { filled: false, width: 0, height: 0, shapes: Seq::empty(), redraws: self.redraws }
    }

    /// The cache emptied if `stale`, else as it is.
    pub open spec fn cleared_if(self, stale: bool) -> CacheView {
        if stale {
            self.cleared()
        } else {
            self
        }
    }

    /// Whether the cache holds shapes drawn for bounds of this size.
    pub open spec fn fresh_for(self, width: int, height: int) -> bool {
        self.filled && self.width == width && self.height == height
    }

    /// The cache filled with `shapes`, drawn for bounds of the given size,
    /// and counted as drawn once more.
    pub open spec fn filled_with(self, width: int, height: int, shapes: Seq<Shape>) -> CacheView {
        CacheView {
            filled: true,
            width,
            height,
            shapes,
            redraws: if self.redraws < u64::MAX {
                self.redraws + 1
            } else {
                self.redraws
            },
        }
    }

    /// The cache after a frame is drawn for bounds of the given size: as it
    /// is if it holds shapes drawn for that size, else filled with `shapes`.
    pub open spec fn redrawn(self, width: int, height: int, shapes: Seq<Shape>) -> CacheView {
        if self.fresh_for(width, height) {
            self
        } else {
            self.filled_with(width, height, shapes)
        }
    }
}

impl View for Cache {
    type V = CacheView;

    open spec fn view(&self) -> CacheView {
        CacheView {
            filled: self.filled,
            width: self.width as int,
            height: self.height as int,
            shapes: self.shapes@,
            redraws: self.redraws as int,
        }
    }
}

impl Cache {
    /// An empty cache that has never been drawn.
    pub fn new() -> (cache: Cache)
        ensures
            cache@ == CacheView::empty(),
    {
        Cache { filled: false, width: 0, height: 0, shapes: Vec::new(), redraws: 0 }
    }

    /// Whether the cache holds shapes drawn for bounds of this size.
    pub fn is_fresh(&self, width: i32, height: i32) -> (fresh: bool)
        ensures
            fresh == self@.fresh_for(width as int, height as int),
    {
        self.filled && self.width == width && self.height == height
    }

    /// Takes freshly drawn shapes in.
    pub fn fill(&mut self, width: i32, height: i32, shapes: Vec<Shape>)
        ensures
            final(self)@ == old(self)@.filled_with(width as int, height as int, shapes@),
    {
        self.filled = true;
        self.width = width;
        self.height = height;
        self.shapes = shapes;
        if self.redraws < u64::MAX {
            self.redraws = self.redraws + 1;
        }
    }

    /// Drops what the cache holds, so that the layer is drawn afresh next
    /// time.
    pub fn clear(&mut self)
        ensures
            final(self)@ == old(self)@.cleared(),
    {
        self.filled = false;
        self.width = 0;
        self.height = 0;
        self.shapes = Vec::new();
    }
}

/// Which layers an event made stale.
#[derive(Clone, Copy, Debug, PartialEq, Eq, Structural)]
pub struct Stale {
    pub board: bool,
    pub board_overlay: bool,
    pub pieces: bool,
    pub drag: bool,
    pub overlay: bool,
}

impl Stale {
    pub open spec fn nothing() -> Stale {
        Stale { board: false, board_overlay: false, pieces: false, drag: false, overlay: false }
    }

    pub open spec fn everything() -> Stale {
        Stale { board: true, board_overlay: true, pieces: true, drag: true, overlay: true }
    }
}

/// The caches of the five layers, named from the back to the front: the
/// tiles with their labels, the markers on the tiles, the pieces at rest,
/// the piece in the hand, and the arrows.
#[derive(Debug)]
pub struct Caches {
    pub board: Cache,
    pub board_overlay: Cache,
    pub pieces: Cache,
    pub drag: Cache,
    pub overlay: Cache,
}

#[verifier::ext_equal]
pub struct CachesView {
    pub board: CacheView,
    pub board_overlay: CacheView,
    pub pieces: CacheView,
    pub drag: CacheView,
    pub overlay: CacheView,
}

impl CachesView {
    /// Five empty caches.
    pub open spec fn empty() -> CachesView {
        CachesView {
            board: CacheView::empty(),
            board_overlay: CacheView::empty(),
            pieces: CacheView::empty(),
            drag: CacheView::empty(),
            overlay: CacheView::empty(),
        }
    }

    /// The caches after a frame is drawn: each cache that holds nothing, or
    /// shapes for bounds of another size, is filled with the shapes of its
    /// layer as the renderer draws them for the overlay; the others stay as
    /// they are.
    pub open spec fn redrawn(self, renderer: ChessBoardRenderer, overlay: OverlayView) -> CachesView {
        let width = renderer.bounds.width as int;
        let height = renderer.bounds.height as int;
        CachesView {
            board: self.board.redrawn(width, height, renderer.spec_draw_board()),
            board_overlay: self.board_overlay.redrawn(
                width,
                height,
                renderer.spec_draw_board_overlay(overlay),
            ),
            pieces: self.pieces.redrawn(width, height, renderer.spec_draw_pieces(overlay)),
            drag: self.drag.redrawn(width, height, renderer.spec_draw_drag(overlay)),
            overlay: self.overlay.redrawn(width, height, renderer.spec_draw_arrows(overlay.arrows)),
        }
    }

    /// Whether no cache holds shapes that have gone stale: each cache that
    /// holds shapes for the renderer's bounds holds the shapes that the
    /// renderer draws for the overlay.
    pub open spec fn current(self, renderer: ChessBoardRenderer, overlay: OverlayView) -> bool {
        let width = renderer.bounds.width as int;
        let height = renderer.bounds.height as int;
        &&& self.board.fresh_for(width, height) ==> self.board.shapes
            == renderer.spec_draw_board()
        &&& self.board_overlay.fresh_for(width, height) ==> self.board_overlay.shapes
            == renderer.spec_draw_board_overlay(overlay)
        &&& self.pieces.fresh_for(width, height) ==> self.pieces.shapes
            == renderer.spec_draw_pieces(overlay)
        &&& self.drag.fresh_for(width, height) ==> self.drag.shapes == renderer.spec_draw_drag(
            overlay,
        )
        &&& self.overlay.fresh_for(width, height) ==> self.overlay.shapes
            == renderer.spec_draw_arrows(overlay.arrows)
    }

    /// The frame: the shapes of the five layers, from the back to the front.
    pub open spec fn composed(self) -> Seq<Shape> {
        self.board.shapes + self.board_overlay.shapes + self.pieces.shapes + self.drag.shapes
            + self.overlay.shapes
    }

    /// The caches with every stale layer cleared and the others untouched.
    pub open spec fn invalidated(self, stale: Stale) -> CachesView {
        CachesView {
            board: self.board.cleared_if(stale.board),
            board_overlay: self.board_overlay.cleared_if(stale.board_overlay),
            pieces: self.pieces.cleared_if(stale.pieces),
            drag: self.drag.cleared_if(stale.drag),
            overlay: self.overlay.cleared_if(stale.overlay),
        }
    }
}

impl View for Caches {
    type V = CachesView;

    open spec fn view(&self) -> CachesView {
        CachesView {
            board: self.board@,
            board_overlay: self.board_overlay@,
            pieces: self.pieces@,
            drag: self.drag@,
            overlay: self.overlay@,
        }
    }
}

impl Default for Caches {
    /// Five empty caches.
    fn default() -> (caches: Caches)
        ensures
            caches@ == CachesView::empty(),
    {
        Caches {
            board: Cache::new(),
            board_overlay: Cache::new(),
            pieces: Cache::new(),
            drag: Cache::new(),
            overlay: Cache::new(),
        }
    }
}

/// Adds a copy of `layer` at the end of `frame`.
fn paint(frame: &mut Vec<Shape>, layer: &Vec<Shape>)
    ensures
        final(frame)@ == old(frame)@ + layer@,
{
    let mut i: usize = 0;
    while i < layer.len()
        invariant
            i <= layer.len(),
            frame@ == old(frame)@ + layer@.take(i as int),
        decreases layer.len() - i,
    {
        frame.push(layer[i]);
        i += 1;
        assert(frame@ =~= old(frame)@ + layer@.take(i as int));
    }
    assert(layer@.take(layer.len() as int) =~= layer@);
}

impl Caches {
    /// Draws afresh each layer whose cache holds nothing, or shapes for
    /// bounds of another size, and leaves the other caches alone.
    pub fn redraw(&mut self, renderer: &ChessBoardRenderer, overlay: &Overlay)
        ensures
            final(self)@ == old(self)@.redrawn(*renderer, overlay@),
    {
        let width: i32 = renderer.bounds.width;
        let height: i32 = renderer.bounds.height;
        if !self.board.is_fresh(width, height) {
            self.board.fill(width, height, renderer.draw_board());
        }
        if !self.board_overlay.is_fresh(width, height) {
            self.board_overlay.fill(width, height, renderer.draw_board_overlay(overlay));
        }
        if !self.pieces.is_fresh(width, height) {
            self.pieces.fill(width, height, renderer.draw_pieces(overlay));
        }
        if !self.drag.is_fresh(width, height) {
            self.drag.fill(width, height, renderer.draw_drag(overlay));
        }
        if !self.overlay.is_fresh(width, height) {
            self.overlay.fill(width, height, renderer.draw_arrows(overlay));
        }
    }

    /// Puts the five layers together, from the back to the front.
    pub fn compose(&self) -> (frame: Vec<Shape>)
        ensures
            frame@ == self@.composed(),
    {
        let mut frame: Vec<Shape> = Vec::new();
        paint(&mut frame, &self.board.shapes);
        paint(&mut frame, &self.board_overlay.shapes);
        paint(&mut frame, &self.pieces.shapes);
        paint(&mut frame, &self.drag.shapes);
        paint(&mut frame, &self.overlay.shapes);
        assert(frame@ =~= self@.composed());
        frame
    }

    /// Clears the caches of the stale layers.
    pub fn invalidate(&mut self, stale: Stale)
        ensures
            final(self)@ == old(self)@.invalidated(stale),
    {
        if stale.board {
            self.board.clear();
        }
        if stale.board_overlay {
            self.board_overlay.clear();
        }
        if stale.pieces {
            self.pieces.clear();
        }
        if stale.drag {
            self.drag.clear();
        }
        if stale.overlay {
            self.overlay.clear();
        }
    }
}

/// What a board keeps between frames: the interaction state, the caches of
/// its layers, and what it showed last.
#[derive(Debug)]
pub struct State {
    pub overlay: Overlay,
    pub cache: Caches,
    pub state: BState,
}

impl State {
    /// The memory of a board that shows `state` and has not been drawn or
    /// touched.
    pub fn new(state: BState) -> (fresh: State)
        ensures
            fresh.overlay@ == OverlayView::empty(),
            fresh.overlay@.inv(),
            fresh.cache@ == CachesView::empty(),
            fresh.state == state,
    {
        State { overlay: Overlay::new(), cache: Caches::default(), state }
    }
}

/// The board as the host describes it for one frame.
#[derive(Clone, Copy, Debug)]
pub struct ChessBoard {
    pub state: BState,
    pub message: Messages,
}

impl ChessBoard {
    /// A board that shows `game`, from Black's side if `flipped`, and takes
    /// no moves.
    pub fn new(game: GameState, flipped: bool) -> (board: ChessBoard)
        ensures
            board.state == (BState { game, flipped }),
            board.message == (Messages { on_move: false }),
    {
        ChessBoard { state: BState { game, flipped }, message: Messages { on_move: false } }
    }

    /// The same board, taking moves if `on_move`.
    pub fn on_move_maybe(self, on_move: bool) -> (board: ChessBoard)
        ensures
            board.state == self.state,
            board.message == (Messages { on_move }),
    {
        ChessBoard { state: self.state, message: Messages { on_move } }
    }

    /// The size the board asks for in the room it is given: a square as
    /// large as fits.
    pub fn layout(&self, available: Size) -> (size: Size)
        ensures
            size.width == size.height,
            size.width == if available.width <= available.height {
                available.width
            } else {
                available.height
            },
    {
        let side: i32 = if available.width <= available.height {
            available.width
        } else {
            available.height
        };
        Size { width: side, height: side }
    }

    /// Compares what the board is to show with what it showed last. If
    /// nothing changed, nothing happens. Else every layer goes stale and the
    /// new state is remembered; if the game changed, selection, marks and
    /// arrows go too, and the sound for the new position comes back.
    pub fn diff(&self, wstate: &mut State) -> (sound: Option<SoundType>)
        ensures
            final(wstate).state == self.state,
            final(wstate).overlay@ == spec_on_diff(
                old(wstate).overlay@,
                old(wstate).state,
                self.state,
            ),
            final(wstate).cache@ == if self.state == old(wstate).state {
                old(wstate).cache@
            } else {
                old(wstate).cache@.invalidated(Stale::everything())
            },
            sound == spec_diff_sound(old(wstate).state, self.state),
            old(wstate).overlay@.inv() ==> final(wstate).overlay@.inv(),
    {
        if self.state == wstate.state {
            return None;
        }
        wstate.cache.invalidate(
            Stale { board: true, board_overlay: true, pieces: true, drag: true, overlay: true },
        );
        let sound = wstate.overlay.on_diff(&wstate.state, &self.state);
        wstate.state = self.state;
        sound
    }

    /// The pointer shape to show over the board.
    pub fn mouse_interaction(&self, wstate: &State, bounds: Rectangle, cursor: Cursor) -> (shape:
        Interaction)
        ensures
            shape == spec_mouse_interaction(wstate.overlay@, bounds, cursor, wstate.state),
    {
        wstate.overlay.mouse_interaction(bounds, cursor, &wstate.state)
    }

    /// Passes an event on to the interaction state.
    pub fn update(&self, wstate: &mut State, event: &Event, bounds: Rectangle, cursor: Cursor) -> (response:
        Response)
        ensures
            final(wstate).state == old(wstate).state,
            final(wstate).overlay@ == spec_on_event(
                old(wstate).overlay@,
                *event,
                bounds,
                cursor,
                self.state,
                self.message,
            ).overlay,
            final(wstate).cache@ == old(wstate).cache@.invalidated(
                spec_on_event(
                    old(wstate).overlay@,
                    *event,
                    bounds,
                    cursor,
                    self.state,
                    self.message,
                ).stale,
            ),
            response == spec_on_event(
                old(wstate).overlay@,
                *event,
                bounds,
                cursor,
                self.state,
                self.message,
            ).response,
            old(wstate).overlay@.inv() ==> final(wstate).overlay@.inv(),
    {
        wstate.overlay.on_event(event, bounds, cursor, &self.state, &self.message, &mut wstate.cache)
    }

    /// Draws a frame in `bounds`: only the layers whose caches are stale are
    /// drawn afresh, and all five are put together from the back to the
    /// front.
    pub fn draw(&self, wstate: &mut State, style: Style, bounds: Rectangle) -> (frame: Vec<Shape>)
        ensures
            final(wstate).state == old(wstate).state,
            final(wstate).overlay@ == old(wstate).overlay@,
            final(wstate).cache@ == old(wstate).cache@.redrawn(
                ChessBoardRenderer { style, state: self.state, bounds },
                old(wstate).overlay@,
            ),
            frame@ == final(wstate).cache@.composed(),
    {
        let renderer = ChessBoardRenderer::new(style, self.state, bounds);
        wstate.cache.redraw(&renderer, &wstate.overlay);
        wstate.cache.compose()
    }
}

/// A pointer move invalidates the layer of the dragged piece and the layer
/// of the markers, and no other: the caches of the tiles, of the pieces at
/// rest and of the arrows come out of the event, and out of the next frame
/// drawn for the same bounds, as they went in, without one more redraw.
pub proof fn lemma_cursor_move_leaves_layers(
    caches: CachesView,
    o: OverlayView,
    at: Option<Point>,
    renderer: ChessBoardRenderer,
)
    requires
        caches.board.fresh_for(renderer.bounds.width as int, renderer.bounds.height as int),
        caches.pieces.fresh_for(renderer.bounds.width as int, renderer.bounds.height as int),
        caches.overlay.fresh_for(renderer.bounds.width as int, renderer.bounds.height as int),
    ensures
        ({
            let out = on_cursor_moved(o, at);
            let after = caches.invalidated(out.stale);
            let drawn = after.redrawn(renderer, out.overlay);
            &&& after.board == caches.board
            &&& after.pieces == caches.pieces
            &&& after.overlay == caches.overlay
            &&& drawn.board == caches.board
            &&& drawn.pieces == caches.pieces
            &&& drawn.overlay == caches.overlay
            &&& o.drag.is_some() && at.is_some() ==> !after.drag.filled && !after.board_overlay.filled
        }),
{
}

/// A frame drawn from caches that hold nothing stale shows the state as it
/// is: it is the frame that a renderer with empty caches would draw, and
/// the caches hold nothing stale afterwards.
pub proof fn lemma_frame_shows_the_state(
    caches: CachesView,
    renderer: ChessBoardRenderer,
    overlay: OverlayView,
)
    requires
        caches.current(renderer, overlay),
    ensures
        caches.redrawn(renderer, overlay).current(renderer, overlay),
        caches.redrawn(renderer, overlay).composed() == renderer.spec_draw_board()
            + renderer.spec_draw_board_overlay(overlay) + renderer.spec_draw_pieces(overlay)
            + renderer.spec_draw_drag(overlay) + renderer.spec_draw_arrows(overlay.arrows),
{
}

/// Whether two states put the same pieces in the layer of the pieces at
/// rest: they leave the same piece, or none, to the layer of the dragged
/// piece.
pub open spec fn same_in_hand(a: OverlayView, b: OverlayView) -> bool {
    forall|sq: Square|
        ChessBoardRenderer::in_hand(a, sq) == ChessBoardRenderer::in_hand(b, sq)
}

/// The layer of the pieces at rest depends on the state only through the
/// piece it leaves out.
pub proof fn lemma_pieces_layer(
    renderer: ChessBoardRenderer,
    a: OverlayView,
    b: OverlayView,
    upto: int,
)
    requires
        same_in_hand(a, b),
    ensures
        renderer.piece_shapes(a, upto) == renderer.piece_shapes(b, upto),
    decreases upto,
{
    if upto > 0 {
        lemma_pieces_layer(renderer, a, b, upto - 1);
        let sq = Square::of(upto - 1);
        assert(ChessBoardRenderer::in_hand(a, sq) == ChessBoardRenderer::in_hand(b, sq));
    }
}

/// Whether a pointer event comes while the layers it leaves alone could go
/// stale: a right press on the board, or a left press on the destination of
/// a hint, while a piece is still being dragged. The host sends no such
/// event as long as it reports the release of every button it reported as
/// pressed.
pub open spec fn interrupts_drag(
    o: OverlayView,
    event: MouseEvent,
    bounds: Rectangle,
    cursor: Cursor,
    flipped: bool,
) -> bool {
    let sq = spec_cursor_square(bounds, cursor, flipped);
    o.drag.is_some() && match event {
        MouseEvent::ButtonPressed(Button::Right) => sq.is_some(),
        MouseEvent::ButtonPressed(Button::Left) => sq matches Some(s) && spec_find_move(
            o.hints,
            s,
        ).is_some(),
        _ => false,
    }
}

/// No pointer event leaves stale shapes behind, unless it interrupts a
/// drag: if the caches held nothing stale before the event, then with the
/// layers cleared that the event names they hold nothing stale for the
/// state after it.
pub proof fn lemma_events_leave_nothing_stale(
    caches: CachesView,
    renderer: ChessBoardRenderer,
    o: OverlayView,
    event: MouseEvent,
    bounds: Rectangle,
    cursor: Cursor,
    messages: Messages,
)
    requires
        caches.current(renderer, o),
        !interrupts_drag(o, event, bounds, cursor, renderer.state.flipped),
    ensures
        ({
            let out = spec_on_event_mouse(
                o,
                event,
                bounds,
                cursor,
                renderer.state,
                messages,
            );
            caches.invalidated(out.stale).current(renderer, out.overlay)
        }),
{
    let out = spec_on_event_mouse(
        o,
        event,
        bounds,
        cursor,
        renderer.state,
        messages,
    );
    lemma_cursor_on_board(
        bounds,
        cursor,
        renderer.state.flipped,
    );
    if !out.stale.pieces {
        assert(same_in_hand(o, out.overlay));
        lemma_pieces_layer(renderer, o, out.overlay, 64);
    }
}

} // verus!
