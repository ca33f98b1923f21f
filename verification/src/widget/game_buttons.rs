//! Navigation through a game's history: where the view stands in it.

use crate::widget::chess_board::{Cache, CacheView};
use vstd::prelude::*;

verus! {

/// The position shown, and how many the history holds.
#[derive(Clone, Copy, Debug, PartialEq, Eq, Structural)]
pub struct BState {
    pub current: usize,
    pub len: usize,
}

/// The buttons as the host describes them for one frame.
#[derive(Clone, Copy, Debug)]
pub struct GameButtons {
    pub state: BState,
}

/// What the buttons keep between frames: the cache of their one layer, and
/// what they showed last.
#[derive(Debug)]
pub struct State {
    pub cache: Cache,
    pub state: BState,
}

impl State {
    /// The memory of buttons that have not been drawn: an empty cache, and
    /// an empty history.
    pub fn new() -> (fresh: State)
        ensures
            fresh.cache@ == CacheView::empty(),
            fresh.state == (BState { current: 0, len: 0 }),
    {
        State { cache: Cache::new(), state: BState { current: 0, len: 0 } }
    }
}

impl GameButtons {
    /// Buttons for the position `current` out of `len`.
    pub fn new(current: usize, len: usize) -> (buttons: GameButtons)
        ensures
            buttons.state == (BState { current, len }),
    {
        GameButtons { state: BState { current, len } }
    }

    /// Compares what the buttons are to show with what they showed last;
    /// after a change the layer goes stale and the new state is remembered.
    pub fn diff(&self, wstate: &mut State)
        ensures
            final(wstate).state == self.state,
            final(wstate).cache@ == if self.state == old(wstate).state {
                old(wstate).cache@
            } else {
                old(wstate).cache@.cleared()
            },
    {
        if self.state != wstate.state {
            wstate.cache.clear();
            wstate.state = self.state;
        }
    }
}

} // verus!
