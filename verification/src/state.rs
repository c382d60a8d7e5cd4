//! The state of one game and the mathematical model its rules are stated over.

use vstd::prelude::*;
use crate::geometry::{Direction, Point, MAX_X};

verus! {

/// Everything that changes while a game is played.
#[derive(Clone, Debug, PartialEq, Eq)]
pub struct GameState {
    /// The cell the snake's head is in.
    pub head: Point,
    /// The body segments behind the head, the one nearest the head first.
    pub tail: Vec<Point>,
    /// The cell holding the one piece of food.
    pub food: Point,
    /// The direction applied on the most recent move.
    pub direction: Direction,
    /// Nanoseconds accumulated since the most recent move.
    pub elapsed: u64,
    /// Direction changes asked for since the most recent move, the newest
    /// first.
    pub pending_directions: Vec<Direction>,
}

/// A game state as plain mathematical values.
#[verifier::ext_equal]
pub struct GameView {
    pub head: Point,
    pub tail: Seq<Point>,
    pub food: Point,
    pub direction: Direction,
    pub elapsed: nat,
    pub pending: Seq<Direction>,
}

impl View for GameState {
    type V = GameView;

    open spec fn view(&self) -> GameView {
        GameView {
            head: self.head,
            tail: self.tail@,
            food: self.food,
            direction: self.direction,
            elapsed: self.elapsed as nat,
            pending: self.pending_directions@,
        }
    }
}

impl GameView {
    /// The state every game starts from: the head at the origin, no body, no
    /// movement, nothing queued, and the food a few cells to the right.
    pub open spec fn initial() -> GameView {
        GameView {
            head: Point { x: 0, y: 0 },
            tail: Seq::empty(),
            food: Point { x: (MAX_X / 2) as i32, y: 0 },
            direction: Direction::Still,
            elapsed: 0,
            pending: Seq::empty(),
        }
    }

    /// The food lies on the board, away from the head and from every body
    /// segment.
    pub open spec fn food_placed(self) -> bool {
        self.food.on_board() && self.food != self.head && !self.tail.contains(self.food)
    }

    /// What holds of every game in progress: the head is inside the walls
    /// and the food is properly placed.
    pub open spec fn running(self) -> bool {
        self.head.on_board() && self.food_placed()
    }

    /// Cell `p` is on the board and no part of the snake is in it.
    pub open spec fn free(self, p: Point) -> bool {
        p.on_board() && p != self.head && !self.tail.contains(p)
    }

    /// Some cell of the board is not covered by the snake.
    pub open spec fn has_room(self) -> bool {
        exists|p: Point| self.free(p)
    }
}

impl GameState {
    /// A fresh game.
    pub fn new() -> (state: GameState)
        ensures
            state@ == GameView::initial(),
            state@.running(),
    {
        GameState {
            head: Point { x: 0, y: 0 },
            tail: Vec::new(),
            food: Point { x: MAX_X / 2, y: 0 },
            direction: Direction::Still,
            elapsed: 0,
            pending_directions: Vec::new(),
        }
    }
}

} // verus!
