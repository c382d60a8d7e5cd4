//! The fixed-timestep update: wait for the interval, turn, move, and judge
//! where the head has landed.

use vstd::prelude::*;
use crate::food::short_snake_leaves_room;
use crate::geometry::{contains_point, Direction, BOARD_CELLS};
use crate::state::{GameState, GameView};

verus! {

/// Nanoseconds between two moves of the snake.
pub const TICK_INTERVAL: u64 = 160_000_000;

/// Why a game has ended.
#[derive(Clone, Copy, Debug, PartialEq, Eq, Structural)]
pub enum Cause {
    /// The head ran into the body.
    SelfCollision,
    /// The head left the board.
    Wall,
    /// The snake ate with no free cell left to put new food in.
    BoardFull,
}

/// What one call of [`GameState::tick`] reports to its driver.
#[derive(Clone, Copy, Debug, PartialEq, Eq, Structural)]
pub enum TickOutcome {
    /// The game goes on.
    Continue,
    /// The game is over; the state is final and must not be ticked again.
    Terminated(Cause),
}

impl GameView {
    /// Adding `delta` to the time already waited reaches the interval.
    pub open spec fn due(self, delta: nat) -> bool {
        self.elapsed + delta >= TICK_INTERVAL
    }

    /// The state after waiting `delta` longer without moving.
    pub open spec fn waited(self, delta: nat) -> GameView {
        GameView { elapsed: self.elapsed + delta, ..self }
    }

    /// The direction of the next move: the newest queued one, or the current
    /// one while nothing is queued.
    pub open spec fn heading(self) -> Direction {
        if self.pending.len() > 0 {
            self.pending[0]
        } else {
            self.direction
        }
    }

    /// The state after the clock is reset and the newest queued direction,
    /// if any, is taken from the queue and made current.
    pub open spec fn turned(self) -> GameView {
        GameView {
            direction: self.heading(),
            elapsed: 0,
            pending: if self.pending.len() > 0 {
                self.pending.remove(0)
            } else {
                self.pending
            },
            ..self
        }
    }

    /// The state after the body follows the head: the tip is dropped and the
    /// head's cell becomes the first segment. A snake without a body stays
    /// without one.
    pub open spec fn shifted(self) -> GameView {
        GameView {
            tail: if self.tail.len() > 0 {
                seq![self.head] + self.tail.drop_last()
            } else {
                self.tail
            },
            ..self
        }
    }

    /// The state after the head moves one cell in the current direction.
    pub open spec fn stepped(self) -> GameView {
        GameView { head: self.head.step(self.direction), ..self }
    }

    /// The state after one whole move: turn, shift the body, step the head.
    pub open spec fn advanced(self) -> GameView {
        self.turned().shifted().stepped()
    }

    /// The head shares its cell with a body segment.
    pub open spec fn hits_self(self) -> bool {
        self.tail.contains(self.head)
    }

    /// The state after the head's cell is added as a new first segment.
    pub open spec fn grown(self) -> GameView {
        GameView { tail: seq![self.head] + self.tail, ..self }
    }

    /// A tick given `delta` moves the snake onto the food without killing
    /// it.
    pub open spec fn eats(self, delta: nat) -> bool {
        let moved = self.advanced();
        self.due(delta) && !moved.hits_self() && moved.head.on_board() && moved.head == moved.food
    }
}

/// How the state `post` and the outcome of a tick given `delta` follow from
/// the state `pre`. Everything is determined but the cell of the new food,
/// which is some free cell.
pub open spec fn tick_relation(
    pre: GameView,
    delta: nat,
    post: GameView,
    outcome: TickOutcome,
) -> bool {
    let moved = pre.advanced();
    if !pre.due(delta) {
        outcome == TickOutcome::Continue && post == pre.waited(delta)
    } else if moved.hits_self() {
        outcome == TickOutcome::Terminated(Cause::SelfCollision) && post == moved
    } else if !moved.head.on_board() {
        outcome == TickOutcome::Terminated(Cause::Wall) && post == moved
    } else if moved.head != moved.food {
        outcome == TickOutcome::Continue && post == moved
    } else if moved.has_room() {
        outcome == TickOutcome::Continue && moved.free(post.food) && post == (GameView {
            food: post.food,
            ..moved.grown()
        })
    } else {
        outcome == TickOutcome::Terminated(Cause::BoardFull) && post == moved.grown()
    }
}

impl GameState {
    /// Adds `delta` nanoseconds to the time waited, unless that reaches the
    /// interval; tells whether it does.
    pub fn accumulate(&mut self, delta: u64) -> (due: bool)
        ensures
            due == old(self)@.due(delta as nat),
            due ==> *final(self) == *old(self),
            !due ==> final(self)@ == old(self)@.waited(delta as nat),
    {
        if self.elapsed < TICK_INTERVAL && delta < TICK_INTERVAL - self.elapsed {
            self.elapsed = self.elapsed + delta;
            false
        } else {
            true
        }
    }

    /// Resets the clock and makes the newest queued direction current,
    /// taking it from the queue; keeps the current one while none is queued.
    pub fn turn(&mut self)
        ensures
            final(self)@ == old(self)@.turned(),
    {
        self.elapsed = 0;
        if self.pending_directions.len() > 0 {
            self.direction = self.pending_directions.remove(0);
        }
    }

    /// Lets the body follow the head: drops the tip and puts the head's cell
    /// in front. The length does not change.
    pub fn shift_tail(&mut self)
        ensures
            final(self)@ == old(self)@.shifted(),
            final(self).tail@.len() == old(self).tail@.len(),
    {
        if self.tail.pop().is_some() {
            self.tail.insert(0, self.head);
            assert(self.tail@ =~= seq![self.head] + old(self).tail@.drop_last());
        }
    }

    /// Moves the head one cell in the current direction.
    pub fn step_head(&mut self)
        requires
            i32::MIN < old(self).head.x < i32::MAX,
            i32::MIN < old(self).head.y < i32::MAX,
        ensures
            final(self)@ == old(self)@.stepped(),
    {
        self.head = self.head.step(self.direction);
    }

    /// Adds the head's cell to the body as its first segment.
    pub fn grow(&mut self)
        ensures
            final(self)@ == old(self)@.grown(),
    {
        self.tail.insert(0, self.head);
        assert(self.tail@ =~= seq![self.head] + old(self).tail@);
    }

    /// Advances the game by `delta` nanoseconds.
    ///
    /// Until the time waited reaches [`TICK_INTERVAL`] nothing but the clock
    /// changes. Then the clock is reset, the snake turns to the newest
    /// queued direction, the body follows the head and the head moves one
    /// cell. A head that lands on the body or outside the walls ends the
    /// game. A head that lands on the food eats it: new food appears in a
    /// random free cell and the body grows by the head's cell. Should the
    /// snake then cover the whole board, the game ends with the food left
    /// where it was eaten.
    ///
    /// The head must be inside the walls: a game that ended at a wall is not
    /// advanced again.
    pub fn tick(&mut self, delta: u64) -> (outcome: TickOutcome)
        requires
            old(self).head.on_board(),
        ensures
            tick_relation(old(self)@, delta as nat, final(self)@, outcome),
            // Before the interval is reached only the clock moves.
            !old(self)@.due(delta as nat) ==> {
                &&& outcome == TickOutcome::Continue
                &&& final(self)@ == old(self)@.waited(delta as nat)
            },
            // The body keeps its length unless the snake eats, and then
            // grows by exactly one segment.
            old(self)@.eats(delta as nat) ==> final(self).tail@.len() == old(self).tail@.len() + 1,
            !old(self)@.eats(delta as nat) ==> final(self).tail@.len() == old(self).tail@.len(),
            // Food that was off the snake is off the snake afterwards.
            old(self)@.food_placed() && outcome != TickOutcome::Terminated(Cause::BoardFull)
                ==> final(self)@.food_placed(),
            // A game that goes on can be ticked again, and a snake that
            // moved on without eating is clear of its own body.
            outcome == TickOutcome::Continue ==> final(self).head.on_board(),
            old(self)@.due(delta as nat) && outcome == TickOutcome::Continue && !old(self)@.eats(
                delta as nat,
            ) ==> !final(self)@.hits_self(),
            old(self)@.running() && outcome == TickOutcome::Continue ==> final(self)@.running(),
            // A snake shorter than the board always finds room for food.
            old(self).tail@.len() + 1 < BOARD_CELLS
                ==> outcome != TickOutcome::Terminated(Cause::BoardFull),
    {
        proof {
            if old(self).tail@.len() + 1 < BOARD_CELLS {
                short_snake_leaves_room(old(self)@.advanced());
            }
        }
        if !self.accumulate(delta) {
            return TickOutcome::Continue;
        }
        self.turn();
        self.shift_tail();
        self.step_head();
        if contains_point(&self.tail, self.head) {
            return TickOutcome::Terminated(Cause::SelfCollision);
        }
        if !self.head.on_board() {
            return TickOutcome::Terminated(Cause::Wall);
        }
        if self.head != self.food {
            return TickOutcome::Continue;
        }
        let picked = self.pick_food();
        self.grow();
        match picked {
            Some(cell) => {
                self.food = cell;
                TickOutcome::Continue
            },
            None => TickOutcome::Terminated(Cause::BoardFull),
        }
    }
}

} // verus!
