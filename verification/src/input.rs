//! Turning key presses into queued direction changes.

use vstd::prelude::*;
use crate::geometry::Direction;
use crate::state::{GameState, GameView};

verus! {

/// The keys the game tells apart. Every key without a meaning in the game is
/// `Other`.
#[derive(Clone, Copy, Debug, PartialEq, Eq, Structural)]
pub enum Key {
    Left,
    A,
    Right,
    D,
    Up,
    W,
    Down,
    S,
    Other,
}

impl Key {
    /// The direction a key asks for: the arrow keys and their letter
    /// aliases steer, every other key means nothing.
    pub open spec fn spec_direction(self) -> Option<Direction> {
        match self {
            Key::Left | Key::A => Some(Direction::Left),
            Key::Right | Key::D => Some(Direction::Right),
            Key::Up | Key::W => Some(Direction::Up),
            Key::Down | Key::S => Some(Direction::Down),
            Key::Other => None,
        }
    }

    /// Maps a key to the direction it asks for.
    #[verifier::when_used_as_spec(spec_direction)]
    pub fn direction(self) -> (r: Option<Direction>)
        ensures
            r == self.spec_direction(),
    {
        match self {
            Key::Left | Key::A => Some(Direction::Left),
            Key::Right | Key::D => Some(Direction::Right),
            Key::Up | Key::W => Some(Direction::Up),
            Key::Down | Key::S => Some(Direction::Down),
            Key::Other => None,
        }
    }
}

impl GameView {
    /// Asking for `d` would turn a snake with a body straight back into
    /// itself.
    pub open spec fn reverses(self, d: Direction) -> bool {
        d == self.direction.opposite() && self.tail.len() > 0
    }

    /// The state after `key` is pressed: a steering key puts its direction
    /// at the front of the queue unless that would reverse the snake; any
    /// other key changes nothing.
    pub open spec fn after_key(self, key: Key) -> GameView {
        match key.direction() {
            Some(d) if !self.reverses(d) => GameView { pending: seq![d] + self.pending, ..self },
            _ => self,
        }
    }
}

/// A steering key that `on_key` accepts from a snake with a body is what the
/// next move turns to, and that turn is never straight back.
pub proof fn accepted_key_is_no_reversal(s: GameView, key: Key, d: Direction)
    requires
        s.tail.len() > 0,
        key.direction() == Some(d),
        s.after_key(key).pending == seq![d] + s.pending,
    ensures
        s.after_key(key).turned().direction == d,
        d != s.direction.opposite(),
{
    if s.reverses(d) {
        assert(s.after_key(key).pending.len() == s.pending.len());
        assert((seq![d] + s.pending).len() == s.pending.len() + 1);
    }
    assert((seq![d] + s.pending)[0] == d);
}

impl GameState {
    /// Handles one key press.
    ///
    /// A steering key queues its direction in front of those already
    /// waiting. If the new entry is the opposite of the current direction
    /// and the snake has a body, it is discarded again at once; a snake
    /// without a body may reverse freely. Other keys are ignored.
    pub fn on_key(&mut self, key: Key)
        ensures
            final(self)@ == old(self)@.after_key(key),
            // A reversal is dropped when the snake has a body and accepted
            // when it has none.
            key.direction() matches Some(d) ==> {
                let before = old(self)@;
                let queued = GameView { pending: seq![d] + before.pending, ..before };
                &&& d == before.direction.opposite() && before.tail.len() > 0
                    ==> final(self)@ == before
                &&& d != before.direction.opposite() || before.tail.len() == 0
                    ==> final(self)@ == queued
            },
            key.direction() is None ==> final(self)@ == old(self)@,
            final(self)@.running() == old(self)@.running(),
    {
        match key.direction() {
            Some(d) => {
                self.pending_directions.insert(0, d);
                if self.pending_directions.len() != 0 && self.pending_directions[0]
                    == self.direction.opposite() && self.tail.len() != 0 {
                    self.pending_directions.remove(0);
                    assert(self.pending_directions@ =~= old(self).pending_directions@);
                } else {
                    assert(self.pending_directions@ =~= seq![d] + old(self).pending_directions@);
                }
            },
            None => {},
        }
    }
}

} // verus!
