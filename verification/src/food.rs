//! Finding a cell for the next piece of food.
//!
//! Candidates are drawn at random from the whole board and rejected while
//! they touch the snake. Chance alone cannot promise that a free cell is ever
//! drawn, so the number of draws is bounded; a snake that defeats all of them
//! has the board searched row by row instead.

use vstd::prelude::*;
use vstd::relations::injective_on;
use vstd::set_lib::{lemma_int_range, lemma_len_subset, lemma_map_size, set_int_range};
use crate::geometry::{contains_point, Point, BOARD_CELLS, MAX_X, MAX_Y, MIN_X, MIN_Y};
use crate::state::{GameState, GameView};

verus! {

/// How many random candidates are tried before the board is searched.
pub const FOOD_DRAWS: u32 = 4096;

/// Calls `nannou::rand::random_range` on two `i32` bounds.
///
/// Not proved: that the crate puts the smaller bound first and then draws
/// from the half-open range, so the result is at least the smaller bound and
/// below the larger one. Equal bounds make the crate panic and are excluded.
#[verifier::external_body]
fn random_between(low: i32, high: i32) -> (r: i32)
    requires
        low != high,
    ensures
        low < high ==> low <= r < high,
        high < low ==> high <= r < low,
{
    nannou::rand::random_range(low, high)
}

/// `a` comes before `b` when the board is read row by row from the bottom,
/// each row from the left.
pub open spec fn scanned_before(a: Point, b: Point) -> bool {
    a.y < b.y || (a.y == b.y && a.x < b.x)
}

/// The board's cells numbered row by row, eleven to a row: cell `i` for
/// `0 <= i < BOARD_CELLS`.
spec fn numbered_cell(i: int) -> Point {
    Point { x: (MIN_X + i % 11) as i32, y: (MIN_Y + i / 11) as i32 }
}

/// A snake of fewer parts than the board has cells cannot cover the board.
pub proof fn short_snake_leaves_room(s: GameView)
    requires
        s.tail.len() + 1 < BOARD_CELLS,
    ensures
        s.has_room(),
{
    if !s.has_room() {
        let numbers = set_int_range(0, BOARD_CELLS as int);
        let number = |i: int| numbered_cell(i);
        let cells = numbers.map(number);
        let covered = s.tail.to_set().insert(s.head);

        lemma_int_range(0, BOARD_CELLS as int);
        assert(injective_on(number, numbers)) by {
            assert forall|i: int, j: int|
                numbers.contains(i) && numbers.contains(j) && number(i) == number(j) implies i
                == j by {
                assert(numbered_cell(i).x == numbered_cell(j).x);
                assert(numbered_cell(i).y == numbered_cell(j).y);
            }
        }
        lemma_map_size(numbers, cells, number);

        assert(cells.subset_of(covered)) by {
            assert forall|p: Point| cells.contains(p) implies covered.contains(p) by {
                let i = choose|i: int| numbers.contains(i) && p == number(i);
                assert(p.on_board());
                assert(!s.free(p));
                assert(s.tail.to_set().contains(p) || p == s.head);
            }
        }
        s.tail.lemma_cardinality_of_set();
        assert(covered.finite() && covered.len() <= s.tail.len() + 1) by {
            broadcast use vstd::seq_lib::seq_to_set_is_finite;
            broadcast use vstd::set::group_set_axioms;
        }
        lemma_len_subset(cells, covered);
    }
}

impl GameState {
    /// Tells whether food may be put in `candidate`: the cell must be on the
    /// board and touch neither the head nor the body.
    pub fn accepts_food(&self, candidate: Point) -> (ok: bool)
        ensures
            ok == self@.free(candidate),
    {
        candidate.on_board() && candidate != self.head && !contains_point(&self.tail, candidate)
    }

    /// The first free cell in reading order, if the snake leaves any.
    pub fn first_free_cell(&self) -> (found: Option<Point>)
        ensures
            match found {
                Some(p) => self@.free(p) && forall|q: Point|
                    scanned_before(q, p) ==> !#[trigger] self@.free(q),
                None => !self@.has_room(),
            },
    {
        let mut y: i32 = MIN_Y;
        while y <= MAX_Y
            invariant
                MIN_Y <= y <= MAX_Y + 1,
                forall|q: Point| q.y < y ==> !#[trigger] self@.free(q),
            decreases MAX_Y + 1 - y,
        {
            let mut x: i32 = MIN_X;
            while x <= MAX_X
                invariant
                    MIN_X <= x <= MAX_X + 1,
                    MIN_Y <= y <= MAX_Y,
                    forall|q: Point| q.y < y ==> !#[trigger] self@.free(q),
                    forall|q: Point| q.y == y && q.x < x ==> !#[trigger] self@.free(q),
                decreases MAX_X + 1 - x,
            {
                let p = Point { x, y };
                if self.accepts_food(p) {
                    return Some(p);
                }
                x += 1;
            }
            y += 1;
        }
        None
    }

    /// Picks the cell for the next piece of food: a random cell of the board
    /// that the snake does not touch. `None` means the snake covers the
    /// whole board.
    pub fn pick_food(&self) -> (picked: Option<Point>)
        ensures
            match picked {
                Some(p) => self@.free(p),
                None => !self@.has_room(),
            },
            self.tail@.len() + 1 < BOARD_CELLS ==> picked is Some,
    {
        proof {
            if self.tail@.len() + 1 < BOARD_CELLS {
                short_snake_leaves_room(self@);
            }
        }
        let mut draws: u32 = 0;
        while draws < FOOD_DRAWS
            invariant
                draws <= FOOD_DRAWS,
            decreases FOOD_DRAWS - draws,
        {
            let candidate = Point {
                x: random_between(MIN_X, MAX_X + 1),
                y: random_between(MIN_Y, MAX_Y + 1),
            };
            if self.accepts_food(candidate) {
                return Some(candidate);
            }
            draws += 1;
        }
        self.first_free_cell()
    }
}

} // verus!
