//! What a frame shows, as plain values a drawing layer can turn into shapes.

use vstd::prelude::*;
use crate::geometry::Point;
use crate::state::GameState;

verus! {

/// Edge length of one cell in pixels.
pub const CELL_SIZE: i32 = 64;

/// The two alternating colours of the checkerboard background.
#[derive(Clone, Copy, Debug, PartialEq, Eq, Structural)]
pub enum Shade {
    First,
    Second,
}

/// How thick a line of the body is drawn.
#[derive(Clone, Copy, Debug, PartialEq, Eq, Structural)]
pub enum Weight {
    /// The ordinary thickness.
    Body,
    /// The thinner line that ends the tail.
    Tip,
}

/// One round-capped line of the snake's body, from the centre of one cell to
/// the centre of another.
#[derive(Clone, Copy, Debug, PartialEq, Eq, Structural)]
pub struct Stroke {
    pub start: Point,
    pub end: Point,
    pub weight: Weight,
}

impl Point {
    /// Where the centre of the cell lies on screen, in pixels from the centre
    /// of the window.
    pub open spec fn spec_pixel(self) -> (int, int) {
        (self.x * CELL_SIZE, self.y * CELL_SIZE)
    }

    /// Computes the pixel position of the cell's centre.
    pub fn pixel(self) -> (r: (i64, i64))
        ensures
            (r.0 as int, r.1 as int) == self.spec_pixel(),
    {
        let x: i64 = self.x as i64;
        let y: i64 = self.y as i64;
        let size: i64 = CELL_SIZE as i64;
        (x * size, y * size)
    }

    /// The colour of the cell on the checkerboard: cells whose coordinates
    /// add up to an even number have the first colour.
    pub open spec fn spec_shade(self) -> Shade {
        if (self.x + self.y) % 2 == 0 {
            Shade::First
        } else {
            Shade::Second
        }
    }

    /// Tells which background colour the cell has.
    #[verifier::when_used_as_spec(spec_shade)]
    pub fn shade(self) -> (r: Shade)
        ensures
            r == self.spec_shade(),
    {
        let sum: i64 = self.x as i64 + self.y as i64;
        if sum % 2 == 0 {
            Shade::First
        } else {
            Shade::Second
        }
    }
}

/// The cell that segment `i` of `tail` is joined to on its head side: the
/// segment before it, or the head for the first segment.
pub open spec fn toward_head(head: Point, tail: Seq<Point>, i: int) -> Point {
    if i == 0 {
        head
    } else {
        tail[i - 1]
    }
}

/// The lines drawn for segment `i` of `tail`.
///
/// Every segment gets a line from its neighbour on the head side; the last
/// segment of a body of two or more gets it thin. A segment with at least
/// two more behind it also gets a line from the next one.
pub open spec fn strokes_at(head: Point, tail: Seq<Point>, i: int) -> Seq<Stroke> {
    let link = Stroke {
        start: toward_head(head, tail, i),
        end: tail[i],
        weight: if 0 < i && i == tail.len() - 1 {
            Weight::Tip
        } else {
            Weight::Body
        },
    };
    if 0 < i < tail.len() - 2 {
        seq![link, Stroke { start: tail[i + 1], end: tail[i], weight: Weight::Body }]
    } else {
        seq![link]
    }
}

/// The lines drawn for the first `n` segments of `tail`, in drawing order.
pub open spec fn strokes_upto(head: Point, tail: Seq<Point>, n: nat) -> Seq<Stroke>
    decreases n,
{
    if n == 0 {
        Seq::empty()
    } else {
        strokes_upto(head, tail, (n - 1) as nat) + strokes_at(head, tail, n - 1)
    }
}

impl GameState {
    /// The lines that make up the snake's body, in drawing order.
    pub fn strokes(&self) -> (plan: Vec<Stroke>)
        ensures
            plan@ == strokes_upto(self.head, self.tail@, self.tail@.len()),
    {
        let mut plan: Vec<Stroke> = Vec::new();
        let n: usize = self.tail.len();
        let mut i: usize = 0;
        while i < n
            invariant
                i <= n,
                n == self.tail@.len(),
                plan@ == strokes_upto(self.head, self.tail@, i as nat),
            decreases n - i,
        {
            let segment = self.tail[i];
            let ghost before = plan@;
            if i == 0 {
                plan.push(Stroke { start: self.head, end: segment, weight: Weight::Body });
            } else if i == n - 1 {
                plan.push(Stroke { start: self.tail[i - 1], end: segment, weight: Weight::Tip });
            } else if i == n - 2 {
                plan.push(Stroke { start: self.tail[i - 1], end: segment, weight: Weight::Body });
            } else {
                plan.push(Stroke { start: self.tail[i - 1], end: segment, weight: Weight::Body });
                plan.push(Stroke { start: self.tail[i + 1], end: segment, weight: Weight::Body });
            }
            assert(plan@ =~= before + strokes_at(self.head, self.tail@, i as int));
            i += 1;
        }
        plan
    }
}

} // verus!
