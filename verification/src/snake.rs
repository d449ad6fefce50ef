//! The snake itself: an ordered body of grid cells, tail first and head last,
//! a target length that grows when food is eaten, and a capacity at which the
//! game is won.

use vstd::prelude::*;

verus! {

/// One cell of the grid. Equality is field-by-field.
#[derive(Clone, Copy, PartialEq, Eq, Structural, Debug)]
pub struct Coordinate {
    pub x: i32,
    pub y: i32,
}

/// The cell every fresh snake starts on.
pub open spec fn origin() -> Coordinate {
    Coordinate { x: 1, y: 1 }
}

/// The snake's body from tail (index 0) to head (last index), the length the
/// body is allowed to settle to (`len`), the length at which the game is won
/// (`capacity`), and the glyph the head is drawn with (`sign`, cosmetic).
pub struct Snake {
    pub body: Vec<Coordinate>,
    pub len: i32,
    pub capacity: i32,
    pub sign: String,
}

impl Snake {
    /// A valid snake: the target length lies between one and the capacity,
    /// and the body is never empty.
    pub open spec fn wf(&self) -> bool {
        &&& 1 <= self.len <= self.capacity
        &&& self.body@.len() >= 1
    }

    /// The head revisits a cell held by some earlier body segment.
    pub open spec fn hits_itself(&self) -> bool {
        exists|i: int| 0 <= i < self.body@.len() - 1 && self.body@[i] == self.body@.last()
    }

    pub fn new(len: i32, capacity: i32, sign: String) -> (s: Snake)
        requires
            1 <= len <= capacity,
        ensures
            s.wf(),
            s.len == len,
            s.capacity == capacity,
            s.sign == sign,
            s.body@ =~= seq![origin()],
    {
        let mut body: Vec<Coordinate> = Vec::new();
        body.push(Coordinate { x: 1, y: 1 });
        Snake { body, len, capacity, sign }
    }

    /// Back to a single-segment snake at the origin; capacity and glyph keep
    /// their values.
    pub fn reset(&mut self)
        ensures
            final(self).len == 1,
            final(self).body@ =~= seq![origin()],
            final(self).capacity == old(self).capacity,
            final(self).sign == old(self).sign,
    {
        self.len = 1;
        let mut body: Vec<Coordinate> = Vec::new();
        body.push(Coordinate { x: 1, y: 1 });
        self.body = body;
    }

    /// True exactly when the head coordinate equals some other coordinate
    /// currently in the body.
    pub fn snake_hit_itself(&self) -> (r: bool)
        requires
            self.body@.len() >= 1,
        ensures
            r == self.hits_itself(),
    {
        let n: usize = self.body.len();
        let head: Coordinate = self.body[n - 1];
        let mut i: usize = 0;
        while i < n - 1
            invariant
                n == self.body@.len(),
                1 <= n,
                i <= n - 1,
                head == self.body@.last(),
                forall|j: int| 0 <= j < i ==> self.body@[j] != self.body@.last(),
            decreases n - 1 - i,
        {
            if self.body[i].x == head.x && self.body[i].y == head.y {
                assert(self.body@[i as int] == self.body@.last());
                return true;
            }
            i += 1;
        }
        false
    }

    /// The current target length (not the body's cell count).
    pub fn len(&self) -> (r: i32)
        ensures
            r == self.len,
    {
        self.len
    }

    /// Reaching the capacity is the win condition.
    pub fn has_reached_capacity(&self) -> (r: bool)
        ensures
            r == (self.capacity == self.len),
    {
        self.capacity == self.len
    }

    /// Pushes a new head onto the body; trimming is a separate concern.
    pub fn next_step(&mut self, coordinate: Coordinate)
        ensures
            final(self).body@ == old(self).body@.push(coordinate),
            final(self).len == old(self).len,
            final(self).capacity == old(self).capacity,
            final(self).sign == old(self).sign,
    {
        self.body.push(coordinate);
    }

    /// True while the body holds more cells than the target length allows;
    /// the caller then removes tails until this turns false.
    pub fn capacity_is_exceed(&self) -> (r: bool)
        requires
            self.len >= 0,
        ensures
            r == (self.body@.len() > self.len),
    {
        self.body.len() > self.len as usize
    }

    pub fn head(&self) -> (r: &Coordinate)
        requires
            self.body@.len() >= 1,
        ensures
            *r == self.body@.last(),
    {
        &self.body[self.body.len() - 1]
    }

    /// Removes and returns the oldest segment. The body is never emptied:
    /// trimming stops while at least one segment remains.
    pub fn remove_tail(&mut self) -> (r: Coordinate)
        requires
            old(self).body@.len() >= 2,
        ensures
            r == old(self).body@[0],
            final(self).body@ =~= old(self).body@.skip(1),
            final(self).len == old(self).len,
            final(self).capacity == old(self).capacity,
            final(self).sign == old(self).sign,
    {
        self.body.remove(0)
    }

    /// Grows the target length by one, guarded so it never passes the
    /// capacity.
    pub fn increase_len(&mut self)
        ensures
            final(self).len == if old(self).len < old(self).capacity {
                old(self).len + 1
            } else {
                old(self).len as int
            },
            final(self).body@ == old(self).body@,
            final(self).capacity == old(self).capacity,
            final(self).sign == old(self).sign,
    {
        if self.len < self.capacity {
            self.len = self.len + 1;
        }
    }

    /// The glyph the head is drawn with.
    pub fn sign(&self) -> (r: String)
        ensures
            r@ == self.sign@,
    {
        self.sign.clone()
    }
}

} // verus!
