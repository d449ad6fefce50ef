//! The playing field and the tick engine: wrap-around movement, the
//! no-reversal rule for directional input, food placement and consumption,
//! the difficulty-driven speed curve, and the per-tick state machine that
//! strings them together.

use vstd::prelude::*;

use rand::Rng;

use crate::introduction::LevelConfig;
use crate::snake::{origin, Coordinate, Snake};

verus! {

/// Raw delay of the very first tick, before any speed-up, in milliseconds.
pub const BASE_DELAY_MS: i32 = 200;

/// The delay never sinks below this floor, whatever the snake's length.
pub const MIN_DELAY_MS: i32 = 20;

/// One of the four unit headings the snake can move along. `y` grows
/// downward, as rows on a terminal do.
#[derive(Clone, Copy, PartialEq, Eq, Structural, Debug)]
pub enum Heading {
    Up,
    Down,
    Left,
    Right,
}

impl Heading {
    /// The step this heading takes along the x axis.
    pub open spec fn step_x(self) -> int {
        match self {
            Heading::Left => -1,
            Heading::Right => 1,
            _ => 0,
        }
    }

    /// The step this heading takes along the y axis.
    pub open spec fn step_y(self) -> int {
        match self {
            Heading::Up => -1,
            Heading::Down => 1,
            _ => 0,
        }
    }

    /// The exact 180-degree reversal of this heading.
    pub open spec fn opposite(self) -> Heading {
        match self {
            Heading::Up => Heading::Down,
            Heading::Down => Heading::Up,
            Heading::Left => Heading::Right,
            Heading::Right => Heading::Left,
        }
    }
}

/// One coordinate axis of a unit move on a torus of the given bound:
/// stepping past either edge re-enters from the other one.
pub open spec fn wrapped(v: int, step: int, bound: int) -> int {
    if v + step < 0 {
        bound - 1
    } else if v + step >= bound {
        0
    } else {
        v + step
    }
}

/// The cell the head moves to next: one unit along the heading, wrapped on
/// each axis independently.
pub open spec fn next_head(head: Coordinate, heading: Heading, width: int, height: int) -> Coordinate {
    Coordinate {
        x: wrapped(head.x as int, heading.step_x(), width) as i32,
        y: wrapped(head.y as int, heading.step_y(), height) as i32,
    }
}

/// What a directional input does to the current heading: an exact reversal
/// (and the absence of input) is ignored, anything else is adopted.
pub open spec fn resolve_heading(current: Heading, key: Option<Heading>) -> Heading {
    match key {
        Some(h) => if h == current.opposite() {
            current
        } else {
            h
        },
        None => current,
    }
}

/// The tick delay in milliseconds for a snake of the given target length:
/// the base delay shrinks linearly with the length, floored at the minimum.
pub open spec fn tick_delay(len: int, speed_coeff: int) -> int {
    if BASE_DELAY_MS - len * speed_coeff < MIN_DELAY_MS {
        MIN_DELAY_MS as int
    } else {
        BASE_DELAY_MS - len * speed_coeff
    }
}

/// One axis of the wrapped unit move, as executable code.
fn wrap_step(v: i32, step: i32, bound: i32) -> (r: i32)
    requires
        2 <= bound,
        0 <= v < bound,
        -1 <= step <= 1,
    ensures
        r == wrapped(v as int, step as int, bound as int),
        0 <= r < bound,
{
    let n = v + step;
    if n < 0 {
        bound - 1
    } else if n >= bound {
        0
    } else {
        n
    }
}

/// The whole game state of one session: the field's size, the snake, the
/// food, the current heading, the last computed tick delay, and the lines of
/// text a terminal dialog would show.
pub struct Board {
    pub width: i32,
    pub height: i32,
    pub messages: Vec<String>,
    pub curr_direction: Heading,
    pub food_coordinate: Coordinate,
    pub snake: Snake,
    pub speed: i32,
}

impl Board {
    /// The cell lies on the playing field.
    pub open spec fn in_bounds(&self, c: Coordinate) -> bool {
        &&& 0 <= c.x < self.width
        &&& 0 <= c.y < self.height
    }

    /// A valid board: the field has room to play, the snake is valid, every
    /// body segment and the food lie on the field, and the delay is a real
    /// duration.
    pub open spec fn wf(&self) -> bool {
        &&& 2 <= self.width
        &&& 2 <= self.height
        &&& self.snake.wf()
        &&& forall|i: int|
            0 <= i < self.snake.body@.len() ==> self.in_bounds(#[trigger] self.snake.body@[i])
        &&& self.in_bounds(self.food_coordinate)
        &&& 0 <= self.speed
    }

    /// Between ticks the body holds exactly the target length of cells, or
    /// one more in the window between pushing a head and trimming the tail.
    pub open spec fn settled(&self) -> bool {
        self.snake.len <= self.snake.body@.len() <= self.snake.len + 1
    }

    /// The snake's head sits on the food.
    pub open spec fn food_eaten(&self) -> bool {
        self.snake.body@.last() == self.food_coordinate
    }

    pub fn new(config: &LevelConfig) -> (b: Board)
        requires
            config.wf(),
        ensures
            b.wf(),
            b.settled(),
            b.width == config.width,
            b.height == config.height,
            b.messages@ =~= Seq::<String>::empty(),
            b.curr_direction == Heading::Right,
            b.food_coordinate == (Coordinate { x: 0, y: 0 }),
            b.snake.len == 1,
            b.snake.capacity == config.snake_limit_len,
            b.snake.body@ =~= seq![origin()],
            b.snake.sign@ == "*"@,
            b.speed == 0,
    {
        Board {
            width: config.width,
            height: config.height,
            messages: Vec::new(),
            curr_direction: Heading::Right,
            food_coordinate: Coordinate { x: 0, y: 0 },
            snake: Snake::new(1, config.snake_limit_len, "*".to_owned()),
            speed: 0,
        }
    }

    /// Queues a line for the next terminal dialog.
    pub fn add_text(&mut self, text: String)
        ensures
            final(self).messages@ == old(self).messages@.push(text),
            final(self).width == old(self).width,
            final(self).height == old(self).height,
            final(self).curr_direction == old(self).curr_direction,
            final(self).food_coordinate == old(self).food_coordinate,
            final(self).snake == old(self).snake,
            final(self).speed == old(self).speed,
    {
        self.messages.push(text);
    }

    /// Puts the food on the given cell.
    pub fn place_food_at(&mut self, c: Coordinate)
        requires
            old(self).in_bounds(c),
        ensures
            final(self).food_coordinate == c,
            final(self).width == old(self).width,
            final(self).height == old(self).height,
            final(self).messages == old(self).messages,
            final(self).curr_direction == old(self).curr_direction,
            final(self).snake == old(self).snake,
            final(self).speed == old(self).speed,
    {
        self.food_coordinate = c;
    }

    /// Draws a fresh food cell uniformly from the field and stores it. The
    /// draw pays no attention to the snake: food may land under the body,
    /// as the game has always allowed.
    pub fn generate_food(&mut self)
        requires
            2 <= old(self).width,
            2 <= old(self).height,
        ensures
            final(self).in_bounds(final(self).food_coordinate),
            final(self).width == old(self).width,
            final(self).height == old(self).height,
            final(self).messages == old(self).messages,
            final(self).curr_direction == old(self).curr_direction,
            final(self).snake == old(self).snake,
            final(self).speed == old(self).speed,
    {
        let x = random_below(self.width);
        let y = random_below(self.height);
        self.place_food_at(Coordinate { x, y });
    }

    /// Where the food lies right now.
    pub fn food_position(&self) -> (r: Coordinate)
        ensures
            r == self.food_coordinate,
    {
        self.food_coordinate
    }

    /// True exactly when the head has landed on the food.
    pub fn food_is_eaten(&self) -> (r: bool)
        requires
            self.snake.body@.len() >= 1,
        ensures
            r == self.food_eaten(),
    {
        let head = self.snake.head();
        head.x == self.food_coordinate.x && head.y == self.food_coordinate.y
    }

    /// Removes the snake's oldest segment and hands it back, so the caller
    /// can erase that cell from the display.
    pub fn remove_snake_tail(&mut self) -> (r: Coordinate)
        requires
            old(self).snake.body@.len() >= 2,
        ensures
            r == old(self).snake.body@[0],
            final(self).snake.body@ =~= old(self).snake.body@.skip(1),
            final(self).snake.len == old(self).snake.len,
            final(self).snake.capacity == old(self).snake.capacity,
            final(self).snake.sign == old(self).snake.sign,
            final(self).width == old(self).width,
            final(self).height == old(self).height,
            final(self).messages == old(self).messages,
            final(self).curr_direction == old(self).curr_direction,
            final(self).food_coordinate == old(self).food_coordinate,
            final(self).speed == old(self).speed,
    {
        self.snake.remove_tail()
    }

    /// Adopts a polled directional input, unless it is the exact reversal of
    /// the current heading or there was no input; then the heading stands.
    pub fn catch_push_on_keyboard(&mut self, key: Option<Heading>)
        ensures
            final(self).curr_direction == resolve_heading(old(self).curr_direction, key),
            final(self).width == old(self).width,
            final(self).height == old(self).height,
            final(self).messages == old(self).messages,
            final(self).food_coordinate == old(self).food_coordinate,
            final(self).snake == old(self).snake,
            final(self).speed == old(self).speed,
    {
        match key {
            Some(Heading::Down) => {
                if self.curr_direction != Heading::Up {
                    self.curr_direction = Heading::Down;
                }
            },
            Some(Heading::Up) => {
                if self.curr_direction != Heading::Down {
                    self.curr_direction = Heading::Up;
                }
            },
            Some(Heading::Left) => {
                if self.curr_direction != Heading::Right {
                    self.curr_direction = Heading::Left;
                }
            },
            Some(Heading::Right) => {
                if self.curr_direction != Heading::Left {
                    self.curr_direction = Heading::Right;
                }
            },
            None => {},
        }
    }

    /// Pushes the wrapped successor of the head onto the body, one unit
    /// along the current heading.
    pub fn add_next_step_for_snake(&mut self)
        requires
            2 <= old(self).width,
            2 <= old(self).height,
            old(self).snake.body@.len() >= 1,
            old(self).in_bounds(old(self).snake.body@.last()),
        ensures
            final(self).snake.body@ == old(self).snake.body@.push(
                next_head(
                    old(self).snake.body@.last(),
                    old(self).curr_direction,
                    old(self).width as int,
                    old(self).height as int,
                ),
            ),
            final(self).in_bounds(final(self).snake.body@.last()),
            final(self).snake.len == old(self).snake.len,
            final(self).snake.capacity == old(self).snake.capacity,
            final(self).snake.sign == old(self).snake.sign,
            final(self).width == old(self).width,
            final(self).height == old(self).height,
            final(self).messages == old(self).messages,
            final(self).curr_direction == old(self).curr_direction,
            final(self).food_coordinate == old(self).food_coordinate,
            final(self).speed == old(self).speed,
    {
        let head: Coordinate = *self.snake.head();
        let step_x: i32 = match self.curr_direction {
            Heading::Left => -1,
            Heading::Right => 1,
            _ => 0,
        };
        let step_y: i32 = match self.curr_direction {
            Heading::Up => -1,
            Heading::Down => 1,
            _ => 0,
        };
        let x = wrap_step(head.x, step_x, self.width);
        let y = wrap_step(head.y, step_y, self.height);
        self.snake.next_step(Coordinate { x, y });
    }

    /// Recomputes the tick delay from the speed formula: the base delay less
    /// the snake's length times the coefficient, floored at the minimum.
    pub fn increase_speed_as_need(&mut self, speed_coeff: i32)
        requires
            old(self).snake.len >= 1,
            speed_coeff >= 0,
        ensures
            final(self).speed == tick_delay(old(self).snake.len as int, speed_coeff as int),
            MIN_DELAY_MS <= final(self).speed <= BASE_DELAY_MS,
            final(self).width == old(self).width,
            final(self).height == old(self).height,
            final(self).messages == old(self).messages,
            final(self).curr_direction == old(self).curr_direction,
            final(self).food_coordinate == old(self).food_coordinate,
            final(self).snake == old(self).snake,
    {
        proof {
            let l = old(self).snake.len as int;
            let c = speed_coeff as int;
            assert(0 <= l * c < 0x4000_0000_0000_0000) by (nonlinear_arith)
                requires
                    1 <= l < 0x8000_0000,
                    0 <= c < 0x8000_0000,
            ;
        }
        let raw: i64 = (BASE_DELAY_MS as i64) - (self.snake.len as i64) * (speed_coeff as i64);
        self.speed = if raw < MIN_DELAY_MS as i64 {
            MIN_DELAY_MS
        } else {
            raw as i32
        };
    }

    /// The delay to sleep before the next tick, in milliseconds.
    pub fn snake_delay(&self) -> (r: u64)
        requires
            self.speed >= 0,
        ensures
            r == self.speed as u64,
    {
        self.speed as u64
    }
}

/// The target length after a potential meal: one more when food was eaten
/// and there is still room under the capacity.
pub open spec fn grown_len(len: int, capacity: int, ate: bool) -> int {
    if ate && len < capacity {
        len + 1
    } else {
        len
    }
}

/// What trimming leaves of the body: the newest `target` cells, or the whole
/// body when it is already short enough.
pub open spec fn trimmed(body: Seq<Coordinate>, target: int) -> Seq<Coordinate> {
    if body.len() > target {
        body.skip(body.len() - target)
    } else {
        body
    }
}

/// What trimming removes: the oldest cells beyond the newest `target` ones,
/// in the order they are popped.
pub open spec fn trim_removed(body: Seq<Coordinate>, target: int) -> Seq<Coordinate> {
    if body.len() > target {
        body.take(body.len() - target)
    } else {
        Seq::empty()
    }
}

/// How one tick ended: the snake filled its capacity (a win), the head ran
/// into the body (a loss), or the snake simply moved on.
#[derive(Clone, Copy, PartialEq, Eq, Structural, Debug)]
pub enum TickOutcome {
    Win,
    Loss,
    Moved,
}

/// Everything a renderer needs to know about one tick: how it ended,
/// whether food was eaten (so the score and the food cell changed), and
/// which tail cells were trimmed away and want erasing.
pub struct TickReport {
    pub outcome: TickOutcome,
    pub ate_food: bool,
    pub removed: Vec<Coordinate>,
}

impl Board {
    /// One step of the simulation, in the fixed order: a full snake wins; a
    /// self-collision loses; otherwise the snake eats if it sits on the
    /// food, the tail is trimmed to the target length, the polled input
    /// turns the heading (reversals ignored), the head advances one wrapped
    /// step, and the tick delay is recomputed.
    pub fn tick(&mut self, key: Option<Heading>, speed_coeff: i32) -> (report: TickReport)
        requires
            old(self).wf(),
            old(self).settled(),
            speed_coeff >= 0,
        ensures
            final(self).wf(),
            final(self).width == old(self).width,
            final(self).height == old(self).height,
            final(self).messages == old(self).messages,
            final(self).snake.capacity == old(self).snake.capacity,
            final(self).snake.sign == old(self).snake.sign,
            old(self).snake.len == old(self).snake.capacity ==> ({
                &&& report.outcome == TickOutcome::Win
                &&& !report.ate_food
                &&& report.removed@.len() == 0
                &&& *final(self) == *old(self)
            }),
            old(self).snake.len != old(self).snake.capacity && old(self).snake.hits_itself()
                ==> ({
                &&& report.outcome == TickOutcome::Loss
                &&& !report.ate_food
                &&& report.removed@.len() == 0
                &&& *final(self) == *old(self)
            }),
            old(self).snake.len != old(self).snake.capacity && !old(self).snake.hits_itself()
                ==> ({
                &&& report.outcome == TickOutcome::Moved
                &&& report.ate_food == old(self).food_eaten()
                &&& final(self).snake.len == grown_len(
                    old(self).snake.len as int,
                    old(self).snake.capacity as int,
                    report.ate_food,
                )
                &&& final(self).curr_direction == resolve_heading(old(self).curr_direction, key)
                &&& report.removed@ == trim_removed(
                    old(self).snake.body@,
                    final(self).snake.len as int,
                )
                &&& final(self).snake.body@ == trimmed(
                    old(self).snake.body@,
                    final(self).snake.len as int,
                ).push(
                    next_head(
                        old(self).snake.body@.last(),
                        resolve_heading(old(self).curr_direction, key),
                        old(self).width as int,
                        old(self).height as int,
                    ),
                )
                &&& !report.ate_food ==> final(self).food_coordinate == old(
                    self,
                ).food_coordinate
                &&& final(self).speed == tick_delay(
                    final(self).snake.len as int,
                    speed_coeff as int,
                )
                &&& final(self).settled()
            }),
    {
        if self.snake.has_reached_capacity() {
            return TickReport { outcome: TickOutcome::Win, ate_food: false, removed: Vec::new() };
        }
        if self.snake.snake_hit_itself() {
            return TickReport { outcome: TickOutcome::Loss, ate_food: false, removed: Vec::new() };
        }
        let ate = self.food_is_eaten();
        if ate {
            self.snake.increase_len();
            self.generate_food();
        }
        let ghost mid = *self;
        let ghost body0 = self.snake.body@;
        let ghost target = self.snake.len as int;
        let mut removed: Vec<Coordinate> = Vec::new();
        while self.snake.capacity_is_exceed()
            invariant
                self.snake.len == target,
                1 <= target,
                self.snake.body@.len() >= 1,
                removed@.len() <= body0.len(),
                removed@ =~= body0.take(removed@.len() as int),
                self.snake.body@ =~= body0.skip(removed@.len() as int),
                removed@.len() > 0 ==> self.snake.body@.len() >= target,
                forall|i: int|
                    0 <= i < self.snake.body@.len() ==> self.in_bounds(
                        #[trigger] self.snake.body@[i],
                    ),
                self.snake.capacity == mid.snake.capacity,
                self.snake.sign == mid.snake.sign,
                self.width == mid.width,
                self.height == mid.height,
                self.messages == mid.messages,
                self.curr_direction == mid.curr_direction,
                self.food_coordinate == mid.food_coordinate,
                self.speed == mid.speed,
                self.in_bounds(self.food_coordinate),
                2 <= self.width,
                2 <= self.height,
            decreases self.snake.body@.len(),
        {
            let c = self.snake.remove_tail();
            removed.push(c);
        }
        proof {
            assert(self.snake.body@ =~= trimmed(body0, target));
            assert(removed@ =~= trim_removed(body0, target));
        }
        self.catch_push_on_keyboard(key);
        self.add_next_step_for_snake();
        self.increase_speed_as_need(speed_coeff);
        TickReport { outcome: TickOutcome::Moved, ate_food: ate, removed }
    }

    /// One keypress of the end-of-game dialog: `q` asks to quit, `n` resets
    /// the session for another round (single-segment snake at the origin,
    /// heading right, cleared messages, fresh food), and any other key
    /// leaves the dialog waiting.
    pub fn exit_dialog_key(&mut self, key: char) -> (r: Option<bool>)
        requires
            old(self).wf(),
        ensures
            final(self).wf(),
            key == 'q' ==> r == Some(false) && *final(self) == *old(self),
            key != 'q' && key != 'n' ==> r == None::<bool> && *final(self) == *old(self),
            key == 'n' ==> ({
                &&& r == Some(true)
                &&& final(self).snake.len == 1
                &&& final(self).snake.body@ =~= seq![origin()]
                &&& final(self).curr_direction == Heading::Right
                &&& final(self).messages@.len() == 0
                &&& final(self).snake.capacity == old(self).snake.capacity
                &&& final(self).snake.sign == old(self).snake.sign
                &&& final(self).width == old(self).width
                &&& final(self).height == old(self).height
                &&& final(self).speed == old(self).speed
                &&& final(self).settled()
            }),
    {
        if key == 'q' {
            return Some(false);
        }
        if key == 'n' {
            self.snake.reset();
            self.curr_direction = Heading::Right;
            self.messages = Vec::new();
            self.generate_food();
            return Some(true);
        }
        None
    }
}

/// Wrap correctness: moving off any wall re-enters on the opposite wall with
/// the cross-axis coordinate unchanged, and an interior move is the plain
/// unit step.
pub proof fn lemma_wrap_correctness(c: Coordinate, width: int, height: int)
    requires
        2 <= width <= i32::MAX,
        2 <= height <= i32::MAX,
        0 <= c.x < width,
        0 <= c.y < height,
    ensures
        c.x == width - 1 ==> next_head(c, Heading::Right, width, height) == (Coordinate {
            x: 0,
            y: c.y,
        }),
        c.x == 0 ==> next_head(c, Heading::Left, width, height) == (Coordinate {
            x: (width - 1) as i32,
            y: c.y,
        }),
        c.y == height - 1 ==> next_head(c, Heading::Down, width, height) == (Coordinate {
            x: c.x,
            y: 0,
        }),
        c.y == 0 ==> next_head(c, Heading::Up, width, height) == (Coordinate {
            x: c.x,
            y: (height - 1) as i32,
        }),
        c.x < width - 1 ==> next_head(c, Heading::Right, width, height) == (Coordinate {
            x: (c.x + 1) as i32,
            y: c.y,
        }),
        c.x > 0 ==> next_head(c, Heading::Left, width, height) == (Coordinate {
            x: (c.x - 1) as i32,
            y: c.y,
        }),
        c.y < height - 1 ==> next_head(c, Heading::Down, width, height) == (Coordinate {
            x: c.x,
            y: (c.y + 1) as i32,
        }),
        c.y > 0 ==> next_head(c, Heading::Up, width, height) == (Coordinate {
            x: c.x,
            y: (c.y - 1) as i32,
        }),
{
}

/// No reversal: the exact opposite input never turns the heading, and either
/// perpendicular input always does.
pub proof fn lemma_no_reversal(current: Heading, input: Heading)
    ensures
        resolve_heading(current, Some(current.opposite())) == current,
        resolve_heading(current, None) == current,
        input != current.opposite() ==> resolve_heading(current, Some(input)) == input,
        input != current.opposite() && input != current ==> resolve_heading(current, Some(input))
            != current,
{
}

/// Growth conservation: eating at target length `k` below the capacity
/// raises the target to `k + 1`; a body settled when the food was eaten
/// settles to exactly `k + 1` cells once the following tick has trimmed it;
/// and the capacity is then reached exactly when `k + 1` is the capacity.
pub proof fn lemma_growth_conservation(
    k: int,
    capacity: int,
    body: Seq<Coordinate>,
    new_head: Coordinate,
)
    requires
        1 <= k < capacity,
        k <= body.len() <= k + 1,
    ensures
        grown_len(k, capacity, true) == k + 1,
        trimmed(trimmed(body, k + 1).push(new_head), k + 1).len() == k + 1,
        grown_len(k, capacity, true) == capacity <==> k + 1 == capacity,
{
}

/// Speed monotonicity: the tick delay never rises as the snake grows, never
/// sinks below the floor, and sits exactly on the floor once the raw
/// formula is non-positive.
pub proof fn lemma_speed_monotonic(len1: int, len2: int, speed_coeff: int)
    requires
        1 <= len1 <= len2,
        0 <= speed_coeff,
    ensures
        tick_delay(len2, speed_coeff) <= tick_delay(len1, speed_coeff),
        MIN_DELAY_MS <= tick_delay(len2, speed_coeff),
        BASE_DELAY_MS - len2 * speed_coeff <= 0 ==> tick_delay(len2, speed_coeff)
            == MIN_DELAY_MS,
{
    assert(len1 * speed_coeff <= len2 * speed_coeff) by (nonlinear_arith)
        requires
            1 <= len1 <= len2,
            0 <= speed_coeff,
    ;
}

/// Relies on rand's `Rng::random_range` over `0..bound` (through
/// `rand::rng()`): the sample always lies in the given half-open range, and
/// the call panics only on an empty range, which the precondition rules out.
/// Nothing is stated about which value comes back.
#[verifier::external_body]
fn random_below(bound: i32) -> (r: i32)
    requires
        1 <= bound,
    ensures
        0 <= r < bound,
{
    rand::rng().random_range(0..bound)
}

} // verus!
