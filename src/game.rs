use crate::snake::{
    chosen, initial_snake, occupies_before_tail, opposite_of, step_cell, Direction, Snake,
    SnakeView,
};
use rand::Rng;
use vstd::prelude::*;

verus! {

/// Time between two moves of the snake, in microseconds.
pub const MOVING_PERIOD: u64 = 100_000;

/// Time between the end of a game and the next one, in microseconds.
pub const RESTART_TIME: u64 = 1_000_000;

/// Where the tail of a new snake lies.
pub const START_X: i32 = 2;
pub const START_Y: i32 = 2;

/// Where the food of a new game lies.
pub const FOOD_START_X: i32 = 6;
pub const FOOD_START_Y: i32 = 4;

/// How many random cells food placement draws before it searches the arena.
const FOOD_DRAWS: u32 = 64;

/// A key as the input device reports it: an arrow, or anything else.
#[derive(Clone, Copy, PartialEq, Eq, Structural, Debug)]
pub enum Key {
    Up,
    Down,
    Left,
    Right,
    Other,
}

/// The heading a key asks for; a key that is no arrow keeps `current`.
pub open spec fn key_direction(key: Key, current: Direction) -> Direction {
    match key {
        Key::Up => Direction::Up,
        Key::Down => Direction::Down,
        Key::Left => Direction::Left,
        Key::Right => Direction::Right,
        Key::Other => current,
    }
}

/// `c` lies inside the ring of wall cells of a `w` by `h` arena.
pub open spec fn inside_walls(c: (i32, i32), w: i32, h: i32) -> bool {
    &&& 1 <= c.0 < w - 1
    &&& 1 <= c.1 < h - 1
}

/// Food may be put on `c`: it is inside the walls and not on the snake
/// (the snake's last cell excepted).
pub open spec fn free_for_food(s: SnakeView, c: (i32, i32), w: i32, h: i32) -> bool {
    inside_walls(c, w, h) && !occupies_before_tail(s.body, c)
}

/// Some cell of the arena can take food.
pub open spec fn arena_has_room(s: SnakeView, w: i32, h: i32) -> bool {
    exists|c: (i32, i32)| free_for_food(s, c, w, h)
}

/// `a + b`, or `u64::MAX` where that sum is larger.
pub open spec fn saturating_sum(a: u64, b: u64) -> u64 {
    if a + b > u64::MAX {
        u64::MAX
    } else {
        (a + b) as u64
    }
}

/// The game seen as plain values. `food` is meaningful only while
/// `food_exists` holds; `waiting_time` is in microseconds.
pub struct GameView {
    pub snake: SnakeView,
    pub food_exists: bool,
    pub food: (i32, i32),
    pub width: i32,
    pub height: i32,
    pub game_over: bool,
    pub waiting_time: u64,
}

/// A new game in a `w` by `h` arena.
pub open spec fn initial_game(w: i32, h: i32) -> GameView {
    GameView {
        snake: initial_snake(START_X, START_Y),
        food_exists: true,
        food: (FOOD_START_X, FOOD_START_Y),
        width: w,
        height: h,
        game_over: false,
        waiting_time: 0,
    }
}

impl GameView {
    /// The arena has an interior, the snake a head, and the head's
    /// neighbours have coordinates that fit in `i32`.
    pub open spec fn wf(self) -> bool {
        &&& self.width > 2
        &&& self.height > 2
        &&& self.snake.body.len() >= 1
        &&& i32::MIN < self.snake.head().0 < i32::MAX
        &&& i32::MIN < self.snake.head().1 < i32::MAX
    }

    pub open spec fn next_head(self, dir: Option<Direction>) -> (i32, i32) {
        step_cell(self.snake.head(), chosen(dir, self.snake.direction))
    }

    /// The snake survives a step in heading `dir`: the next head is neither
    /// on its body (the last cell excepted) nor on the walls.
    pub open spec fn alive(self, dir: Option<Direction>) -> bool {
        &&& !occupies_before_tail(self.snake.body, self.next_head(dir))
        &&& inside_walls(self.next_head(dir), self.width, self.height)
    }

    /// A head on the food eats it, and the snake grows by its kept tail.
    pub open spec fn after_eating(self) -> GameView {
        if self.food_exists && self.snake.head() == self.food {
            GameView { food_exists: false, snake: self.snake.grown(), ..self }
        } else {
            self
        }
    }

    /// One step of the snake: a move and a meal when it survives, the end
    /// of the game when not; the timer starts again either way.
    pub open spec fn after_step(self, dir: Option<Direction>) -> GameView {
        if self.alive(dir) {
            GameView { snake: self.snake.moved(dir), waiting_time: 0, ..self }.after_eating()
        } else {
            GameView { game_over: true, waiting_time: 0, ..self }
        }
    }

    /// A key press: ignored once the game is over or when it asks for the
    /// heading opposite to the current one, else an immediate step.
    pub open spec fn after_key(self, key: Key) -> GameView {
        let d = key_direction(key, self.snake.direction);
        if self.game_over || d == opposite_of(self.snake.direction) {
            self
        } else {
            self.after_step(Some(d))
        }
    }

    /// `next` differs from `self` in the food alone: food is present exactly
    /// when the arena has room for it, and then on a free cell.
    pub open spec fn food_placed(self, next: GameView) -> bool {
        &&& next == GameView { food_exists: next.food_exists, food: next.food, ..self }
        &&& next.food_exists == arena_has_room(self.snake, self.width, self.height)
        &&& next.food_exists ==> free_for_food(self.snake, next.food, self.width, self.height)
        &&& !next.food_exists ==> next.food == self.food
    }

    /// The snake steps once the timer has passed the moving period.
    pub open spec fn after_timer(self) -> GameView {
        if self.waiting_time > MOVING_PERIOD {
            self.after_step(None)
        } else {
            self
        }
    }

    /// What one call of `update` with `delta` microseconds may turn `self`
    /// into. The timer advances, saturating. A finished game starts again
    /// once the timer passes the restart time. A running one first gets food
    /// if it has none, then steps once the timer passes the moving period.
    pub open spec fn update_leads_to(self, delta: u64, next: GameView) -> bool {
        let acc = GameView { waiting_time: saturating_sum(self.waiting_time, delta), ..self };
        if acc.game_over {
            next == if acc.waiting_time > RESTART_TIME {
                initial_game(acc.width, acc.height)
            } else {
                acc
            }
        } else if acc.food_exists {
            next == acc.after_timer()
        } else {
            exists|m: GameView| acc.food_placed(m) && next == m.after_timer()
        }
    }
}

/// A step whose next head lands on the ring of wall cells ends the game,
/// whatever the snake's body.
pub proof fn lemma_walls_are_lethal(g: GameView, dir: Option<Direction>)
    requires
        g.wf(),
        ({
            let c = g.next_head(dir);
            c.0 == 0 || c.1 == 0 || c.0 == g.width - 1 || c.1 == g.height - 1
        }),
    ensures
        !g.alive(dir),
{
}

/// A key asking for the heading opposite to the current one changes
/// nothing, the timer included.
pub proof fn lemma_reversal_ignored(g: GameView, key: Key)
    requires
        key_direction(key, g.snake.direction) == opposite_of(g.snake.direction),
    ensures
        g.after_key(key) == g,
{
}

/// Relies on rand's `thread_rng().gen_range(low..high)`: a value drawn from
/// `low..high`. It panics on an empty range, which `requires` leaves out.
#[verifier::external_body]
fn random_in_range(low: i32, high: i32) -> (r: i32)
    requires
        low < high,
    ensures
        low <= r < high,
{
    rand::thread_rng().gen_range(low..high)
}

pub struct Game {
    snake: Snake,
    food_exists: bool,
    food_x: i32,
    food_y: i32,
    width: i32,
    height: i32,
    game_over: bool,
    waiting_time: u64,
}

impl View for Game {
    type V = GameView;

    closed spec fn view(&self) -> GameView {
        GameView {
            snake: self.snake@,
            food_exists: self.food_exists,
            food: (self.food_x, self.food_y),
            width: self.width,
            height: self.height,
            game_over: self.game_over,
            waiting_time: self.waiting_time,
        }
    }
}

impl Game {
    pub open spec fn wf(&self) -> bool {
        self@.wf()
    }

    /// A new game in a `width` by `height` arena, the outermost ring of
    /// which is wall.
    pub fn new(width: i32, height: i32) -> (r: Game)
        requires
            width > 2,
            height > 2,
        ensures
            r@ == initial_game(width, height),
            r.wf(),
    {
        Game {
            snake: Snake::new(START_X, START_Y),
            food_exists: true,
            food_x: FOOD_START_X,
            food_y: FOOD_START_Y,
            width,
            height,
            game_over: false,
            waiting_time: 0,
        }
    }

    /// Whether the snake survives a step in heading `dir` (the current one
    /// when `None`).
    pub fn check_if_snake_alive(&self, dir: Option<Direction>) -> (r: bool)
        requires
            self.wf(),
        ensures
            r == self@.alive(dir),
    {
        let (next_x, next_y) = self.snake.next_head(dir);
        if self.snake.overlap_tail(next_x, next_y) {
            return false;
        }
        next_x > 0 && next_y > 0 && next_x < self.width - 1 && next_y < self.height - 1
    }

    fn check_eating(&mut self)
        requires
            old(self).wf(),
            old(self)@.snake.tail is Some,
        ensures
            final(self)@ == old(self)@.after_eating(),
            final(self).wf(),
    {
        let (head_x, head_y) = self.snake.head_position();
        if self.food_exists && self.food_x == head_x && self.food_y == head_y {
            self.food_exists = false;
            self.snake.restore_tail();
        }
    }

    fn update_snake(&mut self, dir: Option<Direction>)
        requires
            old(self).wf(),
        ensures
            final(self)@ == old(self)@.after_step(dir),
            final(self).wf(),
    {
        if self.check_if_snake_alive(dir) {
            self.snake.move_forward(dir);
            self.check_eating();
        } else {
            self.game_over = true;
        }
        self.waiting_time = 0;
    }

    /// Handles a key: once the game is over, or when the key asks for the
    /// heading opposite to the current one, nothing changes; otherwise the
    /// snake steps at once in the heading asked for.
    pub fn key_pressed(&mut self, key: Key)
        requires
            old(self).wf(),
        ensures
            final(self)@ == old(self)@.after_key(key),
            final(self).wf(),
    {
        if self.game_over {
            return;
        }
        let current = self.snake.head_direction();
        let dir = match key {
            Key::Up => Direction::Up,
            Key::Down => Direction::Down,
            Key::Left => Direction::Left,
            Key::Right => Direction::Right,
            Key::Other => current,
        };
        if dir == current.opposite() {
            return;
        }
        self.update_snake(Some(dir));
    }

    /// A new snake and food where a new game has them; the arena stays.
    fn restart(&mut self)
        requires
            old(self).wf(),
        ensures
            final(self)@ == initial_game(old(self)@.width, old(self)@.height),
            final(self).wf(),
    {
        self.snake = Snake::new(START_X, START_Y);
        self.waiting_time = 0;
        self.food_exists = true;
        self.food_x = FOOD_START_X;
        self.food_y = FOOD_START_Y;
        self.game_over = false;
    }

    /// Puts the food on `(x, y)` when that cell is free for it, and says
    /// whether it did; otherwise nothing changes.
    pub fn place_food(&mut self, x: i32, y: i32) -> (r: bool)
        requires
            old(self).wf(),
        ensures
            r == free_for_food(old(self)@.snake, (x, y), old(self)@.width, old(self)@.height),
            r ==> final(self)@ == (GameView { food_exists: true, food: (x, y), ..old(self)@ }),
            !r ==> final(self)@ == old(self)@,
            final(self).wf(),
    {
        if x < 1 || y < 1 || x >= self.width - 1 || y >= self.height - 1 {
            return false;
        }
        if self.snake.overlap_tail(x, y) {
            return false;
        }
        self.food_x = x;
        self.food_y = y;
        self.food_exists = true;
        true
    }

    /// Puts food on a cell inside the walls that the snake does not hold.
    /// It draws random cells first, then searches the arena in order; where
    /// no cell is free, the game is left without food.
    pub fn add_food(&mut self)
        requires
            old(self).wf(),
        ensures
            old(self)@.food_placed(final(self)@),
            final(self).wf(),
    {
        let ghost start = self@;
        let mut draws: u32 = 0;
        while draws < FOOD_DRAWS
            invariant
                start == old(self)@,
                self@ == start,
                self.wf(),
            decreases FOOD_DRAWS - draws,
        {
            let x = random_in_range(1, self.width - 1);
            let y = random_in_range(1, self.height - 1);
            if self.place_food(x, y) {
                assert(free_for_food(start.snake, (x, y), start.width, start.height));
                return;
            }
            draws = draws + 1;
        }
        let mut y: i32 = 1;
        while y < self.height - 1
            invariant
                start == old(self)@,
                self@ == start,
                self.wf(),
                1 <= y <= start.height - 1,
                forall|c: (i32, i32)|
                    inside_walls(c, start.width, start.height) && c.1 < y
                        ==> #[trigger] occupies_before_tail(start.snake.body, c),
            decreases start.height - 1 - y,
        {
            let mut x: i32 = 1;
            while x < self.width - 1
                invariant
                    start == old(self)@,
                self@ == start,
                    self.wf(),
                    1 <= y < start.height - 1,
                    1 <= x <= start.width - 1,
                    forall|c: (i32, i32)|
                        inside_walls(c, start.width, start.height) && (c.1 < y || (c.1 == y
                            && c.0 < x)) ==> #[trigger] occupies_before_tail(start.snake.body, c),
                decreases start.width - 1 - x,
            {
                if self.place_food(x, y) {
                    assert(free_for_food(start.snake, (x, y), start.width, start.height));
                    return;
                }
                x = x + 1;
            }
            y = y + 1;
        }
        self.food_exists = false;
        assert(!arena_has_room(start.snake, start.width, start.height)) by {
            assert forall|c: (i32, i32)| !free_for_food(start.snake, c, start.width, start.height) by {
                if inside_walls(c, start.width, start.height) {
                    assert(occupies_before_tail(start.snake.body, c));
                }
            }
        }
    }

    /// Advances the timer by `delta` microseconds, then restarts a finished
    /// game, or gives a running one food and a step, as they fall due.
    pub fn update(&mut self, delta: u64)
        requires
            old(self).wf(),
        ensures
            old(self)@.update_leads_to(delta, final(self)@),
            final(self).wf(),
    {
        self.waiting_time = self.waiting_time.saturating_add(delta);
        if self.game_over {
            if self.waiting_time > RESTART_TIME {
                self.restart();
            }
            return;
        }
        if !self.food_exists {
            self.add_food();
        }
        let ghost fed = self@;
        if self.waiting_time > MOVING_PERIOD {
            self.update_snake(None);
        }
        assert(fed.after_timer() == self@);
    }

    pub fn snake(&self) -> (r: &Snake)
        ensures
            r@ == self@.snake,
    {
        &self.snake
    }

    pub fn food_exists(&self) -> (r: bool)
        ensures
            r == self@.food_exists,
    {
        self.food_exists
    }

    pub fn food_position(&self) -> (r: (i32, i32))
        ensures
            r == self@.food,
    {
        (self.food_x, self.food_y)
    }

    pub fn width(&self) -> (r: i32)
        ensures
            r == self@.width,
    {
        self.width
    }

    pub fn height(&self) -> (r: i32)
        ensures
            r == self@.height,
    {
        self.height
    }

    pub fn is_game_over(&self) -> (r: bool)
        ensures
            r == self@.game_over,
    {
        self.game_over
    }

    /// Microseconds since the snake last stepped or the game last began.
    pub fn waiting_time(&self) -> (r: u64)
        ensures
            r == self@.waiting_time,
    {
        self.waiting_time
    }
}

} // verus!
