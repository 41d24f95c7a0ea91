use std::collections::VecDeque;
use vstd::prelude::*;

verus! {

broadcast use vstd::std_specs::vecdeque::group_vec_dequeue_axioms;

/// The four headings of the snake.
#[derive(Clone, Copy, PartialEq, Eq, Structural, Debug)]
pub enum Direction {
    Up,
    Down,
    Left,
    Right,
}

/// The heading that points the other way.
pub open spec fn opposite_of(d: Direction) -> Direction {
    match d {
        Direction::Up => Direction::Down,
        Direction::Down => Direction::Up,
        Direction::Left => Direction::Right,
        Direction::Right => Direction::Left,
    }
}

/// Turning around twice gives back the heading one started with.
pub proof fn lemma_opposite_involutive(d: Direction)
    ensures
        opposite_of(opposite_of(d)) == d,
{
}

impl Direction {
    pub fn opposite(&self) -> (r: Direction)
        ensures
            r == opposite_of(*self),
    {
        match *self {
            Direction::Up => Direction::Down,
            Direction::Down => Direction::Up,
            Direction::Left => Direction::Right,
            Direction::Right => Direction::Left,
        }
    }
}

/// The heading a move takes: the one given, else the current one.
pub open spec fn chosen(dir: Option<Direction>, current: Direction) -> Direction {
    match dir {
        Some(d) => d,
        None => current,
    }
}

/// The neighbour of `c` in heading `d`, as mathematical integers.
/// The y axis grows downwards.
pub open spec fn step_of(c: (i32, i32), d: Direction) -> (int, int) {
    match d {
        Direction::Up => (c.0 as int, c.1 - 1),
        Direction::Down => (c.0 as int, c.1 + 1),
        Direction::Left => (c.0 - 1, c.1 as int),
        Direction::Right => (c.0 + 1, c.1 as int),
    }
}

/// The neighbour of `c` in heading `d` has coordinates that fit in `i32`.
pub open spec fn step_fits(c: (i32, i32), d: Direction) -> bool {
    let p = step_of(c, d);
    &&& i32::MIN <= p.0 <= i32::MAX
    &&& i32::MIN <= p.1 <= i32::MAX
}

/// The neighbour of `c` in heading `d` as a cell.
pub open spec fn step_cell(c: (i32, i32), d: Direction) -> (i32, i32) {
    (step_of(c, d).0 as i32, step_of(c, d).1 as i32)
}

/// `c` is one of the cells of `body` other than its last one.
pub open spec fn occupies_before_tail(body: Seq<(i32, i32)>, c: (i32, i32)) -> bool {
    exists|i: int| 0 <= i < body.len() - 1 && body[i] == c
}

/// The three cells of a new snake whose tail is at `(x, y)`, head first.
pub open spec fn initial_body(x: i32, y: i32) -> Seq<(i32, i32)> {
    seq![((x + 2) as i32, y), ((x + 1) as i32, y), (x, y)]
}

/// The snake seen as its heading, its cells from head to tail, and the tail
/// cell that the last move vacated.
pub struct SnakeView {
    pub direction: Direction,
    pub body: Seq<(i32, i32)>,
    pub tail: Option<(i32, i32)>,
}

impl SnakeView {
    pub open spec fn head(self) -> (i32, i32) {
        self.body[0]
    }

    /// One step in heading `chosen(dir, self.direction)`: a new head in front,
    /// the last cell removed and kept.
    pub open spec fn moved(self, dir: Option<Direction>) -> SnakeView {
        let d = chosen(dir, self.direction);
        SnakeView {
            direction: d,
            body: seq![step_cell(self.head(), d)] + self.body.drop_last(),
            tail: Some(self.body.last()),
        }
    }

    /// The kept tail cell appended again.
    pub open spec fn grown(self) -> SnakeView {
        SnakeView { body: self.body.push(self.tail.unwrap()), ..self }
    }
}

/// The snake of a new game.
pub open spec fn initial_snake(x: i32, y: i32) -> SnakeView {
    SnakeView { direction: Direction::Right, body: initial_body(x, y), tail: None }
}

/// A new snake's first move in its own heading puts the head one cell
/// further right and keeps three cells.
pub proof fn lemma_first_move(x: i32, y: i32)
    requires
        x + 3 <= i32::MAX,
    ensures
        initial_snake(x, y).moved(None).head() == ((x + 3) as i32, y),
        initial_snake(x, y).moved(None).body.len() == 3,
{
}

/// On a new snake the head and middle cells count as occupied, while the
/// tail cell and every cell off the body do not.
pub proof fn lemma_initial_overlap(x: i32, y: i32)
    requires
        x + 2 <= i32::MAX,
    ensures
        occupies_before_tail(initial_body(x, y), ((x + 2) as i32, y)),
        occupies_before_tail(initial_body(x, y), ((x + 1) as i32, y)),
        !occupies_before_tail(initial_body(x, y), (x, y)),
        forall|c: (i32, i32)|
            !initial_body(x, y).contains(c) ==> !occupies_before_tail(initial_body(x, y), c),
{
    let b = initial_body(x, y);
    assert(b[0] == ((x + 2) as i32, y));
    assert(b[1] == ((x + 1) as i32, y));
    assert forall|c: (i32, i32)| !b.contains(c) implies !occupies_before_tail(b, c) by {
        if occupies_before_tail(b, c) {
            let i = choose|i: int| 0 <= i < b.len() - 1 && b[i] == c;
            assert(b.contains(c));
        }
    }
}

/// A move followed by growth leaves the snake one cell longer, and the
/// cell appended is the one that the move removed.
pub proof fn lemma_move_then_grow(s: SnakeView, dir: Option<Direction>)
    requires
        s.body.len() >= 1,
    ensures
        s.moved(dir).grown().body.len() == s.body.len() + 1,
        s.moved(dir).grown().body.last() == s.body.last(),
{
}

pub struct Snake {
    direction: Direction,
    body: VecDeque<(i32, i32)>,
    tail: Option<(i32, i32)>,
}

impl View for Snake {
    type V = SnakeView;

    closed spec fn view(&self) -> SnakeView {
        SnakeView { direction: self.direction, body: self.body@, tail: self.tail }
    }
}

impl Snake {
    /// A snake always has a head.
    pub open spec fn wf(&self) -> bool {
        self@.body.len() >= 1
    }

    /// A snake of three cells lying to the right of `(x, y)`, heading right.
    pub fn new(x: i32, y: i32) -> (r: Snake)
        requires
            x + 2 <= i32::MAX,
        ensures
            r@ == initial_snake(x, y),
            r.wf(),
    {
        let mut body: VecDeque<(i32, i32)> = VecDeque::new();
        body.push_back((x + 2, y));
        body.push_back((x + 1, y));
        body.push_back((x, y));
        let r = Snake { direction: Direction::Right, body, tail: None };
        assert(r@.body =~= initial_body(x, y));
        r
    }

    pub fn head_position(&self) -> (r: (i32, i32))
        requires
            self.wf(),
        ensures
            r == self@.head(),
    {
        self.body[0]
    }

    pub fn head_direction(&self) -> (r: Direction)
        ensures
            r == self@.direction,
    {
        self.direction
    }

    /// Where the head would go in heading `dir`, or in the current heading
    /// when `dir` is `None`; the snake is left as it is.
    pub fn next_head(&self, dir: Option<Direction>) -> (r: (i32, i32))
        requires
            self.wf(),
            step_fits(self@.head(), chosen(dir, self@.direction)),
        ensures
            r == step_cell(self@.head(), chosen(dir, self@.direction)),
    {
        let (head_x, head_y) = self.head_position();
        let mut moving_dir = self.direction;
        if let Some(d) = dir {
            moving_dir = d;
        }
        match moving_dir {
            Direction::Up => (head_x, head_y - 1),
            Direction::Down => (head_x, head_y + 1),
            Direction::Left => (head_x - 1, head_y),
            Direction::Right => (head_x + 1, head_y),
        }
    }

    /// Takes heading `dir` if one is given, puts the next cell in front and
    /// removes the last one, which is kept for `restore_tail`.
    pub fn move_forward(&mut self, dir: Option<Direction>)
        requires
            old(self).wf(),
            step_fits(old(self)@.head(), chosen(dir, old(self)@.direction)),
        ensures
            final(self)@ == old(self)@.moved(dir),
            final(self).wf(),
    {
        let new_head = self.next_head(dir);
        if let Some(d) = dir {
            self.direction = d;
        }
        self.body.push_front(new_head);
        let removed = self.body.pop_back();
        self.tail = removed;
        assert(self@.body =~= old(self)@.moved(dir).body);
    }

    /// Appends again the cell that the last move removed.
    pub fn restore_tail(&mut self)
        requires
            old(self)@.tail is Some,
        ensures
            final(self)@ == old(self)@.grown(),
            final(self).wf(),
    {
        let cell = self.tail.unwrap();
        self.body.push_back(cell);
    }

    /// Whether `(x, y)` is a cell of the body other than the last one.
    pub fn overlap_tail(&self, x: i32, y: i32) -> (r: bool)
        ensures
            r == occupies_before_tail(self@.body, (x, y)),
    {
        let n = self.body.len();
        let last: usize = if n == 0 { 0 } else { n - 1 };
        let mut i: usize = 0;
        while i < last
            invariant
                n == self@.body.len(),
                last == if n == 0 { 0 } else { n - 1 },
                i <= last,
                forall|j: int| 0 <= j < i ==> self@.body[j] != (x, y),
            decreases last - i,
        {
            let cell = self.body[i];
            if cell.0 == x && cell.1 == y {
                return true;
            }
            i = i + 1;
        }
        false
    }

    /// The cells of the body, head first.
    pub fn cells(&self) -> (r: Vec<(i32, i32)>)
        ensures
            r@ == self@.body,
    {
        let n = self.body.len();
        let mut r: Vec<(i32, i32)> = Vec::new();
        let mut i: usize = 0;
        while i < n
            invariant
                n == self@.body.len(),
                i <= n,
                r@ == self@.body.subrange(0, i as int),
            decreases n - i,
        {
            r.push(self.body[i]);
            i = i + 1;
            assert(r@ =~= self@.body.subrange(0, i as int));
        }
        assert(r@ =~= self@.body);
        r
    }
}

} // verus!
