use vstd::prelude::*;
use crate::geometry::{in_bounds, moved, Direction, Position};

verus! {

/// Column of the head when a round starts.
pub const START_X: i32 = 3;

/// Row of the head when a round starts; the body sits one row below.
pub const START_Y: i32 = 3;

/// The heading state carried by the head of the snake.
#[derive(PartialEq, Eq, Structural, Copy, Clone, Debug)]
pub struct SnakeHead {
    /// The heading used by the last move.
    pub direction: Direction,
    /// The latest heading asked for, not yet committed.
    pub last_input: Direction,
}

/// The whole state of a round.
#[derive(Clone, Debug)]
pub struct Game {
    pub head: SnakeHead,
    /// The body chain: index 0 is the head, higher indices lie further back.
    pub segments: Vec<Position>,
    /// Cells that hold food.
    pub food: Vec<Position>,
    /// The cell the tail left on the last move, if there was one.
    pub last_tail_position: Option<Position>,
}

/// The heading that a move commits to: the latched one, unless it would
/// turn the snake straight back.
pub open spec fn committed(h: SnakeHead) -> Direction {
    if h.last_input == h.direction.opposite_of() {
        h.direction
    } else {
        h.last_input
    }
}

/// A move never turns the snake straight back: the heading it commits to is
/// never the reverse of the heading of the move before.
pub proof fn lemma_no_reversal(h: SnakeHead)
    ensures
        committed(h) != h.direction.opposite_of(),
        h.last_input != h.direction.opposite_of() ==> committed(h) == h.last_input,
{
}

/// The heading read from the keys held down this frame: the first of Left,
/// Down, Up, Right that is held, or none.
pub open spec fn pressed_spec(left: bool, down: bool, up: bool, right: bool) -> Option<Direction> {
    if left {
        Some(Direction::Left)
    } else if down {
        Some(Direction::Down)
    } else if up {
        Some(Direction::Up)
    } else if right {
        Some(Direction::Right)
    } else {
        None
    }
}

pub fn pressed_direction(left: bool, down: bool, up: bool, right: bool) -> (r: Option<Direction>)
    ensures
        r == pressed_spec(left, down, up, right),
{
    if left {
        Some(Direction::Left)
    } else if down {
        Some(Direction::Down)
    } else if up {
        Some(Direction::Up)
    } else if right {
        Some(Direction::Right)
    } else {
        None
    }
}

/// The chain after a move: the new head, then every segment in the cell of
/// the one ahead of it before the move.
pub open spec fn shifted(chain: Seq<Position>, new_head: Position) -> Seq<Position> {
    seq![new_head] + chain.drop_last()
}

/// The chain a round starts with.
pub open spec fn start_chain() -> Seq<Position> {
    seq![Position { x: START_X, y: START_Y }, Position { x: START_X, y: (START_Y - 1) as i32 }]
}

/// Whether a move to `new_head` from `chain` ends the round.
pub open spec fn collides(chain: Seq<Position>, new_head: Position) -> bool {
    !in_bounds(new_head) || chain.contains(new_head)
}

/// The food left after the head at `head` eats: every piece in that cell
/// goes, the others stay in order.
pub open spec fn uneaten(food: Seq<Position>, head: Position) -> Seq<Position> {
    food.filter(elsewhere(head))
}

/// Holds of the cells other than `head`.
pub open spec fn elsewhere(head: Position) -> spec_fn(Position) -> bool {
    |f: Position| f != head
}

/// The signals one simulation tick raised.
#[derive(PartialEq, Eq, Structural, Copy, Clone, Debug)]
pub struct TickEvents {
    /// The move ended the round, and the board was reset.
    pub game_over: bool,
    /// The head ate, and the snake grew by one segment.
    pub grew: bool,
}

impl Game {
    /// Well-formed: the chain has a head and at least one body segment, all
    /// on the board, and a recorded tail cell is on the board too.
    pub open spec fn wf(&self) -> bool {
        &&& self.segments@.len() >= 2
        &&& forall|i: int| 0 <= i < self.segments@.len() ==> in_bounds(#[trigger] self.segments@[i])
        &&& (self.last_tail_position matches Some(p) ==> in_bounds(p))
    }

    /// Whether this state is the start of a fresh round.
    pub open spec fn is_start(&self) -> bool {
        &&& self.segments@ == start_chain()
        &&& self.head == (SnakeHead { direction: Direction::Up, last_input: Direction::Up })
    }

    pub fn is_well_formed(&self) -> (r: bool)
        ensures
            r == self.wf(),
    {
        if self.segments.len() < 2 {
            return false;
        }
        let mut i: usize = 0;
        while i < self.segments.len()
            invariant
                0 <= i <= self.segments@.len(),
                forall|j: int| 0 <= j < i ==> in_bounds(#[trigger] self.segments@[j]),
            decreases self.segments@.len() - i,
        {
            if !self.segments[i].is_in_bounds() {
                return false;
            }
            i = i + 1;
        }
        match self.last_tail_position {
            Some(p) => p.is_in_bounds(),
            None => true,
        }
    }

    /// A fresh round: a two-segment snake heading up, no food.
    pub fn new() -> (g: Game)
        ensures
            g.wf(),
            g.is_start(),
            g.food@.len() == 0,
            g.last_tail_position.is_none(),
    {
        let mut g = Game {
            head: SnakeHead { direction: Direction::Up, last_input: Direction::Up },
            segments: Vec::new(),
            food: Vec::new(),
            last_tail_position: None,
        };
        g.spawn_snake();
        g
    }

    /// Places the starting snake: head at the start cell heading up, one body
    /// segment below it. Food and the recorded tail cell are left alone.
    pub fn spawn_snake(&mut self)
        ensures
            final(self).is_start(),
            final(self).food == old(self).food,
            final(self).last_tail_position == old(self).last_tail_position,
    {
        self.head = SnakeHead { direction: Direction::Up, last_input: Direction::Up };
        self.segments = vec![
            Position { x: START_X, y: START_Y },
            Position { x: START_X, y: START_Y - 1 },
        ];
        assert(self.segments@ =~= start_chain());
    }

    /// Latches a pressed heading; with none pressed the latch keeps its
    /// value. The committed heading is never touched here.
    pub fn latch_input(&mut self, pressed: Option<Direction>)
        ensures
            final(self).head.direction == old(self).head.direction,
            final(self).head.last_input == match pressed {
                Some(d) => d,
                None => old(self).head.last_input,
            },
            final(self).segments == old(self).segments,
            final(self).food == old(self).food,
            final(self).last_tail_position == old(self).last_tail_position,
    {
        if let Some(d) = pressed {
            self.head.last_input = d;
        }
    }

    /// Whether `p` is one of the cells of the chain.
    pub fn occupies(&self, p: Position) -> (r: bool)
        ensures
            r == self.segments@.contains(p),
    {
        let mut i: usize = 0;
        while i < self.segments.len()
            invariant
                0 <= i <= self.segments@.len(),
                forall|j: int| 0 <= j < i ==> self.segments@[j] != p,
            decreases self.segments@.len() - i,
        {
            if self.segments[i] == p {
                return true;
            }
            i = i + 1;
        }
        false
    }

    /// One move: commits the heading, steps the head one cell, moves each
    /// other segment into the cell of the one ahead of it, and records the
    /// cell the tail left. Returns whether the move ends the round: the new
    /// head cell is off the board or was part of the chain before the move.
    /// Without a head nothing happens.
    pub fn movement(&mut self) -> (game_over: bool)
        requires
            old(self).segments@.len() > 0 ==> in_bounds(old(self).segments@[0]),
        ensures
            old(self).segments@.len() == 0 ==> !game_over && *final(self) == *old(self),
            old(self).segments@.len() > 0 ==> {
                let dir = committed(old(self).head);
                let new_head = moved(old(self).segments@[0], dir);
                &&& final(self).head.direction == dir
                &&& final(self).head.last_input == old(self).head.last_input
                &&& final(self).segments@ == shifted(old(self).segments@, new_head)
                &&& final(self).last_tail_position == Some(old(self).segments@.last())
                &&& final(self).food == old(self).food
                &&& game_over == collides(old(self).segments@, new_head)
            },
    {
        if self.segments.len() == 0 {
            return false;
        }
        if self.head.direction != self.head.last_input.opposite() {
            self.head.direction = self.head.last_input;
        }
        let new_head = self.segments[0].step(self.head.direction);
        let game_over = !new_head.is_in_bounds() || self.occupies(new_head);
        let n = self.segments.len();
        let ghost snapshot = self.segments@;
        let mut chain: Vec<Position> = Vec::new();
        chain.push(new_head);
        let mut i: usize = 0;
        while i + 1 < n
            invariant
                n == self.segments@.len(),
                snapshot == self.segments@,
                n >= 1,
                0 <= i <= n - 1,
                chain@ =~= seq![new_head] + snapshot.subrange(0, i as int),
            decreases n - i,
        {
            chain.push(self.segments[i]);
            i = i + 1;
            assert(chain@ =~= seq![new_head] + snapshot.subrange(0, i as int));
        }
        assert(snapshot.drop_last() =~= snapshot.subrange(0, n - 1));
        self.last_tail_position = Some(self.segments[n - 1]);
        self.segments = chain;
        game_over
    }

    /// The head eats: every piece of food in the head's cell is removed.
    /// Returns how many were removed; more than none means the snake grows.
    /// Without a head nothing happens.
    pub fn eating(&mut self) -> (eaten: usize)
        ensures
            old(self).segments@.len() == 0 ==> eaten == 0 && final(self).food == old(self).food,
            old(self).segments@.len() > 0 ==> {
                &&& final(self).food@ == uneaten(old(self).food@, old(self).segments@[0])
                &&& eaten == old(self).food@.len() - final(self).food@.len()
                &&& (eaten > 0) == old(self).food@.contains(old(self).segments@[0])
            },
            final(self).head == old(self).head,
            final(self).segments == old(self).segments,
            final(self).last_tail_position == old(self).last_tail_position,
    {
        if self.segments.len() == 0 {
            return 0;
        }
        let head = self.segments[0];
        let ghost food = self.food@;
        let mut kept: Vec<Position> = Vec::new();
        let mut eaten: usize = 0;
        let mut i: usize = 0;
        while i < self.food.len()
            invariant
                food == self.food@,
                0 <= i <= food.len(),
                kept@ == uneaten(food.subrange(0, i as int), head),
                eaten + kept@.len() == i,
                (eaten > 0) == (exists|j: int| 0 <= j < i && food[j] == head),
            decreases food.len() - i,
        {
            let f = self.food[i];
            assert(food.subrange(0, i + 1) =~= food.subrange(0, i as int).push(f));
            proof {
                food.subrange(0, i as int).lemma_filter_push(f, elsewhere(head));
            }
            if f == head {
                eaten = eaten + 1;
            } else {
                kept.push(f);
            }
            i = i + 1;
        }
        assert(food.subrange(0, food.len() as int) =~= food);
        assert((eaten > 0) == food.contains(head)) by {
            if eaten > 0 {
                let j = choose|j: int| 0 <= j < food.len() && food[j] == head;
                assert(food[j] == head);
            }
        }
        self.food = kept;
        eaten
    }

    /// Grows the snake by one segment placed in the cell the tail left on
    /// the last move, when `grow` is set; otherwise changes nothing.
    pub fn growth(&mut self, grow: bool)
        requires
            grow ==> old(self).last_tail_position.is_some(),
        ensures
            final(self).segments@ == if grow {
                old(self).segments@.push(old(self).last_tail_position.unwrap())
            } else {
                old(self).segments@
            },
            final(self).head == old(self).head,
            final(self).food == old(self).food,
            final(self).last_tail_position == old(self).last_tail_position,
    {
        if grow {
            match self.last_tail_position {
                Some(p) => self.segments.push(p),
                None => {},
            }
        }
    }

    /// Ends the round when `signal` is set: all food goes and the starting
    /// snake is placed again. Otherwise changes nothing.
    pub fn game_over(&mut self, signal: bool)
        ensures
            signal ==> final(self).is_start() && final(self).food@.len() == 0,
            !signal ==> *final(self) == *old(self),
            final(self).last_tail_position == old(self).last_tail_position,
    {
        if signal {
            self.food = Vec::new();
            self.spawn_snake();
        }
    }

    /// One simulation tick: move, then either reset the board when the move
    /// ended the round, or eat and grow.
    pub fn tick(&mut self) -> (ev: TickEvents)
        requires
            old(self).wf(),
        ensures
            final(self).wf(),
            ({
                let dir = committed(old(self).head);
                let new_head = moved(old(self).segments@[0], dir);
                let moved_chain = shifted(old(self).segments@, new_head);
                &&& ev.game_over == collides(old(self).segments@, new_head)
                &&& final(self).last_tail_position == Some(old(self).segments@.last())
                &&& ev.game_over ==> final(self).is_start() && final(self).food@.len() == 0
                    && !ev.grew
                &&& !ev.game_over ==> {
                    &&& final(self).head.direction == dir
                    &&& final(self).head.last_input == old(self).head.last_input
                    &&& ev.grew == old(self).food@.contains(new_head)
                    &&& final(self).food@ == uneaten(old(self).food@, new_head)
                    &&& final(self).segments@ == if ev.grew {
                        moved_chain.push(old(self).segments@.last())
                    } else {
                        moved_chain
                    }
                }
            }),
    {
        let game_over = self.movement();
        if game_over {
            self.game_over(true);
            return TickEvents { game_over: true, grew: false };
        }
        let ghost moved_chain = self.segments@;
        assert(forall|i: int| 1 <= i < moved_chain.len() ==> moved_chain[i] == old(self).segments@[i - 1]);
        let eaten = self.eating();
        let grew = eaten > 0;
        self.growth(grew);
        TickEvents { game_over: false, grew }
    }
}

} // verus!
