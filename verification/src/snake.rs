//! The snake: an ordered body of grid cells, oldest-tail-first and
//! newest-head-last, together with its heading and the count of food eaten.

use vstd::prelude::*;

use std::collections::VecDeque;

use crate::geometry::Direction;
use crate::geometry::Position;
use crate::geometry::stepped;
use crate::geometry::steps_to;

verus! {

/// A key event after decoding, as the simulation core understands it. Keys
/// outside this set are handed in as `Other` and ignored.
#[derive(Clone, Copy, PartialEq, Eq, Structural, Debug)]
pub enum KeyPress {
    Up,
    Down,
    Left,
    Right,
    Quit,
    Other,
}

/// The heading a key asks for, if it asks for one.
pub open spec fn requested_direction(key: KeyPress) -> Option<Direction> {
    match key {
        KeyPress::Up => Some(Direction::Up),
        KeyPress::Down => Some(Direction::Down),
        KeyPress::Left => Some(Direction::Left),
        KeyPress::Right => Some(Direction::Right),
        KeyPress::Quit => None,
        KeyPress::Other => None,
    }
}

/// The heading after one key: the requested one, unless the request is the
/// exact opposite of the current heading, which is silently ignored. This is
/// the sole defense against instant self-collision by in-place reversal.
pub open spec fn next_direction(current: Direction, key: KeyPress) -> Direction {
    match requested_direction(key) {
        Some(d) => if d == current.opposite() {
            current
        } else {
            d
        },
        None => current,
    }
}

/// The snake. The body sequence's last cell is the head (the end the
/// simulation appends to); its first cell is the tail.
pub struct Snake {
    pub glyph: char,
    pub body: VecDeque<Position>,
    pub move_dir: Direction,
    pub food_count: u128,
}

impl Snake {
    /// The head cell: the most recently appended end of the body.
    pub open spec fn head(&self) -> Position
        recommends
            self.body@.len() >= 1,
    {
        self.body@.last()
    }

    /// One step ahead of the head stays within the coordinate type.
    pub open spec fn can_step(&self) -> bool {
        match self.move_dir {
            Direction::Up => self.head().y >= 1,
            Direction::Down => self.head().y < u16::MAX,
            Direction::Left => self.head().x >= 1,
            Direction::Right => self.head().x < u16::MAX,
        }
    }

    /// The fixed initial snake: three cells stacked above each other, the
    /// head at the bottom, heading down, nothing eaten yet.
    pub fn default() -> (s: Snake)
        ensures
            s.body@ == seq![
                Position { x: 5, y: 5 },
                Position { x: 5, y: 6 },
                Position { x: 5, y: 7 },
            ],
            s.move_dir == Direction::Down,
            s.food_count == 0,
            s.glyph == '#',
    {
        let mut body: VecDeque<Position> = VecDeque::new();
        body.push_back(Position { x: 5, y: 5 });
        body.push_back(Position { x: 5, y: 6 });
        body.push_back(Position { x: 5, y: 7 });
        proof {
            assert(body@ =~= seq![
                Position { x: 5, y: 5 },
                Position { x: 5, y: 6 },
                Position { x: 5, y: 7 },
            ]);
        }
        Snake { glyph: '#', body, move_dir: Direction::Down, food_count: 0 }
    }

    /// How many food items the snake has eaten so far.
    pub fn get_foodcount(&self) -> (count: u128)
        ensures
            count == self.food_count,
    {
        self.food_count
    }

    /// The cell one grid step ahead of the head in the current heading: the
    /// candidate new head of this tick.
    pub fn next_head(&self) -> (p: Position)
        requires
            self.body@.len() >= 1,
            self.can_step(),
        ensures
            p == stepped(self.head(), self.move_dir),
            steps_to(self.head(), self.move_dir, p),
    {
        let n: usize = self.body.len();
        let head: Position = self.body[n - 1];
        match self.move_dir {
            Direction::Up => Position { x: head.x, y: head.y - 1 },
            Direction::Down => Position { x: head.x, y: head.y + 1 },
            Direction::Left => Position { x: head.x - 1, y: head.y },
            Direction::Right => Position { x: head.x + 1, y: head.y },
        }
    }

    /// Grow one cell: append the candidate new head and keep the tail, so
    /// the body gets longer by exactly one; count one food item eaten.
    pub fn increase_segment(&mut self)
        requires
            old(self).body@.len() >= 1,
            old(self).can_step(),
            old(self).food_count < u128::MAX,
        ensures
            final(self).body@ == old(self).body@.push(
                stepped(old(self).head(), old(self).move_dir),
            ),
            final(self).body@.len() == old(self).body@.len() + 1,
            steps_to(old(self).head(), old(self).move_dir, final(self).body@.last()),
            final(self).move_dir == old(self).move_dir,
            final(self).food_count == old(self).food_count + 1,
            final(self).glyph == old(self).glyph,
    {
        let new_head: Position = self.next_head();
        self.body.push_back(new_head);
        self.food_count = self.food_count + 1;
    }

    /// Move one cell: append the candidate new head and drop the tail, so
    /// the body keeps its length.
    pub fn movement_update(&mut self)
        requires
            old(self).body@.len() >= 1,
            old(self).can_step(),
        ensures
            final(self).body@ == old(self).body@.push(
                stepped(old(self).head(), old(self).move_dir),
            ).drop_first(),
            final(self).body@.len() == old(self).body@.len(),
            steps_to(old(self).head(), old(self).move_dir, final(self).body@.last()),
            final(self).move_dir == old(self).move_dir,
            final(self).food_count == old(self).food_count,
            final(self).glyph == old(self).glyph,
    {
        let new_head: Position = self.next_head();
        self.body.push_back(new_head);
        self.body.pop_front();
    }

    /// Apply one decoded key: a direction key changes the heading unless it
    /// asks for the exact opposite; returns whether the quit key was pressed.
    pub fn process_keypress(&mut self, key: KeyPress) -> (quit: bool)
        ensures
            final(self).move_dir == next_direction(old(self).move_dir, key),
            final(self).body@ == old(self).body@,
            final(self).food_count == old(self).food_count,
            final(self).glyph == old(self).glyph,
            quit == (key == KeyPress::Quit),
    {
        match key {
            KeyPress::Quit => true,
            KeyPress::Up => {
                if self.move_dir != Direction::Down {
                    self.move_dir = Direction::Up;
                }
                false
            },
            KeyPress::Down => {
                if self.move_dir != Direction::Up {
                    self.move_dir = Direction::Down;
                }
                false
            },
            KeyPress::Left => {
                if self.move_dir != Direction::Right {
                    self.move_dir = Direction::Left;
                }
                false
            },
            KeyPress::Right => {
                if self.move_dir != Direction::Left {
                    self.move_dir = Direction::Right;
                }
                false
            },
            KeyPress::Other => false,
        }
    }

    /// A read-only snapshot of the full body, tail first and head last, for
    /// collision testing and rendering.
    pub fn get_body(&self) -> (body: VecDeque<Position>)
        ensures
            body@ == self.body@,
    {
        let n: usize = self.body.len();
        let mut body: VecDeque<Position> = VecDeque::new();
        let mut i: usize = 0;
        while i < n
            invariant
                i <= n,
                n == self.body@.len(),
                body@ == self.body@.subrange(0, i as int),
            decreases n - i,
        {
            let cell: Position = self.body[i];
            body.push_back(cell);
            proof {
                assert(body@ =~= self.body@.subrange(0, i + 1 as int));
            }
            i = i + 1;
        }
        proof {
            assert(body@ =~= self.body@);
        }
        body
    }
}

/// Reversal guard law: a request for the exact opposite of the current
/// heading leaves the heading unchanged, whatever both are.
pub proof fn lemma_reversal_guard(current: Direction, key: KeyPress)
    requires
        requested_direction(key) == Some(current.opposite()),
    ensures
        next_direction(current, key) == current,
{
}

} // verus!
