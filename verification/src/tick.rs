//! The per-tick simulation step: collision detection over the whole body
//! and the commit of its verdict — move, grow, or end the game.

use vstd::prelude::*;

use std::collections::VecDeque;

use crate::food::Food;
use crate::geometry::Position;
use crate::geometry::Size;
use crate::geometry::at_wall;
use crate::geometry::interior;
use crate::geometry::stepped;
use crate::geometry::steps_to;
use crate::snake::Snake;

verus! {

/// The outcome of one simulation step.
#[derive(Clone, Copy, PartialEq, Eq, Structural, Debug)]
pub enum TickResult {
    Continue,
    Grow,
    GameOver,
}

/// Some segment of the body lies on the lethal border ring.
pub open spec fn hits_wall(body: Seq<Position>, size: Size) -> bool {
    exists|i: int| 0 <= i < body.len() && at_wall(body[i], size)
}

/// Some segment of the body lies on the food cell.
pub open spec fn hits_food(body: Seq<Position>, food: Position) -> bool {
    exists|i: int| 0 <= i < body.len() && body[i] == food
}

/// The collision verdict for a body: touching the border anywhere, by any
/// segment, is lethal and takes precedence; otherwise occupying the food
/// cell grows the snake; otherwise play continues. There is no
/// self-collision rule: the snake may overlap itself without penalty.
pub open spec fn spec_detect(body: Seq<Position>, food: Position, size: Size) -> TickResult {
    if hits_wall(body, size) {
        TickResult::GameOver
    } else if hits_food(body, food) {
        TickResult::Grow
    } else {
        TickResult::Continue
    }
}

/// Scan the whole body once against the border ring and the food cell.
pub fn detect(body: &VecDeque<Position>, food: Position, size: &Size) -> (r: TickResult)
    ensures
        r == spec_detect(body@, food, *size),
{
    let n: usize = body.len();
    let mut found_food = false;
    let mut i: usize = 0;
    while i < n
        invariant
            i <= n,
            n == body@.len(),
            forall|j: int| 0 <= j < i ==> !at_wall(body@[j], *size),
            found_food <==> exists|j: int| 0 <= j < i && body@[j] == food,
        decreases n - i,
    {
        let p: Position = body[i];
        if p.x == 0 || p.y == 0 || (p.x as u32) + 1 == size.width as u32 || (p.y as u32) + 1
            == size.height as u32 {
            return TickResult::GameOver;
        }
        if p.x == food.x && p.y == food.y {
            found_food = true;
        }
        i = i + 1;
    }
    if found_food {
        TickResult::Grow
    } else {
        TickResult::Continue
    }
}

/// Wall detection law: a body with any segment on the border ring gets the
/// game-over verdict, whatever the food cell.
pub proof fn lemma_wall_detection(body: Seq<Position>, food: Position, size: Size)
    requires
        exists|i: int| 0 <= i < body.len() && at_wall(body[i], size),
    ensures
        spec_detect(body, food, size) == TickResult::GameOver,
{
}

/// One simulation step, run once per elapsed cadence after input has been
/// fed to the snake. The candidate body — the old body plus the new head
/// cell one step ahead in the current heading — is evaluated against wall
/// and food; only then is the verdict committed: on Continue the tail is
/// dropped, on Grow the tail is kept, one food item is counted and the food
/// relocated, and on GameOver the moved body is left for the host to act on.
pub fn tick(snake: &mut Snake, food: &mut Food, size: &Size) -> (r: TickResult)
    requires
        old(snake).body@.len() >= 1,
        interior(old(snake).head(), *size),
        size.width > 10,
        size.height > 10,
        old(snake).food_count < u128::MAX,
    ensures
        r == spec_detect(
            old(snake).body@.push(stepped(old(snake).head(), old(snake).move_dir)),
            old(food).position,
            *size,
        ),
        steps_to(old(snake).head(), old(snake).move_dir, final(snake).body@.last()),
        final(snake).move_dir == old(snake).move_dir,
        final(snake).glyph == old(snake).glyph,
        r == TickResult::Continue ==> {
            &&& final(snake).body@ == old(snake).body@.push(
                stepped(old(snake).head(), old(snake).move_dir),
            ).drop_first()
            &&& final(snake).body@.len() == old(snake).body@.len()
            &&& final(snake).food_count == old(snake).food_count
            &&& *final(food) == *old(food)
        },
        r == TickResult::Grow ==> {
            &&& final(snake).body@ == old(snake).body@.push(
                stepped(old(snake).head(), old(snake).move_dir),
            )
            &&& final(snake).body@.len() == old(snake).body@.len() + 1
            &&& final(snake).food_count == old(snake).food_count + 1
            &&& 5 <= final(food).position.x < size.width - 5
            &&& 5 <= final(food).position.y < size.height - 5
            &&& final(food).active
            &&& final(food).glyph == old(food).glyph
        },
        r == TickResult::GameOver ==> {
            &&& final(snake).body@ == old(snake).body@.push(
                stepped(old(snake).head(), old(snake).move_dir),
            ).drop_first()
            &&& final(snake).body@.len() == old(snake).body@.len()
            &&& final(snake).food_count == old(snake).food_count
            &&& *final(food) == *old(food)
        },
{
    let new_head: Position = snake.next_head();
    let mut candidate: VecDeque<Position> = snake.get_body();
    candidate.push_back(new_head);
    let r: TickResult = detect(&candidate, food.position, size);
    match r {
        TickResult::Grow => {
            snake.increase_segment();
            food.relocate(size);
        },
        _ => {
            snake.movement_update();
        },
    }
    r
}

} // verus!
