//! The state of one game and the updates that make up a tick.
//!
//! A [`Game`] owns the snake, the food and the cell that the tail left at the
//! latest move. Each update is a method with an exact contract over the
//! game's view, a [`GameView`]; [`Game::tick`] applies them in the order that
//! the rules ask for.

use vstd::prelude::*;
use crate::food::{cell_from_samples, random_sample};
use crate::grid::{all_in_arena, Direction, Position};
use crate::input::ArrowKeys;

verus! {

/// The cell where the head of a fresh snake lies.
pub open spec fn spec_start_head() -> Position {
    Position { x: 3, y: 3 }
}

/// The cell where the head of a fresh snake lies.
#[verifier::when_used_as_spec(spec_start_head)]
pub fn start_head() -> (cell: Position)
    ensures
        cell == spec_start_head(),
{
    Position { x: 3, y: 3 }
}

/// The cell of the one segment that follows the head of a fresh snake.
pub open spec fn spec_start_tail() -> Position {
    Position { x: 2, y: 3 }
}

/// The cell of the one segment that follows the head of a fresh snake.
#[verifier::when_used_as_spec(spec_start_tail)]
pub fn start_tail() -> (cell: Position)
    ensures
        cell == spec_start_tail(),
{
    Position { x: 2, y: 3 }
}

/// The predicate that holds of every cell but `cell`.
pub open spec fn off_cell(cell: Position) -> spec_fn(Position) -> bool {
    |other: Position| other != cell
}

/// What a game holds, as plain mathematical values.
pub struct GameView {
    /// The direction in which the head travels at the next move.
    pub direction: Direction,
    /// The cells of the snake's segments, head first and tail last.
    pub segments: Seq<Position>,
    /// The cell that the tail held before the latest move.
    pub last_tail_position: Position,
    /// The cells of the food on the arena, oldest first. Two pieces of food
    /// may share a cell, and food may lie under the snake.
    pub food: Seq<Position>,
}

impl GameView {
    /// A game in order: the snake has a head and at least one more segment,
    /// and every cell that the game holds lies on the arena.
    pub open spec fn wf(self) -> bool {
        &&& self.segments.len() >= 2
        &&& all_in_arena(self.segments)
        &&& all_in_arena(self.food)
        &&& self.last_tail_position.in_arena()
    }

    /// The cell of the head.
    pub open spec fn head(self) -> Position {
        self.segments[0]
    }

    /// The cell that the head enters at the next move.
    pub open spec fn next_head(self) -> Position {
        self.head().step(self.direction)
    }

    /// A game as it starts: a fresh snake, no food, and the corner cell as the
    /// cell that the tail left.
    pub open spec fn initial() -> GameView {
        GameView {
            direction: Direction::Right,
            segments: seq![start_head(), start_tail()],
            last_tail_position: Position { x: 0, y: 0 },
            food: Seq::empty(),
        }
    }

    /// The game with a fresh snake in place of the one it had: a head and one
    /// segment behind it, travelling right.
    pub open spec fn respawned(self) -> GameView {
        GameView {
            direction: Direction::Right,
            segments: seq![start_head(), start_tail()],
            ..self
        }
    }

    /// The game with one more piece of food, on `cell`.
    pub open spec fn with_food(self, cell: Position) -> GameView {
        GameView { food: self.food.push(cell), ..self }
    }

    /// The game after the arrow keys were read: the direction that the keys
    /// ask for is adopted unless it points straight back.
    pub open spec fn steered(self, keys: ArrowKeys) -> GameView {
        GameView { direction: self.direction.adopt(keys.candidate(self.direction)), ..self }
    }

    /// Whether the next move runs the head into the snake: the cell that the
    /// head enters is held by some segment before the move. The tail's cell
    /// counts, though the tail leaves it in the same move.
    pub open spec fn collides(self) -> bool {
        self.segments.contains(self.next_head())
    }

    /// The game after one move. The head steps in the direction of travel,
    /// every other segment takes the cell that the segment ahead of it held,
    /// and the cell that the tail held is remembered.
    pub open spec fn moved(self) -> GameView {
        GameView {
            segments: seq![self.next_head()] + self.segments.drop_last(),
            last_tail_position: self.segments.last(),
            ..self
        }
    }

    /// The game after the snake has eaten: all food on the head's cell is
    /// gone, the rest stays in its order.
    pub open spec fn fed(self) -> GameView {
        GameView { food: self.food.filter(off_cell(self.head())), ..self }
    }

    /// How many pieces of food lie on the head's cell.
    pub open spec fn eaten(self) -> nat {
        (self.food.len() - self.fed().food.len()) as nat
    }

    /// The game after `signals` growth signals: one new segment for each, at
    /// the tail end, on the cell that the tail left at the latest move.
    pub open spec fn grown(self, signals: nat) -> GameView {
        GameView {
            segments: self.segments + Seq::new(signals, |i: int| self.last_tail_position),
            ..self
        }
    }

    /// The game after a game over: no food, and a fresh snake.
    pub open spec fn reset(self) -> GameView {
        GameView { food: Seq::empty(), ..self.respawned() }
    }

    /// The game after one tick: the move, then the meal, then one new segment
    /// for each piece of food eaten, then the reset if the move was a
    /// collision.
    pub open spec fn ticked(self) -> GameView {
        let grown = self.moved().fed().grown(self.moved().eaten());
        if self.collides() {
            grown.reset()
        } else {
            grown
        }
    }
}

/// One game: the snake, the food, and the cell that the tail left at the
/// latest move. Every value of this type is in order, in the sense of
/// [`GameView::wf`].
pub struct Game {
    direction: Direction,
    segments: Vec<Position>,
    last_tail_position: Position,
    food: Vec<Position>,
}

impl View for Game {
    type V = GameView;

    closed spec fn view(&self) -> GameView {
        GameView {
            direction: self.direction,
            segments: self.segments@,
            last_tail_position: self.last_tail_position,
            food: self.food@,
        }
    }
}

impl Game {
    #[verifier::type_invariant]
    spec fn inv(&self) -> bool {
        self@.wf()
    }

    /// A game as it starts: a fresh snake travelling right, and no food.
    pub fn new() -> (game: Game)
        ensures
            game@ == GameView::initial(),
            game@.wf(),
    {
        Game {
            direction: Direction::Right,
            segments: fresh_snake(),
            last_tail_position: Position::default(),
            food: Vec::new(),
        }
    }

    /// The game that holds the given parts, if they make up a game in order:
    /// at least two segments, and every cell on the arena. `None` otherwise.
    pub fn from_parts(
        direction: Direction,
        segments: Vec<Position>,
        last_tail_position: Position,
        food: Vec<Position>,
    ) -> (game: Option<Game>)
        ensures
            game is Some <==> (GameView {
                direction,
                segments: segments@,
                last_tail_position,
                food: food@,
            }).wf(),
            game matches Some(g) ==> g@ == (GameView {
                direction,
                segments: segments@,
                last_tail_position,
                food: food@,
            }),
    {
        if segments.len() >= 2 && cells_in_arena(&segments) && cells_in_arena(&food)
            && last_tail_position.in_arena() {
            Some(Game { direction, segments, last_tail_position, food })
        } else {
            None
        }
    }

    /// The direction in which the head travels at the next move.
    pub fn direction(&self) -> (direction: Direction)
        ensures
            direction == self@.direction,
    {
        self.direction
    }

    /// The cell of the head. It lies on the arena.
    pub fn head_position(&self) -> (head: Position)
        ensures
            head == self@.head(),
            head.in_arena(),
    {
        proof {
            use_type_invariant(self);
        }
        self.segments[0]
    }

    /// The cells of the segments, head first and tail last.
    pub fn segments(&self) -> (segments: &Vec<Position>)
        ensures
            segments@ == self@.segments,
            self@.wf(),
    {
        proof {
            use_type_invariant(self);
        }
        &self.segments
    }

    /// The cell that the tail held before the latest move.
    pub fn last_tail_position(&self) -> (cell: Position)
        ensures
            cell == self@.last_tail_position,
            cell.in_arena(),
    {
        proof {
            use_type_invariant(self);
        }
        self.last_tail_position
    }

    /// The cells of the food, oldest first.
    pub fn food(&self) -> (food: &Vec<Position>)
        ensures
            food@ == self@.food,
            self@.wf(),
    {
        proof {
            use_type_invariant(self);
        }
        &self.food
    }

    /// Moves the head one cell in the direction of travel, with wraparound,
    /// lets every other segment follow the one ahead of it, and remembers the
    /// cell that the tail left. Returns the game-over signal: `true` if and
    /// only if the cell that the head entered was held by a segment before
    /// the move.
    pub fn snake_movement(&mut self) -> (game_over: bool)
        ensures
            final(self)@ == old(self)@.moved(),
            game_over == old(self)@.collides(),
            final(self)@.wf(),
            final(self)@.head() == old(self)@.head().step(old(self)@.direction),
            final(self)@.head().in_arena(),
            final(self)@.segments.len() == old(self)@.segments.len(),
            forall|i: int|
                1 <= i < old(self)@.segments.len() ==> #[trigger] final(self)@.segments[i] == old(
                    self,
                )@.segments[i - 1],
            final(self)@.last_tail_position == old(self)@.segments.last(),
    {
        proof {
            use_type_invariant(&*self);
        }
        let count: usize = self.segments.len();
        let new_head: Position = self.segments[0].step(self.direction);
        let game_over: bool = contains_cell(&self.segments, new_head);
        let mut shifted: Vec<Position> = Vec::new();
        shifted.push(new_head);
        let mut i: usize = 1;
        while i < count
            invariant
                count == self.segments.len(),
                1 <= i <= count,
                self@ == old(self)@,
                shifted.len() == i,
                forall|k: int| 0 <= k < i ==> #[trigger] shifted[k] == old(self)@.moved().segments[k],
            decreases count - i,
        {
            shifted.push(self.segments[i - 1]);
            i += 1;
        }
        assert(shifted@ =~= old(self)@.moved().segments);
        self.last_tail_position = self.segments[count - 1];
        self.segments = shifted;
        game_over
    }

    /// Puts a fresh snake in place of the one the game had: a head on its
    /// starting cell, one segment behind it, travelling right. Food and the
    /// remembered tail cell stay.
    pub fn spawn_snake(&mut self)
        ensures
            final(self)@ == old(self)@.respawned(),
            final(self)@.wf(),
            final(self)@.segments.len() == 2,
    {
        proof {
            use_type_invariant(&*self);
        }
        self.direction = Direction::Right;
        self.segments = fresh_snake();
    }

    /// Reads the arrow keys and stages the direction of the next move. The
    /// direction that the keys ask for is turned down if and only if it is
    /// the opposite of the current one. Nothing else changes.
    pub fn snake_movement_input(&mut self, keys: ArrowKeys)
        ensures
            final(self)@ == old(self)@.steered(keys),
            final(self)@.wf(),
            final(self)@.direction != old(self)@.direction.opposite(),
            final(self)@.direction != keys.candidate(old(self)@.direction)
                <==> keys.candidate(old(self)@.direction) == old(self)@.direction.opposite(),
    {
        proof {
            use_type_invariant(&*self);
        }
        let candidate: Direction = keys.candidate(self.direction);
        self.direction = self.direction.adopt(candidate);
    }

    /// Places one piece of food on a random cell of the arena. The cell is
    /// [`cell_from_samples`] of two samples drawn for the purpose; food that
    /// is there already, and the snake, are not looked at.
    pub fn food_spawner(&mut self)
        ensures
            exists|sample_x: u32, sample_y: u32|
                final(self)@ == old(self)@.with_food(#[trigger] cell_from_samples(sample_x, sample_y)),
            final(self)@.wf(),
            final(self)@.food.len() == old(self)@.food.len() + 1,
            final(self)@.food.last().in_arena(),
            final(self)@.food.drop_last() == old(self)@.food,
    {
        let sample_x: u32 = random_sample();
        let sample_y: u32 = random_sample();
        self.spawn_food(sample_x, sample_y);
        assert(self@.food.drop_last() =~= old(self)@.food);
    }

    /// Places one piece of food on the cell that the two samples select.
    pub fn spawn_food(&mut self, sample_x: u32, sample_y: u32)
        ensures
            final(self)@ == old(self)@.with_food(cell_from_samples(sample_x, sample_y)),
            final(self)@.wf(),
    {
        proof {
            use_type_invariant(&*self);
        }
        let cell: Position = cell_from_samples(sample_x, sample_y);
        let mut food: Vec<Position> = Vec::new();
        std::mem::swap(&mut food, &mut self.food);
        food.push(cell);
        self.food = food;
    }

    /// Lets the snake eat: every piece of food on the head's cell is taken
    /// off the arena, and one growth signal is emitted for each. Returns the
    /// number of growth signals.
    pub fn snake_eating(&mut self) -> (growth_signals: usize)
        ensures
            final(self)@ == old(self)@.fed(),
            growth_signals == old(self)@.eaten(),
            final(self)@.wf(),
            !final(self)@.food.contains(old(self)@.head()),
            final(self)@.food.len() + growth_signals == old(self)@.food.len(),
    {
        proof {
            use_type_invariant(&*self);
        }
        let head: Position = self.segments[0];
        let mut stock: Vec<Position> = Vec::new();
        std::mem::swap(&mut stock, &mut self.food);
        let mut kept: Vec<Position> = Vec::new();
        let mut eaten: usize = 0;
        let mut i: usize = 0;
        while i < stock.len()
            invariant
                0 <= i <= stock.len(),
                stock@ == old(self)@.food,
                forall|k: int| 0 <= k < stock.len() ==> (#[trigger] stock[k]).in_arena(),
                kept@ == stock@.take(i as int).filter(off_cell(head)),
                eaten + kept.len() == i,
                forall|k: int| 0 <= k < kept.len() ==> (#[trigger] kept[k]).in_arena(),
                forall|k: int| 0 <= k < kept.len() ==> #[trigger] kept[k] != head,
            decreases stock.len() - i,
        {
            let cell: Position = stock[i];
            proof {
                assert(stock@.take(i + 1) =~= stock@.take(i as int).push(cell));
                stock@.take(i as int).lemma_filter_push(cell, off_cell(head));
            }
            if cell == head {
                eaten += 1;
            } else {
                kept.push(cell);
            }
            i += 1;
        }
        assert(stock@.take(i as int) =~= stock@);
        self.food = kept;
        eaten
    }

    /// Answers the growth signals of a tick: for each signal one new segment
    /// joins the snake at the tail end, on the cell that the tail left at the
    /// latest move.
    pub fn snake_growth(&mut self, growth_signals: usize)
        ensures
            final(self)@ == old(self)@.grown(growth_signals as nat),
            final(self)@.wf(),
            final(self)@.segments.len() == old(self)@.segments.len() + growth_signals,
            forall|i: int|
                0 <= i < old(self)@.segments.len() ==> #[trigger] final(self)@.segments[i] == old(
                    self,
                )@.segments[i],
            forall|i: int|
                old(self)@.segments.len() <= i < final(self)@.segments.len()
                    ==> #[trigger] final(self)@.segments[i] == old(self)@.last_tail_position,
    {
        proof {
            use_type_invariant(&*self);
        }
        // A fresh snake stands in while the segments are out of the game.
        let mut segments: Vec<Position> = fresh_snake();
        std::mem::swap(&mut segments, &mut self.segments);
        assert(segments@ =~= old(self)@.grown(0).segments);
        let mut answered: usize = 0;
        while answered < growth_signals
            invariant
                0 <= answered <= growth_signals,
                segments@ == old(self)@.grown(answered as nat).segments,
                self.last_tail_position == old(self)@.last_tail_position,
            decreases growth_signals - answered,
        {
            spawn_segment(&mut segments, self.last_tail_position);
            answered += 1;
            assert(segments@ =~= old(self)@.grown(answered as nat).segments);
        }
        self.segments = segments;
    }

    /// Answers the game-over signal of a tick. With the signal all food is
    /// taken off the arena and a fresh snake takes the place of the old one;
    /// without it nothing changes.
    pub fn game_over(&mut self, game_over_signal: bool)
        ensures
            game_over_signal ==> final(self)@ == old(self)@.reset(),
            !game_over_signal ==> final(self)@ == old(self)@,
            final(self)@.wf(),
            game_over_signal ==> final(self)@.segments.len() == 2 && final(self)@.food.len() == 0,
    {
        proof {
            use_type_invariant(&*self);
        }
        if game_over_signal {
            self.food = Vec::new();
            self.spawn_snake();
        }
    }

    /// Runs one tick: the move, then the meal, then the growth, then the
    /// answer to a game over, each on the state that the one before left.
    /// Returns whether the move was a collision.
    pub fn tick(&mut self) -> (game_over: bool)
        ensures
            final(self)@ == old(self)@.ticked(),
            game_over == old(self)@.collides(),
            final(self)@.wf(),
    {
        let game_over: bool = self.snake_movement();
        let growth_signals: usize = self.snake_eating();
        self.snake_growth(growth_signals);
        self.game_over(game_over);
        game_over
    }
}

/// The segments of a fresh snake: the head on its starting cell and one
/// segment behind it.
fn fresh_snake() -> (segments: Vec<Position>)
    ensures
        segments@ == seq![start_head(), start_tail()],
{
    let mut segments: Vec<Position> = Vec::new();
    segments.push(start_head());
    spawn_segment(&mut segments, start_tail());
    assert(segments@ =~= seq![start_head(), start_tail()]);
    segments
}

/// Adds one segment on `position` at the tail end of `segments`.
fn spawn_segment(segments: &mut Vec<Position>, position: Position)
    ensures
        final(segments)@ == old(segments)@.push(position),
{
    segments.push(position);
}

/// Whether every one of `cells` lies on the arena.
fn cells_in_arena(cells: &Vec<Position>) -> (all: bool)
    ensures
        all == all_in_arena(cells@),
{
    let mut i: usize = 0;
    while i < cells.len()
        invariant
            0 <= i <= cells.len(),
            forall|k: int| 0 <= k < i ==> (#[trigger] cells@[k]).in_arena(),
        decreases cells.len() - i,
    {
        if !cells[i].in_arena() {
            return false;
        }
        i += 1;
    }
    true
}

/// Whether `cell` is one of `cells`.
fn contains_cell(cells: &Vec<Position>, cell: Position) -> (found: bool)
    ensures
        found == cells@.contains(cell),
{
    let mut i: usize = 0;
    while i < cells.len()
        invariant
            0 <= i <= cells.len(),
            forall|k: int| 0 <= k < i ==> cells[k] != cell,
        decreases cells.len() - i,
    {
        if cells[i] == cell {
            return true;
        }
        i += 1;
    }
    false
}

} // verus!
