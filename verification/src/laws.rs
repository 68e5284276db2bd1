//! What holds of every game, stated over [`GameView`] and proved.

use vstd::prelude::*;
use crate::game::{off_cell, start_head, start_tail, GameView};
use crate::grid::{all_in_arena, Direction, Position};
use crate::input::ArrowKeys;

verus! {

/// A move leaves the head on the arena: from a cell of the arena the head
/// steps, with wraparound, to a cell of the arena.
pub proof fn lemma_head_stays_in_arena(game: GameView)
    requires
        game.segments.len() >= 1,
        game.head().in_arena(),
    ensures
        game.moved().head() == game.head().step(game.direction),
        game.moved().head().in_arena(),
{
}

/// A move keeps the number of segments, and every segment but the head takes
/// the cell that the segment ahead of it held before the move.
pub proof fn lemma_segments_follow(game: GameView, i: int)
    requires
        1 <= i < game.segments.len(),
    ensures
        game.moved().segments.len() == game.segments.len(),
        game.moved().segments[i] == game.segments[i - 1],
{
}

/// A move is a collision exactly if some segment holds, before the move, the
/// cell that the head enters.
pub proof fn lemma_collision_is_overlap(game: GameView)
    ensures
        game.collides() <==> exists|i: int|
            0 <= i < game.segments.len() && #[trigger] game.segments[i] == game.moved().head(),
{
    let target = game.next_head();
    if game.collides() {
        let i: int = choose|i: int| 0 <= i < game.segments.len() && game.segments[i] == target;
        assert(game.segments[i] == game.moved().head());
    }
}

/// One growth signal after a move adds exactly one segment, at the tail end,
/// on the cell that the tail held before the move.
pub proof fn lemma_growth_fills_tail_cell(game: GameView)
    requires
        game.segments.len() >= 1,
    ensures
        game.moved().grown(1).segments == game.moved().segments.push(game.segments.last()),
        game.moved().grown(1).segments.len() == game.segments.len() + 1,
        game.moved().grown(1).segments.last() == game.segments.last(),
{
    assert(game.moved().grown(1).segments =~= game.moved().segments.push(game.segments.last()));
}

/// Growth signals add up: answering them one after another is answering
/// them at once.
pub proof fn lemma_growth_adds_up(game: GameView, first: nat, second: nat)
    ensures
        game.grown(first).grown(second) == game.grown(first + second),
        game.grown(0) == game,
        game.grown(first).segments.len() == game.segments.len() + first,
{
    assert(game.grown(first).grown(second).segments =~= game.grown(first + second).segments);
    assert(game.grown(0).segments =~= game.segments);
}

/// After the meal no food lies on the head's cell, all other food is still
/// there, and the food that went is what was counted as eaten.
pub proof fn lemma_meal_clears_head_cell(game: GameView)
    ensures
        !game.fed().food.contains(game.head()),
        forall|cell: Position|
            cell != game.head() ==> (game.fed().food.contains(cell) <==> game.food.contains(cell)),
        game.fed().food.len() + game.eaten() == game.food.len(),
        game.fed().segments == game.segments,
{
    broadcast use vstd::seq_lib::group_filter_ensures;

    let keep = off_cell(game.head());
    let rest = game.food.filter(keep);
    if rest.contains(game.head()) {
        let i: int = choose|i: int| 0 <= i < rest.len() && rest[i] == game.head();
        game.food.lemma_filter_pred(keep, i);
    }
    assert forall|cell: Position| cell != game.head() implies (rest.contains(cell)
        <==> game.food.contains(cell)) by {
        if rest.contains(cell) {
            game.food.lemma_filter_contains_rev(keep, cell);
        }
        if game.food.contains(cell) {
            let i: int = choose|i: int| 0 <= i < game.food.len() && game.food[i] == cell;
            game.food.lemma_filter_contains(keep, i);
        }
    }
}

/// The growth signals of a meal count the food on the head's cell: the
/// number of pieces eaten is the number of times that the head's cell occurs
/// among the food.
pub proof fn lemma_eaten_counts_head_cell(game: GameView)
    ensures
        game.eaten() == game.food.to_multiset().count(game.head()),
        game.eaten() > 0 <==> game.food.contains(game.head()),
{
    lemma_left_and_taken(game.food, game.head());
    vstd::seq_lib::to_multiset_contains(game.food, game.head());
}

/// Of `food`, what does not lie on `cell` and what does add up to all of it.
proof fn lemma_left_and_taken(food: Seq<Position>, cell: Position)
    ensures
        food.filter(off_cell(cell)).len() + food.to_multiset().count(cell) == food.len(),
    decreases food.len(),
{
    reveal(Seq::filter);
    if food.len() == 0 {
        vstd::seq_lib::to_multiset_contains(food, cell);
    } else {
        let rest = food.drop_last();
        lemma_left_and_taken(rest, cell);
        assert(food =~= rest.push(food.last()));
        vstd::seq_lib::to_multiset_build(rest, food.last());
    }
}

/// After a game over the snake has exactly two segments, it travels right,
/// and no food is left.
pub proof fn lemma_reset_is_fresh(game: GameView)
    ensures
        game.reset().segments == seq![start_head(), start_tail()],
        game.reset().segments.len() == 2,
        game.reset().food.len() == 0,
        game.reset().direction == Direction::Right,
        game.reset().last_tail_position == game.last_tail_position,
        game.last_tail_position == (Position { x: 0, y: 0 }) ==> game.reset() == GameView::initial(),
{
}

/// Steering never turns the snake straight back, and it follows the keys in
/// every other case.
pub proof fn lemma_steering_never_reverses(game: GameView, keys: ArrowKeys)
    ensures
        game.steered(keys).direction != game.direction.opposite(),
        game.steered(keys).direction != keys.candidate(game.direction)
            <==> keys.candidate(game.direction) == game.direction.opposite(),
        game.steered(keys).segments == game.segments,
{
}

/// Every update takes a game in order to a game in order.
pub proof fn lemma_updates_keep_order(game: GameView)
    requires
        game.wf(),
    ensures
        GameView::initial().wf(),
        game.respawned().wf(),
        game.moved().wf(),
        game.fed().wf(),
        game.reset().wf(),
        forall|keys: ArrowKeys| (#[trigger] game.steered(keys)).wf(),
        forall|signals: nat| (#[trigger] game.grown(signals)).wf(),
        forall|cell: Position| cell.in_arena() ==> (#[trigger] game.with_food(cell)).wf(),
{
    assert(all_in_arena(game.moved().segments));
    let rest = game.fed().food;
    assert forall|i: int| 0 <= i < rest.len() implies (#[trigger] rest[i]).in_arena() by {
        assert(rest.contains(rest[i]));
        game.food.lemma_filter_contains_rev(off_cell(game.head()), rest[i]);
    }
    assert forall|signals: nat| (#[trigger] game.grown(signals)).wf() by {
        assert(all_in_arena(game.grown(signals).segments));
    }
}

/// A tick takes a game in order to a game in order, and remembers the cell
/// that the tail held before it. A tick whose move is a collision ends with
/// a fresh snake and no food. Any other tick ends with the head on the cell
/// it stepped to, with one more segment for each piece of food that lay
/// there, and with no food left on that cell.
pub proof fn lemma_tick(game: GameView)
    requires
        game.wf(),
    ensures
        game.ticked().wf(),
        game.ticked().last_tail_position == game.segments.last(),
        game.collides() ==> game.ticked().segments == seq![start_head(), start_tail()],
        game.collides() ==> game.ticked().food.len() == 0,
        !game.collides() ==> game.ticked().head() == game.next_head(),
        !game.collides() ==> game.ticked().segments.len() == game.segments.len()
            + game.moved().eaten(),
        !game.collides() ==> !game.ticked().food.contains(game.next_head()),
{
    let moved = game.moved();
    let fed = moved.fed();
    lemma_updates_keep_order(game);
    lemma_updates_keep_order(moved);
    lemma_updates_keep_order(fed);
    lemma_updates_keep_order(fed.grown(moved.eaten()));
    lemma_meal_clears_head_cell(moved);
}

} // verus!
