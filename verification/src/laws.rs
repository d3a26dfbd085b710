//! The engine's laws, proved once and for all over the model in `game`.

use vstd::prelude::*;

use crate::board::Tile;
use crate::board::other;
use crate::board::row_complete;
use crate::board::col_complete;
use crate::board::line_complete;
use crate::board::wins;
use crate::board::board_complete;
use crate::game::State;
use crate::game::init_state;
use crate::game::marked_grid;
use crate::game::spec_play;

verus! {

/// The mark that moves on a given turn when alternation is never broken:
/// `X` on even turns, `O` on odd ones.
pub open spec fn player_for_turn(turn: nat) -> Tile {
    if turn % 2 == 0 {
        Tile::X
    } else {
        Tile::O
    }
}

/// A sequence of flat indices, each on the grid.
pub open spec fn moves_in_range(moves: Seq<int>) -> bool {
    forall|k: int| 0 <= k < moves.len() ==> 0 <= #[trigger] moves[k] < 9
}

/// The state after playing every move of `moves` in order, starting from `s`.
pub open spec fn play_all(s: State, moves: Seq<int>) -> State
    decreases moves.len(),
{
    if moves.len() == 0 {
        s
    } else {
        play_all(spec_play(s, moves[0]), moves.subrange(1, moves.len() as int))
    }
}

/// No move of `moves`, played in order from `s`, ends the game.
pub open spec fn never_over(s: State, moves: Seq<int>) -> bool
    decreases moves.len(),
{
    moves.len() == 0 || {
        &&& !spec_play(s, moves[0]).over
        &&& never_over(spec_play(s, moves[0]), moves.subrange(1, moves.len() as int))
    }
}

/// No move of `moves`, played in order from `s`, completes a line.
pub open spec fn never_completes(s: State, moves: Seq<int>) -> bool
    decreases moves.len(),
{
    moves.len() == 0 || {
        &&& !board_complete(spec_play(s, moves[0]).grid)
        &&& never_completes(spec_play(s, moves[0]), moves.subrange(1, moves.len() as int))
    }
}

/// The starting state is valid: in particular, no line of the empty grid is
/// complete, and the first player to move is `X`.
pub proof fn lemma_init_state()
    ensures
        init_state().valid(),
        init_state().player == Tile::X,
        init_state().turn == 0,
        !init_state().over,
{
    let g = init_state().grid;
    assert forall|r: int| 0 <= r < 3 implies !row_complete(g, r, Tile::X) by {
        assert(g[3 * r] == Tile::Empty);
    }
    assert forall|r: int| 0 <= r < 3 implies !row_complete(g, r, Tile::O) by {
        assert(g[3 * r] == Tile::Empty);
    }
    assert(!wins(g, Tile::X));
    assert(!wins(g, Tile::O));
}

/// A move on a live, valid game yields a valid game, one turn later.
pub proof fn lemma_play_preserves_valid(s: State, index: int)
    requires
        s.valid(),
        !s.over,
        0 <= index < 9,
    ensures
        spec_play(s, index).valid(),
        spec_play(s, index).turn == s.turn + 1,
{
}

/// Idempotent occupied-cell moves: a move aimed at an occupied cell leaves
/// the whole grid unchanged, yet still burns the turn and re-evaluates the
/// outcome on that unchanged grid — on a live game this ends it exactly
/// when the burnt turn is the ninth.
pub proof fn lemma_occupied_cell_move(s: State, index: int)
    requires
        s.valid(),
        !s.over,
        0 <= index < 9,
        s.grid[index] != Tile::Empty,
    ensures
        spec_play(s, index).grid == s.grid,
        spec_play(s, index).turn == s.turn + 1,
        spec_play(s, index).over == (s.turn + 1 == 9),
        spec_play(s, index).winner == s.winner,
{
}

/// One step of turn alternation: a move that does not end the game hands
/// the turn to the other player, keeping the even-turns-`X`, odd-turns-`O`
/// rhythm.
pub proof fn lemma_turn_alternation_step(s: State, index: int)
    requires
        s.valid(),
        !s.over,
        0 <= index < 9,
        s.player == player_for_turn(s.turn),
        !spec_play(s, index).over,
    ensures
        spec_play(s, index).player == other(s.player),
        spec_play(s, index).player == player_for_turn(spec_play(s, index).turn),
{
}

/// Turn alternation along a whole run: as long as no move ends the game,
/// the active player strictly alternates with the turn count.
pub proof fn lemma_turn_alternation(s: State, moves: Seq<int>)
    requires
        s.valid(),
        !s.over,
        s.player == player_for_turn(s.turn),
        moves_in_range(moves),
        never_over(s, moves),
    ensures
        play_all(s, moves).turn == s.turn + moves.len(),
        play_all(s, moves).player == player_for_turn(s.turn + moves.len()),
        !play_all(s, moves).over,
        play_all(s, moves).valid(),
    decreases moves.len(),
{
    if moves.len() > 0 {
        let s1 = spec_play(s, moves[0]);
        lemma_play_preserves_valid(s, moves[0]);
        lemma_turn_alternation_step(s, moves[0]);
        lemma_turn_alternation(s1, moves.subrange(1, moves.len() as int));
    }
}

/// Turn alternation from the start: after any run of in-range moves none of
/// which ends the game, the turn count equals the number of moves played and
/// the player to move is `X` after an even number of them, `O` after an odd
/// one — `X`, then `O`, then `X`, from the first move on.
pub proof fn lemma_turn_alternation_from_start(moves: Seq<int>)
    requires
        moves_in_range(moves),
        never_over(init_state(), moves),
    ensures
        play_all(init_state(), moves).turn == moves.len(),
        play_all(init_state(), moves).player == player_for_turn(moves.len()),
{
    lemma_init_state();
    lemma_turn_alternation(init_state(), moves);
}

/// Win detection symmetry: whichever of the eight lines the move fills
/// entirely with the mover's mark, and whatever the cells outside that line
/// hold, the move crowns the mover and ends the game on the spot.
pub proof fn lemma_win_detection(s: State, index: int, line: int)
    requires
        s.valid(),
        !s.over,
        0 <= index < 9,
        0 <= line < 8,
        line_complete(marked_grid(s, index), line, s.player),
    ensures
        spec_play(s, index).winner == s.player,
        spec_play(s, index).over,
{
    let g = marked_grid(s, index);
    if 0 <= line < 3 {
        assert(row_complete(g, line, s.player));
        assert(wins(g, s.player));
    } else if 3 <= line < 6 {
        assert(col_complete(g, line - 3, s.player));
        assert(wins(g, s.player));
    }
    assert(board_complete(g));
}

/// One step of tie exactness: a move that completes no line ends the game
/// exactly when it is the ninth, and names no winner.
pub proof fn lemma_tie_exactness_step(s: State, index: int)
    requires
        s.valid(),
        !s.over,
        0 <= index < 9,
        !board_complete(marked_grid(s, index)),
    ensures
        spec_play(s, index).over <==> s.turn + 1 == 9,
        spec_play(s, index).winner == Tile::Empty,
        spec_play(s, index).turn == s.turn + 1,
{
}

/// Tie exactness along a whole run: if no move of the run completes a line,
/// the game is over exactly when the turn count has reached nine, and the
/// winner is whatever it was at the start.
pub proof fn lemma_tie_exactness(s: State, moves: Seq<int>)
    requires
        s.valid(),
        !s.over,
        s.turn + moves.len() <= 9,
        moves_in_range(moves),
        never_completes(s, moves),
    ensures
        play_all(s, moves).over <==> s.turn + moves.len() == 9,
        play_all(s, moves).winner == s.winner,
        play_all(s, moves).turn == s.turn + moves.len(),
    decreases moves.len(),
{
    if moves.len() > 0 {
        let rest = moves.subrange(1, moves.len() as int);
        let s1 = spec_play(s, moves[0]);
        lemma_play_preserves_valid(s, moves[0]);
        lemma_tie_exactness_step(s, moves[0]);
        assert(play_all(s, moves) == play_all(s1, rest));
        if moves.len() == 1 {
            assert(rest.len() == 0);
        } else {
            lemma_tie_exactness(s1, rest);
        }
    }
}

/// Tie exactness from the start: if no line is ever completed, `over`
/// becomes true exactly when the turn count reaches nine, with the winner
/// remaining `Empty`.
pub proof fn lemma_tie_exactness_from_start(moves: Seq<int>)
    requires
        moves.len() <= 9,
        moves_in_range(moves),
        never_completes(init_state(), moves),
    ensures
        play_all(init_state(), moves).over <==> moves.len() == 9,
        play_all(init_state(), moves).winner == Tile::Empty,
        play_all(init_state(), moves).turn == moves.len(),
{
    lemma_init_state();
    lemma_tie_exactness(init_state(), moves);
}

} // verus!
