//! What holds of every box, every command and every tick.

use vstd::prelude::*;
use crate::command::{Command, State};
use crate::config::{
    BALL_RADIUS, BALL_SPEED, FIELD_HEIGHT, FIELD_WIDTH, NUM_PLAYERS, PADDLE_BONUS, PADDLE_DECAY,
    PADDLE_GAP, PADDLE_LENGTH, PADDLE_WIDTH, WINNING_LENGTH,
};
use crate::entity::Paddle;
use crate::fixed::midpoint;
use crate::game::{Game, GameView};
use crate::geometry::BoundingBox;
use crate::vector::Vec2;

verus! {

/// The sign of a number: -1, 0 or 1.
pub open spec fn sign(v: int) -> int {
    if v < 0 {
        -1
    } else if v > 0 {
        1
    } else {
        0
    }
}

/// A bounce off the field edges turns a velocity component around exactly
/// where the box has crossed an edge on that axis, also where it has crossed
/// both edges of the axis: the sign of the component is the opposite of what
/// it was, and so is its value, except that the least scalar of all becomes
/// the greatest. On an axis on which the box is inside the field the
/// component is untouched.
pub proof fn lemma_bounce_flips_crossed_axes(b: BoundingBox, velocity: Vec2)
    ensures
        b.crosses_x() ==> sign(b.reflected(velocity).x as int) == -sign(velocity.x as int),
        b.crosses_x() && velocity.x != i64::MIN ==> b.reflected(velocity).x == -velocity.x,
        !b.crosses_x() ==> b.reflected(velocity).x == velocity.x,
        b.crosses_y() ==> sign(b.reflected(velocity).y as int) == -sign(velocity.y as int),
        b.crosses_y() && velocity.y != i64::MIN ==> b.reflected(velocity).y == -velocity.y,
        !b.crosses_y() ==> b.reflected(velocity).y == velocity.y,
{
}

/// Whether two boxes overlap does not depend on which of them is asked.
pub proof fn lemma_overlap_is_symmetric(a: BoundingBox, b: BoundingBox)
    ensures
        a.overlaps(b) == b.overlaps(a),
{
}

/// Two boxes of which one ends on an axis where the other begins do not
/// overlap, however they lie on the other axis.
pub proof fn lemma_touching_boxes_do_not_overlap(a: BoundingBox, b: BoundingBox)
    requires
        a.bottom_right.x == b.top_left.x || a.top_left.x == b.bottom_right.x
            || a.bottom_right.y == b.top_left.y || a.top_left.y == b.bottom_right.y,
    ensures
        !a.overlaps(b),
        !b.overlaps(a),
{
}

/// A match that is not being played, paused or won, is the same after any
/// number of ticks: ball, paddles and state.
pub proof fn lemma_halted_match_stands_still(g: GameView, ticks: nat)
    requires
        !(g.state is Playing),
    ensures
        g.after_steps(ticks) == g,
    decreases ticks,
{
    if ticks > 0 {
        lemma_halted_match_stands_still(g, (ticks - 1) as nat);
    }
}

/// A command to a player changes the vertical speed of that player's paddle
/// and nothing else: the ball, the state, every other paddle, and the box,
/// the horizontal speed, the normal and the colour of the paddle itself stay.
pub proof fn lemma_command_touches_one_paddle(g: GameView, command: Command, player: int)
    requires
        g.paddles.len() == NUM_PLAYERS,
        command.accepted(),
        command.target() == Some(player as usize),
        0 <= player < NUM_PLAYERS,
    ensures
        g.after_command(command).state == g.state,
        g.after_command(command).ball == g.ball,
        g.after_command(command).paddles.len() == g.paddles.len(),
        forall|other: int|
            0 <= other < NUM_PLAYERS && other != player ==> g.after_command(command).paddles[other]
                == g.paddles[other],
        g.after_command(command).paddles[player] == (Paddle {
            velocity: Vec2 {
                x: g.paddles[player].velocity.x,
                y: g.after_command(command).paddles[player].velocity.y,
            },
            ..g.paddles[player]
        }),
{
}

/// A pause command changes the state and nothing else, and the state only
/// between `Paused` and `Playing`.
pub proof fn lemma_pause_toggles(g: GameView)
    ensures
        g.after_command(Command::Pause).ball == g.ball,
        g.after_command(Command::Pause).paddles == g.paddles,
        g.state is Playing ==> g.after_command(Command::Pause).state is Paused,
        g.state is Paused ==> g.after_command(Command::Pause).state is Playing,
        g.state is Victory ==> g.after_command(Command::Pause).state == g.state,
        g.after_command(Command::Pause).after_command(Command::Pause) == g,
{
}

/// A victory is final: no command and no tick changes a match that has been
/// won.
pub proof fn lemma_victory_is_final(g: GameView, command: Command)
    requires
        g.state is Victory,
    ensures
        g.after_command(command) == g,
        g.stepped() == g,
{
}

/// No command ends a match and no tick pauses one: a command leaves the state
/// as it is or toggles between `Paused` and `Playing`, and a tick leaves the
/// state as it is or turns `Playing` into the victory of a player.
pub proof fn lemma_state_moves(g: GameView, command: Command)
    requires
        g.paddles.len() == NUM_PLAYERS,
    ensures
        g.after_command(command).state == g.state || (g.state is Playing && g.after_command(
            command,
        ).state is Paused) || (g.state is Paused && g.after_command(command).state is Playing),
        g.stepped().state == g.state || (g.state is Playing && g.stepped().state is Victory
            && g.stepped().state.wf()),
{
    reveal_with_fuel(GameView::struck, 3);
    reveal_with_fuel(GameView::verdict, 3);
}

/// The reward for a block never shortens a paddle whose box is in order, and
/// moves no edge of it inward.
pub proof fn lemma_reward_never_shortens(p: Paddle)
    requires
        p.bounding_box.wf(),
    ensures
        p.rewarded().bounding_box.top_left.y <= p.bounding_box.top_left.y,
        p.rewarded().bounding_box.bottom_right.y >= p.bounding_box.bottom_right.y,
        p.rewarded().span() >= p.span(),
        p.rewarded().bounding_box.wf(),
{
}

/// How a new match is laid out: it is being played; the ball is a square of
/// twice its radius about the middle of the field and flies along the given
/// direction at the speed of the ball; each paddle is at rest, as wide and as
/// long as a paddle is at first, centred vertically, with paddle 0 at the left
/// edge of the field and paddle 1 at the right edge, and each normal points
/// into the field.
pub proof fn lemma_new_match_layout(direction: Vec2, player: int)
    requires
        0 <= player < NUM_PLAYERS,
    ensures
        GameView::initial(direction).state is Playing,
        GameView::initial(direction).paddles.len() == NUM_PLAYERS,
        GameView::initial(direction).ball.center_point() == (Vec2 {
            x: (FIELD_WIDTH / 2) as i64,
            y: (FIELD_HEIGHT / 2) as i64,
        }),
        GameView::initial(direction).ball.bounding_box.span_x() == 2 * BALL_RADIUS,
        GameView::initial(direction).ball.bounding_box.span_y() == 2 * BALL_RADIUS,
        GameView::initial(direction).ball.radius == BALL_RADIUS,
        GameView::initial(direction).ball.velocity == direction.scaled(BALL_SPEED as int),
        GameView::initial(direction).paddles[player].velocity == (Vec2 { x: 0, y: 0 }),
        GameView::initial(direction).paddles[player].bounding_box.span_x() == PADDLE_WIDTH,
        GameView::initial(direction).paddles[player].span() == PADDLE_LENGTH,
        midpoint(
            GameView::initial(direction).paddles[player].bounding_box.top_left.y as int,
            GameView::initial(direction).paddles[player].bounding_box.bottom_right.y as int,
        ) == FIELD_HEIGHT / 2,
        GameView::initial(direction).paddles[0].bounding_box.top_left.x == PADDLE_GAP,
        GameView::initial(direction).paddles[1].bounding_box.bottom_right.x == FIELD_WIDTH
            - PADDLE_GAP,
        GameView::initial(direction).paddles[0].normal.x > 0,
        GameView::initial(direction).paddles[1].normal.x < 0,
        GameView::initial(direction).paddles[player].normal.y == 0,
{
}

/// A new match is well formed, and it is still being played after its first
/// tick, whatever the direction of the ball: no paddle starts out long enough
/// to win or short enough to lose.
pub proof fn lemma_new_match_goes_on(direction: Vec2)
    ensures
        GameView::initial(direction).wf(),
        GameView::initial(direction).stepped().state is Playing,
{
    reveal_with_fuel(GameView::struck, 3);
    reveal_with_fuel(GameView::verdict, 3);
    let start = GameView::initial(direction);
    let moved = start.integrated();
    assert(moved.paddles[0].span() == PADDLE_LENGTH - PADDLE_DECAY);
    assert(moved.paddles[1].span() == PADDLE_LENGTH - PADDLE_DECAY);
    let bounced = moved.bounced();
    let first = bounced.struck_by(0);
    let second = first.struck_by(1);
    assert(bounced.struck(2) == second);
    assert(second.paddles[0].span() <= PADDLE_LENGTH - PADDLE_DECAY + PADDLE_BONUS);
    assert(second.paddles[1].span() <= PADDLE_LENGTH - PADDLE_DECAY + PADDLE_BONUS);
}

/// A tick leaves what is fixed at construction as it is: the radius and the
/// colour of the ball, and of each paddle the normal, the colour and, in a
/// well-formed match, the left and right edges.
pub proof fn lemma_tick_keeps_what_is_fixed(g: GameView, player: int)
    requires
        g.paddles.len() == NUM_PLAYERS,
        0 <= player < NUM_PLAYERS,
    ensures
        g.stepped().paddles.len() == NUM_PLAYERS,
        g.stepped().ball.radius == g.ball.radius,
        g.stepped().ball.color == g.ball.color,
        g.stepped().paddles[player].normal == g.paddles[player].normal,
        g.stepped().paddles[player].color == g.paddles[player].color,
        g.wf() ==> g.stepped().paddles[player].bounding_box.top_left.x
            == g.paddles[player].bounding_box.top_left.x,
        g.wf() ==> g.stepped().paddles[player].bounding_box.bottom_right.x
            == g.paddles[player].bounding_box.bottom_right.x,
{
    reveal_with_fuel(GameView::struck, 3);
}

/// A block turns the ball around sideways only: the paddles change neither
/// the box of the ball nor the vertical component of its velocity.
pub proof fn lemma_blocks_turn_the_ball_sideways(g: GameView, count: nat)
    ensures
        g.struck(count).ball.bounding_box == g.ball.bounding_box,
        g.struck(count).ball.velocity.y == g.ball.velocity.y,
    decreases count,
{
    if count > 0 {
        lemma_blocks_turn_the_ball_sideways(g, (count - 1) as nat);
    }
}

/// A well-formed match stays well formed under every accepted command.
pub proof fn lemma_command_keeps_wf(g: GameView, command: Command)
    requires
        g.wf(),
        command.accepted(),
    ensures
        g.after_command(command).wf(),
{
}

/// A well-formed match stays well formed under a tick.
pub proof fn lemma_step_keeps_wf(g: GameView)
    requires
        g.wf(),
    ensures
        g.stepped().wf(),
{
    reveal_with_fuel(GameView::struck, 3);
    reveal_with_fuel(GameView::verdict, 3);
    if g.state is Playing {
        let moved = g.integrated();
        assert(moved.wf());
        let bounced = moved.bounced();
        assert(bounced.wf());
        let first = bounced.struck_by(0);
        assert(first.wf());
        let second = first.struck_by(1);
        assert(second.wf());
        assert(bounced.struck(2) == second);
    }
}

/// A paddle that is long enough wins the match for its player in the next
/// tick, and the match then stays as that tick left it, whatever the number
/// of further ticks. Long enough is: longer than `WINNING_LENGTH` by more than
/// the decay of one tick. The law leaves out a paddle so far from the field
/// that its move in this tick saturates, and a tick at whose end a paddle with
/// a higher index calls for a verdict of its own, which then decides.
pub proof fn lemma_long_paddle_wins(g: GameView, player: int)
    requires
        g.paddles.len() == NUM_PLAYERS,
        g.state is Playing,
        0 <= player < NUM_PLAYERS,
        g.paddles[player].span() > WINNING_LENGTH + PADDLE_DECAY,
        i64::MIN <= g.paddles[player].bounding_box.top_left.y + g.paddles[player].velocity.y,
        g.paddles[player].bounding_box.bottom_right.y + g.paddles[player].velocity.y <= i64::MAX,
        forall|later: int|
            player < later < NUM_PLAYERS ==> (#[trigger] g.stepped().claim(later)) is None,
    ensures
        g.stepped().state == State::Victory(player as usize),
        forall|ticks: nat| #[trigger] g.stepped().after_steps(ticks) == g.stepped(),
{
    reveal_with_fuel(GameView::struck, 3);
    reveal_with_fuel(GameView::verdict, 3);
    let moved = g.integrated();
    assert(moved.paddles[player].span() > WINNING_LENGTH);
    let bounced = moved.bounced();
    assert(bounced.paddles[player].bounding_box == moved.paddles[player].bounding_box);
    let first = bounced.struck_by(0);
    let second = first.struck_by(1);
    assert(bounced.struck(2) == second);
    assert(second.paddles[player].span() > WINNING_LENGTH);
    assert(g.stepped().paddles == second.paddles);
    if player == 0 {
        assert(g.stepped().claim(1) is None);
        assert(second.claim(1) is None);
    }
    assert(g.stepped().state == State::Victory(player as usize));
    assert forall|ticks: nat| #[trigger] g.stepped().after_steps(ticks) == g.stepped() by {
        lemma_halted_match_stands_still(g.stepped(), ticks);
    }
}

/// A paddle that ends a tick shorter than `PADDLE_WIDTH` loses the match: the
/// next player in turn wins, unless a paddle with a higher index calls for a
/// verdict of its own.
pub proof fn lemma_short_paddle_loses(g: GameView, player: int)
    requires
        g.paddles.len() == NUM_PLAYERS,
        g.state is Playing,
        0 <= player < NUM_PLAYERS,
        g.stepped().paddles[player].span() < PADDLE_WIDTH,
        forall|later: int|
            player < later < NUM_PLAYERS ==> (#[trigger] g.stepped().claim(later)) is None,
    ensures
        g.stepped().state == State::Victory(((player + 1) % NUM_PLAYERS as int) as usize),
{
    reveal_with_fuel(GameView::struck, 3);
    reveal_with_fuel(GameView::verdict, 3);
    let struck = g.integrated().bounced().struck(NUM_PLAYERS as nat);
    assert(g.stepped().paddles == struck.paddles);
    if player == 0 {
        assert(g.stepped().claim(1) is None);
        assert(struck.claim(1) is None);
    }
}

/// Two matches with the same state, ball and paddles are the same match after
/// any number of ticks: a tick reads nothing but these three.
pub proof fn lemma_equal_snapshots_replay_alike(a: Game, b: Game, ticks: nat)
    requires
        a.state == b.state,
        a.ball == b.ball,
        forall|i: int| 0 <= i < NUM_PLAYERS ==> a.paddles@[i] == b.paddles@[i],
    ensures
        a@.after_steps(ticks) == b@.after_steps(ticks),
        a == b,
{
    assert(a.paddles@ =~= b.paddles@);
    assert(a.paddles =~= b.paddles);
}

} // verus!
