//! The match: one ball, the paddles and the state, with the commands that
//! change it and the step that advances it by one tick.

use vstd::prelude::*;
use crate::command::{Command, CommandError, PlayerId, State};
use crate::config::{
    BALL_RADIUS, BALL_SPEED, FIELD_HEIGHT, FIELD_WIDTH, NUM_PLAYERS, PADDLE_ACCELERATION,
    PADDLE_BONUS, PADDLE_DECAY, PADDLE_GAP, PADDLE_LENGTH, PADDLE_WIDTH, SLOW_QUARTERS,
    WINNING_LENGTH,
};
use crate::entity::{ease, Ball, Color, Paddle};
use crate::fixed::{narrowed, negated, product, UNIT};
use crate::geometry::BoundingBox;
use crate::laws::{lemma_command_keeps_wf, lemma_step_keeps_wf};
use crate::vector::Vec2;

verus! {

/// A match in progress.
#[derive(Clone, Copy, Debug, PartialEq, Eq)]
pub struct Game {
    pub state: State,
    pub ball: Ball,
    pub paddles: [Paddle; NUM_PLAYERS],
}

/// The mathematical model of a match: the paddles as a sequence.
pub struct GameView {
    pub state: State,
    pub ball: Ball,
    pub paddles: Seq<Paddle>,
}

impl View for Game {
    type V = GameView;

    open spec fn view(&self) -> GameView {
        GameView { state: self.state, ball: self.ball, paddles: self.paddles@ }
    }
}

impl GameView {
    /// There is one paddle for each player, every box is in order, and a
    /// winner is one of the players.
    pub open spec fn wf(self) -> bool {
        &&& self.paddles.len() == NUM_PLAYERS
        &&& self.state.wf()
        &&& self.ball.wf()
        &&& forall|i: int| 0 <= i < self.paddles.len() ==> (#[trigger] self.paddles[i]).wf()
    }

    /// The match as it starts: the ball in the middle of the field, flying
    /// along `direction`; the paddles at rest at the left and right edges,
    /// centred vertically, at baseline length.
    pub open spec fn initial(direction: Vec2) -> GameView {
        GameView {
            state: State::Playing,
            ball: Ball {
                bounding_box: BoundingBox {
                    top_left: Vec2 {
                        x: (FIELD_WIDTH / 2 - BALL_RADIUS) as i64,
                        y: (FIELD_HEIGHT / 2 - BALL_RADIUS) as i64,
                    },
                    bottom_right: Vec2 {
                        x: (FIELD_WIDTH / 2 + BALL_RADIUS) as i64,
                        y: (FIELD_HEIGHT / 2 + BALL_RADIUS) as i64,
                    },
                },
                velocity: direction.scaled(BALL_SPEED as int),
                color: Color::Yellow,
                radius: BALL_RADIUS,
            },
            paddles: seq![
                Paddle {
                    bounding_box: BoundingBox {
                        top_left: Vec2 {
                            x: PADDLE_GAP,
                            y: ((FIELD_HEIGHT - PADDLE_LENGTH) / 2) as i64,
                        },
                        bottom_right: Vec2 {
                            x: (PADDLE_GAP + PADDLE_WIDTH) as i64,
                            y: ((FIELD_HEIGHT + PADDLE_LENGTH) / 2) as i64,
                        },
                    },
                    velocity: Vec2 { x: 0, y: 0 },
                    normal: Vec2 { x: UNIT, y: 0 },
                    color: Color::Green,
                },
                Paddle {
                    bounding_box: BoundingBox {
                        top_left: Vec2 {
                            x: (FIELD_WIDTH - PADDLE_GAP - PADDLE_WIDTH) as i64,
                            y: ((FIELD_HEIGHT - PADDLE_LENGTH) / 2) as i64,
                        },
                        bottom_right: Vec2 {
                            x: (FIELD_WIDTH - PADDLE_GAP) as i64,
                            y: ((FIELD_HEIGHT + PADDLE_LENGTH) / 2) as i64,
                        },
                    },
                    velocity: Vec2 { x: 0, y: 0 },
                    normal: Vec2 { x: (-UNIT) as i64, y: 0 },
                    color: Color::Blue,
                },
            ],
        }
    }
}

impl GameView {
    /// The match with `paddle` in the place of the paddle of `player`.
    pub open spec fn with_paddle(self, player: int, paddle: Paddle) -> GameView {
        GameView { paddles: self.paddles.update(player, paddle), ..self }
    }

    /// The match after an accepted command. A match that has been won takes
    /// no command. Otherwise a pause command toggles the state and nothing
    /// else, and a command to a player changes the vertical speed of that
    /// player's paddle and nothing else, whether the match is paused or not.
    pub open spec fn after_command(self, command: Command) -> GameView {
        if self.state is Victory {
            self
        } else {
            match command {
                Command::Pause => GameView { state: self.state.toggled(), ..self },
                Command::Accelerate(player, signum) => self.with_paddle(
                    player as int,
                    self.paddles[player as int].accelerated(signum as int),
                ),
                Command::Slow(player) => self.with_paddle(
                    player as int,
                    self.paddles[player as int].slowed(),
                ),
            }
        }
    }
}

impl GameView {
    /// First phase of a tick: the ball and every paddle move on their own.
    pub open spec fn integrated(self) -> GameView {
        GameView {
            ball: self.ball.advanced(),
            paddles: Seq::new(self.paddles.len(), |i: int| self.paddles[i].advanced()),
            ..self
        }
    }

    /// Second phase of a tick: the ball and every paddle bounce off the field
    /// edges, each by its own box.
    pub open spec fn bounced(self) -> GameView {
        GameView {
            ball: self.ball.bounced(),
            paddles: Seq::new(self.paddles.len(), |i: int| self.paddles[i].bounced()),
            ..self
        }
    }

    /// The match after the paddle of `player` has met the ball: where the
    /// paddle blocks the ball, the ball is deflected and the paddle grows.
    pub open spec fn struck_by(self, player: int) -> GameView {
        if self.paddles[player].blocks(self.ball) {
            GameView {
                ball: self.ball.deflected(),
                paddles: self.paddles.update(player, self.paddles[player].rewarded()),
                ..self
            }
        } else {
            self
        }
    }

    /// Third phase of a tick, as far as the first `count` paddles: they meet
    /// the ball one after the other, in the order of their indices.
    pub open spec fn struck(self, count: nat) -> GameView
        decreases count,
    {
        if count == 0 {
            self
        } else {
            self.struck((count - 1) as nat).struck_by(count - 1)
        }
    }

    /// The winner that the length of the paddle of `player` calls for, if it
    /// calls for one: a paddle longer than `WINNING_LENGTH` wins for its own
    /// player, and one shorter than `PADDLE_WIDTH` wins for the next player in
    /// turn.
    pub open spec fn claim(self, player: int) -> Option<PlayerId> {
        if self.paddles[player].span() > WINNING_LENGTH {
            Some(player as PlayerId)
        } else if self.paddles[player].span() < PADDLE_WIDTH {
            Some(((player + 1) % NUM_PLAYERS as int) as PlayerId)
        } else {
            None
        }
    }

    /// The state that the first `count` paddles leave. Where several of them
    /// call for a winner, the one with the highest index decides; where none
    /// does, the state stays.
    pub open spec fn verdict(self, count: nat) -> State
        decreases count,
    {
        if count == 0 {
            self.state
        } else {
            match self.claim(count - 1) {
                Some(winner) => State::Victory(winner),
                None => self.verdict((count - 1) as nat),
            }
        }
    }

    /// Last phase of a tick: the lengths of the paddles decide the state.
    pub open spec fn judged(self) -> GameView {
        GameView { state: self.verdict(self.paddles.len()), ..self }
    }

    /// The match after one tick. Only a match that is being played moves:
    /// its four phases follow each other in this order. A paused match and
    /// one that has been won stay as they are.
    pub open spec fn stepped(self) -> GameView {
        if self.state is Playing {
            self.integrated().bounced().struck(self.paddles.len()).judged()
        } else {
            self
        }
    }

    /// The match after `ticks` ticks.
    pub open spec fn after_steps(self, ticks: nat) -> GameView
        decreases ticks,
    {
        if ticks == 0 {
            self
        } else {
            self.after_steps((ticks - 1) as nat).stepped()
        }
    }
}

impl Game {
    /// Starts a match. `direction` is the unit vector along which the ball
    /// sets out, in thousandths: `(1000, 0)` sends it to the right.
    pub fn new(direction: Vec2) -> (game: Game)
        ensures
            game@ == GameView::initial(direction),
            game@.wf(),
    {
        let game = Game {
            state: State::Playing,
            ball: Ball {
                bounding_box: BoundingBox {
                    top_left: Vec2 {
                        x: FIELD_WIDTH / 2 - BALL_RADIUS,
                        y: FIELD_HEIGHT / 2 - BALL_RADIUS,
                    },
                    bottom_right: Vec2 {
                        x: FIELD_WIDTH / 2 + BALL_RADIUS,
                        y: FIELD_HEIGHT / 2 + BALL_RADIUS,
                    },
                },
                velocity: direction.times(BALL_SPEED),
                color: Color::Yellow,
                radius: BALL_RADIUS,
            },
            paddles: [
                Paddle {
                    bounding_box: BoundingBox {
                        top_left: Vec2 { x: PADDLE_GAP, y: (FIELD_HEIGHT - PADDLE_LENGTH) / 2 },
                        bottom_right: Vec2 {
                            x: PADDLE_GAP + PADDLE_WIDTH,
                            y: (FIELD_HEIGHT + PADDLE_LENGTH) / 2,
                        },
                    },
                    velocity: Vec2 { x: 0, y: 0 },
                    normal: Vec2 { x: UNIT, y: 0 },
                    color: Color::Green,
                },
                Paddle {
                    bounding_box: BoundingBox {
                        top_left: Vec2 {
                            x: FIELD_WIDTH - PADDLE_GAP - PADDLE_WIDTH,
                            y: (FIELD_HEIGHT - PADDLE_LENGTH) / 2,
                        },
                        bottom_right: Vec2 {
                            x: FIELD_WIDTH - PADDLE_GAP,
                            y: (FIELD_HEIGHT + PADDLE_LENGTH) / 2,
                        },
                    },
                    velocity: Vec2 { x: 0, y: 0 },
                    normal: Vec2 { x: -UNIT, y: 0 },
                    color: Color::Blue,
                },
            ],
        };
        assert(game@.paddles =~= GameView::initial(direction).paddles);
        game
    }

    /// Delivers one command. A command that names a player outside the match
    /// is turned down and changes nothing; every other command succeeds.
    pub fn handle_command(&mut self, command: Command) -> (outcome: Result<(), CommandError>)
        ensures
            outcome is Ok <==> command.accepted(),
            outcome is Ok ==> final(self)@ == old(self)@.after_command(command),
            outcome matches Err(CommandError::UnknownPlayer(player)) ==> command.target() == Some(
                player,
            ) && *final(self) == *old(self),
            old(self)@.wf() ==> final(self)@.wf(),
    {
        proof {
            if old(self)@.wf() && command.accepted() {
                lemma_command_keeps_wf(old(self)@, command);
            }
        }
        let over = match self.state {
            State::Victory(_) => true,
            _ => false,
        };
        match command {
            Command::Pause => {
                self.toggle_pause();
            },
            Command::Accelerate(player, signum) => {
                if player >= NUM_PLAYERS {
                    return Err(CommandError::UnknownPlayer(player));
                }
                if !over {
                    self.accelerate(player, signum);
                }
            },
            Command::Slow(player) => {
                if player >= NUM_PLAYERS {
                    return Err(CommandError::UnknownPlayer(player));
                }
                if !over {
                    self.slow(player);
                }
            },
        }
        Ok(())
    }

    /// Halts a running match and resumes a halted one.
    fn toggle_pause(&mut self)
        ensures
            final(self)@ == (GameView { state: old(self)@.state.toggled(), ..old(self)@ }),
    {
        match self.state {
            State::Paused => {
                self.state = State::Playing;
            },
            State::Playing => {
                self.state = State::Paused;
            },
            _ => {},
        }
    }

    /// Adds `signum` times the paddle acceleration to the vertical speed of
    /// the paddle of `player`.
    fn accelerate(&mut self, player: PlayerId, signum: i64)
        requires
            player < NUM_PLAYERS,
        ensures
            final(self)@ == old(self)@.with_paddle(
                player as int,
                old(self)@.paddles[player as int].accelerated(signum as int),
            ),
    {
        let mut paddle = self.paddles[player];
        let push: i128 = product(PADDLE_ACCELERATION, signum);
        paddle.velocity.y = narrowed(paddle.velocity.y as i128 + push);
        self.paddles[player] = paddle;
        assert(self@.paddles =~= old(self)@.paddles.update(player as int, paddle));
    }

    /// Leaves the paddle of `player` three quarters of its vertical speed.
    fn slow(&mut self, player: PlayerId)
        requires
            player < NUM_PLAYERS,
        ensures
            final(self)@ == old(self)@.with_paddle(
                player as int,
                old(self)@.paddles[player as int].slowed(),
            ),
    {
        let mut paddle = self.paddles[player];
        paddle.velocity.y = narrowed(product(SLOW_QUARTERS, paddle.velocity.y) / 4);
        self.paddles[player] = paddle;
        assert(self@.paddles =~= old(self)@.paddles.update(player as int, paddle));
    }

    /// Advances the match by one tick. A match that is not being played
    /// stays as it is.
    pub fn update(&mut self)
        ensures
            final(self)@ == old(self)@.stepped(),
            old(self)@.wf() ==> final(self)@.wf(),
    {
        proof {
            if old(self)@.wf() {
                lemma_step_keeps_wf(old(self)@);
            }
        }
        match self.state {
            State::Playing => {},
            _ => {
                return ;
            },
        }
        self.integrate();
        self.wall_collisions();
        self.paddle_collisions();
        self.check_victory();
    }

    /// Moves the ball and the paddles, and lets friction and decay act on the
    /// paddles.
    fn integrate(&mut self)
        ensures
            final(self)@ == old(self)@.integrated(),
    {
        let flight = self.ball.velocity;
        self.ball.bounding_box.move_by(flight);
        for i in 0..NUM_PLAYERS
            invariant
                self.state == old(self).state,
                self.ball == old(self).ball.advanced(),
                forall|j: int| 0 <= j < i ==> self.paddles@[j] == old(self).paddles@[j].advanced(),
                forall|j: int| i <= j < NUM_PLAYERS ==> self.paddles@[j] == old(self).paddles@[j],
        {
            let mut paddle = self.paddles[i];
            paddle.move_by(paddle.velocity);
            paddle.velocity.y = ease(paddle.velocity.y);
            paddle.expand_by(-PADDLE_DECAY);
            self.paddles[i] = paddle;
        }
        assert(self@.paddles =~= old(self)@.integrated().paddles);
    }

    /// Bounces the ball and the paddles off the field edges.
    fn wall_collisions(&mut self)
        ensures
            final(self)@ == old(self)@.bounced(),
    {
        let mut flight = self.ball.velocity;
        self.ball.bounding_box.bounds_collision(&mut flight);
        self.ball.velocity = flight;
        for i in 0..NUM_PLAYERS
            invariant
                self.state == old(self).state,
                self.ball == old(self).ball.bounced(),
                forall|j: int| 0 <= j < i ==> self.paddles@[j] == old(self).paddles@[j].bounced(),
                forall|j: int| i <= j < NUM_PLAYERS ==> self.paddles@[j] == old(self).paddles@[j],
        {
            let mut paddle = self.paddles[i];
            let mut speed = paddle.velocity;
            paddle.bounding_box.bounds_collision(&mut speed);
            paddle.velocity = speed;
            self.paddles[i] = paddle;
        }
        assert(self@.paddles =~= old(self)@.bounced().paddles);
    }

    /// Lets each paddle in turn block the ball.
    fn paddle_collisions(&mut self)
        ensures
            final(self)@ == old(self)@.struck(NUM_PLAYERS as nat),
    {
        for i in 0..NUM_PLAYERS
            invariant
                self@ == old(self)@.struck(i as nat),
        {
            let mut paddle = self.paddles[i];
            if self.ball.bounding_box.intersects(&paddle.bounding_box) && self.ball.velocity.opposes(
                paddle.normal,
            ) {
                self.ball.velocity.x = negated(self.ball.velocity.x);
                paddle.expand_by(PADDLE_BONUS);
                self.paddles[i] = paddle;
                assert(self@.paddles =~= old(self)@.struck(i as nat).paddles.update(
                    i as int,
                    paddle,
                ));
            }
        }
    }

    /// Lets the lengths of the paddles decide the match.
    fn check_victory(&mut self)
        ensures
            final(self)@ == old(self)@.judged(),
    {
        for i in 0..NUM_PLAYERS
            invariant
                self.ball == old(self).ball,
                self.paddles == old(self).paddles,
                self.state == old(self)@.verdict(i as nat),
        {
            let length: i64 = self.paddles[i].length();
            if length > WINNING_LENGTH {
                self.state = State::Victory(i);
            } else if length < PADDLE_WIDTH {
                self.state = State::Victory((i + 1) % NUM_PLAYERS);
            }
        }
    }
}

} // verus!
