use vstd::prelude::*;

use crate::command::Command;
use crate::direction::Direction;
use crate::point::Point;
use crate::render::{frame_ops, glyph_run, ops_view, Color, RenderOp, Renderer, ScreenOp};
use crate::rng::choose_one;
use crate::snake::{overlapping, Snake};
use crate::text::{game_over_blank, game_over_line, game_over_text, score_line, score_text};

verus! {

/// The three phases of a round. `Quit` is terminal: the driving loop exits.
#[derive(Clone, Copy, Debug, PartialEq, Eq, Structural)]
pub enum GameState {
    Playing,
    GameOver,
    Quit,
}

/// How much one fruit is worth.
pub const FRUIT_BONUS: u16 = 100;

/// The heading after one polled command: an accepted turn is any direction
/// other than the current heading and its reverse — a 180-degree reversal
/// and a same-direction press both leave the heading alone, as does any
/// other command or none at all.
pub open spec fn next_heading(current: Direction, command: Option<Command>) -> Direction {
    match command {
        Some(Command::Turn(d)) => if d != current && d != current.spec_opposite() {
            d
        } else {
            current
        },
        _ => current,
    }
}

/// Whether a cell lies on the playing-field frame: the frame occupies
/// column 0, column `width`, row 2 (just below the header band) and row
/// `height + 2`. A head on the frame itself is a loss.
pub open spec fn hits_border(p: Point, board: (u16, u16)) -> bool {
    p.x == 0 || p.x == board.0 || p.y == 2 || p.y == board.1 + 2
}

/// The cells a playing head can occupy: strictly inside the frame.
pub open spec fn in_playable_area(p: Point, board: (u16, u16)) -> bool {
    1 <= p.x <= board.0 - 1 && 3 <= p.y <= board.1 + 1
}

/// The region a fruit may appear in: any playable cell strictly inside the
/// frame.
pub open spec fn fruit_cell(p: Point, board: (u16, u16)) -> bool {
    in_playable_area(p, board)
}

/// A cell that may receive the fruit: in the fruit region and not occupied
/// by the snake body.
pub open spec fn free_fruit_cell(p: Point, body: Seq<Point>, board: (u16, u16)) -> bool {
    fruit_cell(p, board) && !body.contains(p)
}

/// Whether the board still has room for a fruit next to this body.
pub open spec fn has_free_cell(body: Seq<Point>, board: (u16, u16)) -> bool {
    exists|p: Point| free_fruit_cell(p, body, board)
}

/// What fruit relocation guarantees. Whenever any free cell exists, the new
/// fruit position is one — in particular it is never inside the snake body.
/// On a board so full that no cell is free the fruit stays where it was
/// (instead of searching forever).
pub open spec fn fruit_relocated(
    body: Seq<Point>,
    board: (u16, u16),
    before: Point,
    after: Point,
) -> bool {
    if has_free_cell(body, board) {
        free_fruit_cell(after, body, board)
    } else {
        after == before
    }
}

/// The glyphs a fruit may be drawn with.
pub open spec fn fruit_glyphs() -> Seq<char> {
    seq!['🍎', '🍏', '🍑', '🍒', '🍊', '🍓', '🍇', '🍉', '🍌', '🍍']
}

/// The score after eating one fruit: the fixed bonus is added; at the very
/// top of the counter the score pegs at the maximum instead of overflowing.
pub open spec fn score_after_eating(score: u16) -> u16 {
    if score + FRUIT_BONUS <= u16::MAX {
        (score + FRUIT_BONUS) as u16
    } else {
        u16::MAX
    }
}

/// The two instructions that redraw the score line: clear the top row, then
/// print the line.
pub open spec fn score_render_ops(score: int, bg: Color) -> Seq<ScreenOp> {
    seq![
        ScreenOp::ClearLine(0, bg),
        ScreenOp::Text(score_text(score), Point { x: 1, y: 0 }, Color::White),
    ]
}

/// The game: the state machine, the snake, the fruit, the score and the
/// drawing surface. Board geometry and target frame rate are fixed at
/// construction.
pub struct Game {
    score: u16,
    game_state: GameState,
    snake: Snake,
    fruit_position: Point,
    board_size: (u16, u16),
    target_fps: u16,
    renderer: Renderer,
    moving_direction: Direction,
    show_blinking_text: bool,
}

impl Game {
    pub closed spec fn spec_score(&self) -> u16 {
        self.score
    }

    pub closed spec fn spec_state(&self) -> GameState {
        self.game_state
    }

    /// The snake body, head first.
    pub closed spec fn spec_body(&self) -> Seq<Point> {
        self.snake@
    }

    pub closed spec fn spec_fruit(&self) -> Point {
        self.fruit_position
    }

    pub closed spec fn spec_board(&self) -> (u16, u16) {
        self.board_size
    }

    pub closed spec fn spec_fps(&self) -> u16 {
        self.target_fps
    }

    pub closed spec fn spec_heading(&self) -> Direction {
        self.moving_direction
    }

    /// Whether the next game-over blink shows the message (true) or hides
    /// it (false).
    pub closed spec fn spec_blink(&self) -> bool {
        self.show_blinking_text
    }

    pub closed spec fn spec_renderer(&self) -> Renderer {
        self.renderer
    }

    /// The drawing instructions recorded so far.
    pub open spec fn spec_ops(&self) -> Seq<ScreenOp> {
        self.spec_renderer()@
    }

    pub open spec fn spec_head(&self) -> Point {
        self.spec_body()[0]
    }

    /// The fixed part of the invariant: sane geometry and frame rate, and a
    /// drawing surface created for this board.
    pub open spec fn config_wf(&self) -> bool {
        &&& 8 <= self.spec_board().0
        &&& 6 <= self.spec_board().1 <= u16::MAX - 2
        &&& 1 <= self.spec_fps()
        &&& self.spec_renderer().spec_dimensions() == (
            self.spec_board().0,
            (self.spec_board().1 + 2) as u16,
        )
        &&& self.spec_renderer().spec_background() == Color::DarkBlue
        &&& self.spec_renderer().spec_foreground() == Color::Magenta
    }

    /// The game invariant: the configuration is sane, the snake is never
    /// empty, and while the game is in play the head sits strictly inside
    /// the frame (so the next move can never leave the coordinate domain).
    pub open spec fn wf(&self) -> bool {
        &&& self.config_wf()
        &&& self.spec_body().len() >= 1
        &&& (self.spec_state() is Playing ==> in_playable_area(self.spec_head(), self.spec_board()))
    }

    /// Whether the drawing surface is currently acquired.
    pub open spec fn renderer_ready(&self) -> bool {
        self.spec_renderer().spec_initialized()
    }

    /// Ticks never change the configuration, nor release the surface.
    pub open spec fn same_settings(pre: Game, post: Game) -> bool {
        &&& post.spec_board() == pre.spec_board()
        &&& post.spec_fps() == pre.spec_fps()
        &&& post.spec_renderer().same_config(&pre.spec_renderer())
        &&& post.renderer_ready() == pre.renderer_ready()
    }

    /// Everything but the drawing record and the blink flag is unchanged.
    pub open spec fn same_core(pre: Game, post: Game) -> bool {
        &&& post.spec_score() == pre.spec_score()
        &&& post.spec_body() == pre.spec_body()
        &&& post.spec_fruit() == pre.spec_fruit()
        &&& post.spec_heading() == pre.spec_heading()
        &&& Game::same_settings(pre, post)
    }
}

/// The heading one Playing tick moves along.
pub open spec fn step_heading(pre: Game, command: Option<Command>) -> Direction {
    next_heading(pre.spec_heading(), command)
}

/// The cell the head advances to in one Playing tick.
pub open spec fn step_new_head(pre: Game, command: Option<Command>) -> Point {
    pre.spec_head().transformed(step_heading(pre, command), 1)
}

/// Whether this tick consumes the fruit: the head's next cell along the
/// tick's heading is the fruit cell, so the new head lands on the fruit.
pub open spec fn step_eats(pre: Game, command: Option<Command>) -> bool {
    step_new_head(pre, command) == pre.spec_fruit()
}

/// The snake body after one Playing tick: the new head in front, and the
/// tail kept exactly when the fruit was eaten.
pub open spec fn step_body(pre: Game, command: Option<Command>) -> Seq<Point> {
    if step_eats(pre, command) {
        seq![step_new_head(pre, command)] + pre.spec_body()
    } else {
        seq![step_new_head(pre, command)] + pre.spec_body().drop_last()
    }
}

/// Whether one Playing tick ends the game: the new head is on the frame or
/// on the snake's own body.
pub open spec fn step_dead(pre: Game, command: Option<Command>) -> bool {
    hits_border(step_new_head(pre, command), pre.spec_board()) || overlapping(
        step_body(pre, command),
    )
}

/// The instructions that erase the previous body at the start of a tick.
pub open spec fn step_cleared(pre: Game) -> Seq<ScreenOp> {
    glyph_run(pre.spec_body(), ' ', pre.spec_renderer().spec_foreground())
}

/// The instructions that draw the advanced snake: the body, a distinguished
/// head glyph, and a death glyph over the head when the tick ends the game.
pub open spec fn step_drawn(pre: Game, command: Option<Command>) -> Seq<ScreenOp> {
    let fg = pre.spec_renderer().spec_foreground();
    let new_head = step_new_head(pre, command);
    glyph_run(step_body(pre, command), '@', fg).push(ScreenOp::Glyph(new_head, '🐸', fg)) + (
    if step_dead(pre, command) {
        seq![ScreenOp::Glyph(new_head, '💀', fg)]
    } else {
        Seq::<ScreenOp>::empty()
    })
}

/// One tick in the Playing state. A Quit command ends the round at once and
/// changes nothing else. Otherwise the heading is updated (reversals and
/// same-direction input are rejected), the snake advances one cell along the
/// new heading — growing and scoring when the new head lands on the fruit,
/// in which case the fruit is relocated to a free cell — and the tick ends in
/// GameOver exactly when the new head lands on the frame or on the snake's
/// own body. What the tick draws is stated separately, over `step_cleared`
/// and `step_drawn`.
pub open spec fn playing_step(pre: Game, post: Game, command: Option<Command>) -> bool {
    if command == Some(Command::Quit) {
        &&& post.spec_state() == GameState::Quit
        &&& Game::same_core(pre, post)
        &&& post.spec_blink() == pre.spec_blink()
        &&& post.spec_ops() == pre.spec_ops()
    } else {
        &&& post.spec_heading() == step_heading(pre, command)
        &&& post.spec_body() == step_body(pre, command)
        &&& post.spec_score() == (if step_eats(pre, command) {
            score_after_eating(pre.spec_score())
        } else {
            pre.spec_score()
        })
        &&& (if step_eats(pre, command) {
            fruit_relocated(
                step_body(pre, command),
                pre.spec_board(),
                pre.spec_fruit(),
                post.spec_fruit(),
            )
        } else {
            post.spec_fruit() == pre.spec_fruit()
        })
        &&& post.spec_state() == (if step_dead(pre, command) {
            GameState::GameOver
        } else {
            GameState::Playing
        })
        &&& post.spec_blink() == pre.spec_blink()
        &&& Game::same_settings(pre, post)
    }
}

/// One tick in the GameOver state. A Quit command ends the round and draws
/// nothing. Any other input (or none) keeps the game over, prints the
/// game-over message centered below the middle of the board — visible and
/// hidden in alternation — and changes nothing else.
pub open spec fn game_over_step(pre: Game, post: Game, command: Option<Command>) -> bool {
    if command == Some(Command::Quit) {
        &&& post.spec_state() == GameState::Quit
        &&& Game::same_core(pre, post)
        &&& post.spec_blink() == pre.spec_blink()
        &&& post.spec_ops() == pre.spec_ops()
    } else {
        let shown = if pre.spec_blink() {
            game_over_text()
        } else {
            game_over_blank()
        };
        let at = Point {
            x: (pre.spec_board().0 / 2 - 4) as u16,
            y: (pre.spec_board().1 / 2 + 2) as u16,
        };
        &&& post.spec_state() == GameState::GameOver
        &&& Game::same_core(pre, post)
        &&& post.spec_blink() == !pre.spec_blink()
        &&& post.spec_ops() == pre.spec_ops().push(ScreenOp::Text(shown, at, Color::White))
    }
}

/// The opening picture: acquire the surface, clear twice, draw the frame
/// below the header band, the starting snake and the score line.
pub open spec fn opening_ops(pre: Game) -> Seq<ScreenOp> {
    let bg = pre.spec_renderer().spec_background();
    let fg = pre.spec_renderer().spec_foreground();
    let board = pre.spec_board();
    seq![
        ScreenOp::Init(board.0, (board.1 + 2) as u16),
        ScreenOp::ClearAll(bg),
        ScreenOp::ClearAll(bg),
    ] + frame_ops(Point { x: 0, y: 2 }, board, '#', fg) + glyph_run(pre.spec_body(), '@', fg)
        + score_render_ops(pre.spec_score() as int, bg)
}

impl Game {
    /// Builds a round on the given board: a three-cell snake heading Up from
    /// the board's center, score zero, the fruit pending placement, and a
    /// drawing surface sized for the board plus the two header rows.
    pub fn new(board_size: (u16, u16), target_fps: u16) -> (g: Game)
        requires
            8 <= board_size.0,
            6 <= board_size.1 <= u16::MAX - 2,
            1 <= target_fps,
        ensures
            g.wf(),
            !g.renderer_ready(),
            g.spec_state() == GameState::Playing,
            g.spec_score() == 0,
            g.spec_heading() == Direction::Up,
            g.spec_fruit() == (Point { x: 0, y: 0 }),
            g.spec_board() == board_size,
            g.spec_fps() == target_fps,
            g.spec_blink(),
            g.spec_ops() == Seq::<ScreenOp>::empty(),
            g.spec_body().len() == 3,
            forall|i: int|
                0 <= i < 3 ==> g.spec_body()[i] == (Point {
                    x: board_size.0 / 2,
                    y: (board_size.1 / 2 + i) as u16,
                }),
    {
        Game {
            snake: Snake::new(Point { x: board_size.0 / 2, y: board_size.1 / 2 }, 3, Direction::Up),
            board_size,
            score: 0,
            moving_direction: Direction::Up,
            target_fps,
            fruit_position: Point { x: 0, y: 0 },
            game_state: GameState::Playing,
            renderer: Renderer::new(
                (board_size.0, board_size.1 + 2),
                Color::DarkBlue,
                Color::Magenta,
            ),
            show_blinking_text: true,
        }
    }

    pub fn score(&self) -> (r: u16)
        ensures
            r == self.spec_score(),
    {
        self.score
    }

    pub fn game_state(&self) -> (r: GameState)
        ensures
            r == self.spec_state(),
    {
        self.game_state
    }

    pub fn fruit_position(&self) -> (r: Point)
        ensures
            r == self.spec_fruit(),
    {
        self.fruit_position
    }

    pub fn moving_direction(&self) -> (r: Direction)
        ensures
            r == self.spec_heading(),
    {
        self.moving_direction
    }

    pub fn borrow_snake(&self) -> (r: &Snake)
        ensures
            r@ == self.spec_body(),
    {
        &self.snake
    }

    pub fn is_finished(&self) -> (r: bool)
        ensures
            r == (self.spec_state() is Quit),
    {
        matches!(self.game_state, GameState::Quit)
    }

    /// How long the driving loop may wait for input before this tick: one
    /// frame while playing, half a second while the game-over message
    /// blinks.
    pub fn poll_timeout_ms(&self) -> (r: u16)
        requires
            self.wf(),
        ensures
            r as int == if self.spec_state() is Playing {
                1000int / self.spec_fps() as int
            } else {
                500int
            },
    {
        match self.game_state {
            GameState::Playing => 1000u16 / self.target_fps,
            _ => 500,
        }
    }

    /// Hands the recorded drawing instructions to the backend and starts a
    /// fresh record.
    pub fn take_render_ops(&mut self) -> (r: Vec<RenderOp>)
        ensures
            ops_view(r@) == old(self).spec_ops(),
            final(self).spec_ops() == Seq::<ScreenOp>::empty(),
            final(self).spec_state() == old(self).spec_state(),
            final(self).spec_score() == old(self).spec_score(),
            final(self).spec_body() == old(self).spec_body(),
            final(self).spec_fruit() == old(self).spec_fruit(),
            final(self).spec_heading() == old(self).spec_heading(),
            final(self).spec_blink() == old(self).spec_blink(),
            Game::same_settings(*old(self), *final(self)),
            final(self).wf() == old(self).wf(),
    {
        self.renderer.take_ops()
    }

    /// Acquires the drawing surface and renders the opening picture, ending
    /// with the first fruit placed on a free cell and drawn with one of the
    /// fruit glyphs.
    pub fn start(&mut self)
        requires
            old(self).wf(),
            !old(self).renderer_ready(),
        ensures
            final(self).wf(),
            final(self).renderer_ready(),
            final(self).spec_state() == old(self).spec_state(),
            final(self).spec_score() == old(self).spec_score(),
            final(self).spec_body() == old(self).spec_body(),
            final(self).spec_heading() == old(self).spec_heading(),
            final(self).spec_blink() == old(self).spec_blink(),
            final(self).spec_board() == old(self).spec_board(),
            final(self).spec_fps() == old(self).spec_fps(),
            final(self).spec_renderer().same_config(&old(self).spec_renderer()),
            fruit_relocated(
                old(self).spec_body(),
                old(self).spec_board(),
                old(self).spec_fruit(),
                final(self).spec_fruit(),
            ),
            has_free_cell(old(self).spec_body(), old(self).spec_board()) ==> (exists|g: char|
                #[trigger] fruit_glyphs().contains(g) && final(self).spec_ops() == old(self).spec_ops() + opening_ops(*old(self)) + seq![
                    ScreenOp::Glyph(
                        final(self).spec_fruit(),
                        g,
                        old(self).spec_renderer().spec_foreground(),
                    ),
                ]),
            !has_free_cell(old(self).spec_body(), old(self).spec_board()) ==> final(self).spec_ops()
                == old(self).spec_ops() + opening_ops(*old(self)),
    {
        self.renderer.init();
        self.renderer.clear();
        self.renderer.clear();
        self.renderer.draw_rect_frame(&Point { x: 0, y: 2 }, self.board_size, '#');
        self.renderer.draw_points(self.snake.borrow_body(), '@');
        self.render_score();
        let ghost ops_mid = self.spec_ops();
        self.place_fruit_somewhere_on_board();
        proof {
            assert(ops_mid =~= old(self).spec_ops() + opening_ops(*old(self)));
            if has_free_cell(old(self).spec_body(), old(self).spec_board()) {
                let fg = old(self).spec_renderer().spec_foreground();
                let g = choose|g: char|
                    fruit_glyphs().contains(g) && self.spec_ops() == ops_mid.push(
                        ScreenOp::Glyph(self.spec_fruit(), g, fg),
                    );
                assert(self.spec_ops() =~= old(self).spec_ops() + opening_ops(*old(self)) + seq![
                    ScreenOp::Glyph(self.spec_fruit(), g, fg),
                ]);
            }
        }
    }

    /// Releases the drawing surface; the round is over.
    pub fn finish(&mut self)
        requires
            old(self).renderer_ready(),
        ensures
            !final(self).renderer_ready(),
            final(self).spec_ops() == old(self).spec_ops().push(ScreenOp::Exit),
            final(self).spec_state() == old(self).spec_state(),
            final(self).spec_score() == old(self).spec_score(),
            final(self).spec_body() == old(self).spec_body(),
            final(self).spec_fruit() == old(self).spec_fruit(),
            final(self).spec_heading() == old(self).spec_heading(),
            final(self).spec_blink() == old(self).spec_blink(),
            final(self).spec_board() == old(self).spec_board(),
            final(self).spec_fps() == old(self).spec_fps(),
            final(self).spec_renderer().same_config(&old(self).spec_renderer()),
    {
        self.renderer.exit();
    }

    /// One iteration of the round: dispatches on the current state, given
    /// the command the driving loop polled (or `None` when the deadline
    /// passed without one). What a Playing tick draws is stated by the last
    /// three clauses: the previous body is erased; when a fruit is eaten the
    /// score line is redrawn and the relocated fruit drawn with one of the
    /// fruit glyphs; the advanced snake is drawn last.
    pub fn tick(&mut self, next_command: Option<Command>)
        requires
            old(self).wf(),
            old(self).renderer_ready(),
        ensures
            final(self).wf(),
            final(self).renderer_ready(),
            (match old(self).spec_state() {
                GameState::Playing => playing_step(*old(self), *final(self), next_command),
                GameState::GameOver => game_over_step(*old(self), *final(self), next_command),
                GameState::Quit => *final(self) == *old(self),
            }),
            old(self).spec_state() is Playing && next_command != Some(Command::Quit) && !step_eats(*old(self), next_command) ==> final(self).spec_ops() == old(self).spec_ops() + step_cleared(*old(self))
                + step_drawn(*old(self), next_command),
            old(self).spec_state() is Playing && next_command != Some(Command::Quit) && step_eats(*old(self), next_command) && has_free_cell(step_body(*old(self), next_command), old(self).spec_board()) ==> (
            exists|g: char|
                #[trigger] fruit_glyphs().contains(g) && final(self).spec_ops() == old(self).spec_ops() + step_cleared(*old(self)) + score_render_ops(
                    final(self).spec_score() as int,
                    old(self).spec_renderer().spec_background(),
                ) + seq![
                    ScreenOp::Glyph(
                        final(self).spec_fruit(),
                        g,
                        old(self).spec_renderer().spec_foreground(),
                    ),
                ] + step_drawn(*old(self), next_command)),
            old(self).spec_state() is Playing && next_command != Some(Command::Quit) && step_eats(*old(self), next_command) && !has_free_cell(step_body(*old(self), next_command), old(self).spec_board())
                ==> final(self).spec_ops() == old(self).spec_ops() + step_cleared(*old(self))
                + score_render_ops(
                final(self).spec_score() as int,
                old(self).spec_renderer().spec_background(),
            ) + step_drawn(*old(self), next_command),
    {
        match self.game_state {
            GameState::Playing => self.playing_state_game_loop(next_command),
            GameState::GameOver => self.playing_state_game_over_loop(next_command),
            GameState::Quit => {},
        }
    }

    #[verifier::rlimit(100)]
    fn playing_state_game_loop(&mut self, next_command: Option<Command>)
        requires
            old(self).wf(),
            old(self).renderer_ready(),
            old(self).spec_state() is Playing,
        ensures
            final(self).wf(),
            final(self).renderer_ready(),
            playing_step(*old(self), *final(self), next_command),
            next_command != Some(Command::Quit) && !step_eats(*old(self), next_command) ==> final(self).spec_ops() == old(self).spec_ops() + step_cleared(*old(self)) + step_drawn(
                *old(self),
                next_command,
            ),
            next_command != Some(Command::Quit) && step_eats(*old(self), next_command) && has_free_cell(
                step_body(*old(self), next_command),
                old(self).spec_board(),
            ) ==> (exists|g: char|
                #[trigger] fruit_glyphs().contains(g) && final(self).spec_ops() == old(self).spec_ops() + step_cleared(*old(self)) + score_render_ops(
                    final(self).spec_score() as int,
                    old(self).spec_renderer().spec_background(),
                ) + seq![
                    ScreenOp::Glyph(
                        final(self).spec_fruit(),
                        g,
                        old(self).spec_renderer().spec_foreground(),
                    ),
                ] + step_drawn(*old(self), next_command)),
            next_command != Some(Command::Quit) && step_eats(*old(self), next_command) && !has_free_cell(
                step_body(*old(self), next_command),
                old(self).spec_board(),
            ) ==> final(self).spec_ops() == old(self).spec_ops() + step_cleared(*old(self))
                + score_render_ops(
                final(self).spec_score() as int,
                old(self).spec_renderer().spec_background(),
            ) + step_drawn(*old(self), next_command),
    {
        if let Some(Command::Quit) = next_command {
            self.game_state = GameState::Quit;
            return;
        }
        if let Some(Command::Turn(direction)) = next_command {
            if direction != self.moving_direction && direction != self.moving_direction.opposite() {
                self.moving_direction = direction;
            }
        }
        proof {
            assert(self.spec_heading() == step_heading(*old(self), next_command));
        }

        self.renderer.clear_points(self.snake.borrow_body());

        let heading = self.moving_direction;
        let eating = self.is_snake_eating_fruit(heading);
        let ghost mut ops_before_fruit: Seq<ScreenOp> = Seq::empty();
        let ghost mut ops_after_fruit: Seq<ScreenOp> = Seq::empty();
        if eating {
            self.snake.move_and_grow_in_direction(heading);
            self.score = if self.score <= u16::MAX - FRUIT_BONUS {
                self.score + FRUIT_BONUS
            } else {
                u16::MAX
            };
            self.render_score();
            proof {
                ops_before_fruit = self.spec_ops();
            }
            self.place_fruit_somewhere_on_board();
            proof {
                ops_after_fruit = self.spec_ops();
            }
        } else {
            self.snake.move_in_direction(heading);
        }

        self.renderer.draw_points(self.snake.borrow_body(), '@');
        self.renderer.draw_point(self.snake.borrow_head(), '🐸');

        let dying = self.is_snake_hitting_borders() || self.snake.is_overlapping_self();
        if dying {
            self.renderer.draw_point(self.snake.borrow_head(), '💀');
            self.game_state = GameState::GameOver;
        } else {
            self.game_state = GameState::Playing;
        }

        proof {
            let pre = *old(self);
            let fg = pre.spec_renderer().spec_foreground();
            let bg = pre.spec_renderer().spec_background();
            assert(self.spec_body() == step_body(pre, next_command));
            assert(self.spec_head() == step_new_head(pre, next_command));
            assert(dying == step_dead(pre, next_command));
            if !dying {
                assert(in_playable_area(self.spec_head(), pre.spec_board()));
            }
            if step_eats(pre, next_command) {
                if has_free_cell(step_body(pre, next_command), pre.spec_board()) {
                    let g = choose|g: char|
                        fruit_glyphs().contains(g) && ops_after_fruit == ops_before_fruit.push(
                            ScreenOp::Glyph(self.spec_fruit(), g, fg),
                        );
                    assert(self.spec_ops() =~= pre.spec_ops() + step_cleared(pre)
                        + score_render_ops(self.spec_score() as int, bg) + seq![
                        ScreenOp::Glyph(self.spec_fruit(), g, fg),
                    ] + step_drawn(pre, next_command));
                } else {
                    assert(self.spec_ops() =~= pre.spec_ops() + step_cleared(pre)
                        + score_render_ops(self.spec_score() as int, bg) + step_drawn(
                        pre,
                        next_command,
                    ));
                }
            } else {
                assert(self.spec_ops() =~= pre.spec_ops() + step_cleared(pre) + step_drawn(
                    pre,
                    next_command,
                ));
            }
        }
    }

    fn playing_state_game_over_loop(&mut self, next_command: Option<Command>)
        requires
            old(self).wf(),
            old(self).renderer_ready(),
            old(self).spec_state() is GameOver,
        ensures
            final(self).wf(),
            final(self).renderer_ready(),
            game_over_step(*old(self), *final(self), next_command),
    {
        if let Some(Command::Quit) = next_command {
            self.game_state = GameState::Quit;
            return;
        }
        let text = game_over_line(self.show_blinking_text);
        let at = Point { x: self.board_size.0 / 2 - 4, y: self.board_size.1 / 2 + 2 };
        self.renderer.draw_text(&text, &at);
        self.show_blinking_text = !self.show_blinking_text;
    }

    fn render_score(&mut self)
        requires
            old(self).renderer_ready(),
        ensures
            final(self).renderer_ready(),
            final(self).spec_state() == old(self).spec_state(),
            final(self).spec_score() == old(self).spec_score(),
            final(self).spec_body() == old(self).spec_body(),
            final(self).spec_fruit() == old(self).spec_fruit(),
            final(self).spec_heading() == old(self).spec_heading(),
            final(self).spec_blink() == old(self).spec_blink(),
            Game::same_settings(*old(self), *final(self)),
            final(self).spec_ops() == old(self).spec_ops() + score_render_ops(
                old(self).spec_score() as int,
                old(self).spec_renderer().spec_background(),
            ),
    {
        let text = score_line(self.score);
        self.renderer.clear_line(0);
        self.renderer.draw_text(&text, &Point { x: 1, y: 0 });
        proof {
            assert(self.spec_ops() =~= old(self).spec_ops() + score_render_ops(
                old(self).spec_score() as int,
                old(self).spec_renderer().spec_background(),
            ));
        }
    }

    /// Picks the new fruit cell: among every playable cell not occupied by
    /// the snake body, one is chosen at random and drawn with a random
    /// fruit glyph. When no cell is free the fruit (and the screen) stay as
    /// they are.
    fn place_fruit_somewhere_on_board(&mut self)
        requires
            old(self).config_wf(),
            old(self).spec_body().len() >= 1,
            old(self).renderer_ready(),
        ensures
            final(self).renderer_ready(),
            final(self).spec_state() == old(self).spec_state(),
            final(self).spec_score() == old(self).spec_score(),
            final(self).spec_body() == old(self).spec_body(),
            final(self).spec_heading() == old(self).spec_heading(),
            final(self).spec_blink() == old(self).spec_blink(),
            Game::same_settings(*old(self), *final(self)),
            fruit_relocated(
                old(self).spec_body(),
                old(self).spec_board(),
                old(self).spec_fruit(),
                final(self).spec_fruit(),
            ),
            has_free_cell(old(self).spec_body(), old(self).spec_board()) ==> (exists|g: char|
                #[trigger] fruit_glyphs().contains(g) && final(self).spec_ops() == old(self).spec_ops().push(
                    ScreenOp::Glyph(
                        final(self).spec_fruit(),
                        g,
                        old(self).spec_renderer().spec_foreground(),
                    ),
                )),
            !has_free_cell(old(self).spec_body(), old(self).spec_board()) ==> final(self).spec_ops()
                == old(self).spec_ops(),
    {
        let w = self.board_size.0;
        let h = self.board_size.1;
        let y_end = h + 2;
        let ghost board = self.spec_board();
        let body = self.snake.borrow_body();
        let mut free: Vec<Point> = Vec::new();
        let mut x: u16 = 1;
        while x < w
            invariant
                1 <= x <= w,
                8 <= w,
                6 <= h,
                y_end == h + 2,
                board == (w, h),
                forall|k: int|
                    0 <= k < free@.len() ==> free_fruit_cell(#[trigger] free@[k], body@, board),
                forall|p: Point|
                    p.x < x && free_fruit_cell(p, body@, board) ==> #[trigger] free@.contains(p),
            decreases w - x,
        {
            let mut y: u16 = 3;
            while y < y_end
                invariant
                    3 <= y <= y_end,
                    1 <= x < w,
                    6 <= h,
                    y_end == h + 2,
                    board == (w, h),
                    forall|k: int|
                        0 <= k < free@.len() ==> free_fruit_cell(#[trigger] free@[k], body@, board),
                    forall|p: Point|
                        p.x < x && free_fruit_cell(p, body@, board) ==> #[trigger] free@.contains(
                            p,
                        ),
                    forall|p: Point|
                        p.x == x && p.y < y && free_fruit_cell(p, body@, board)
                            ==> #[trigger] free@.contains(p),
                decreases y_end - y,
            {
                let candidate = Point { x, y };
                let ghost prev = free@;
                if !points_contain(body, candidate) {
                    free.push(candidate);
                    proof {
                        assert(free@[free@.len() - 1] == candidate);
                        assert(free@.contains(candidate));
                        assert(free_fruit_cell(candidate, body@, board));
                    }
                }
                proof {
                    assert forall|p: Point| prev.contains(p) implies free@.contains(p) by {
                        let i = choose|i: int| 0 <= i < prev.len() && prev[i] == p;
                        assert(free@[i] == p);
                    }
                    assert forall|p: Point|
                        p.x == x && p.y < y + 1 && free_fruit_cell(p, body@, board) implies free@
                        .contains(p) by {
                        if p.y < y {
                            assert(prev.contains(p));
                        } else {
                            assert(p == candidate);
                        }
                    }
                    assert forall|p: Point|
                        p.x < x && free_fruit_cell(p, body@, board) implies free@.contains(p) by {
                        assert(prev.contains(p));
                    }
                }
                y = y + 1;
            }
            x = x + 1;
        }

        if free.len() > 0 {
            match choose_one::<Point>(&free) {
                Some(p) => {
                    self.fruit_position = p;
                    let glyphs: Vec<char> = make_fruit_glyphs();
                    match choose_one::<char>(&glyphs) {
                        Some(g) => {
                            let fp = self.fruit_position;
                            self.renderer.draw_point(&Point { x: fp.x, y: fp.y }, g);
                        },
                        None => {
                            proof {
                                assert(false);
                            }
                        },
                    }
                },
                None => {
                    proof {
                        assert(false);
                    }
                },
            }
        } else {
            proof {
                assert forall|p: Point|
                    !free_fruit_cell(p, old(self).spec_body(), old(self).spec_board()) by {
                    if free_fruit_cell(p, old(self).spec_body(), old(self).spec_board()) {
                        assert(free@.contains(p));
                    }
                }
            }
        }
    }

    fn is_snake_eating_fruit(&self, heading: Direction) -> (r: bool)
        requires
            self.spec_body().len() >= 1,
            self.spec_head().can_transform(heading, 1),
        ensures
            r == (self.spec_head().transformed(heading, 1) == self.spec_fruit()),
    {
        let next_head = self.snake.borrow_head().transform(&heading, 1);
        next_head == self.fruit_position
    }

    fn is_snake_hitting_borders(&self) -> (r: bool)
        requires
            self.config_wf(),
            self.spec_body().len() >= 1,
        ensures
            r == hits_border(self.spec_head(), self.spec_board()),
    {
        let head = self.snake.borrow_head();
        head.x == 0 || head.x == self.board_size.0 || head.y == 2 || head.y == self.board_size.1 + 2
    }
}

/// Whether a run of cells contains one given cell.
fn points_contain(points: &Vec<Point>, p: Point) -> (r: bool)
    ensures
        r == points@.contains(p),
{
    let mut i: usize = 0;
    while i < points.len()
        invariant
            i <= points@.len(),
            forall|j: int| 0 <= j < i ==> points@[j] != p,
        decreases points@.len() - i,
    {
        if points[i] == p {
            proof {
                assert(points@.contains(p));
            }
            return true;
        }
        i = i + 1;
    }
    false
}

/// The fruit glyph palette as a value.
fn make_fruit_glyphs() -> (r: Vec<char>)
    ensures
        r@ == fruit_glyphs(),
{
    let mut r: Vec<char> = Vec::new();
    r.push('🍎');
    r.push('🍏');
    r.push('🍑');
    r.push('🍒');
    r.push('🍊');
    r.push('🍓');
    r.push('🍇');
    r.push('🍉');
    r.push('🍌');
    r.push('🍍');
    proof {
        assert(r@ =~= fruit_glyphs());
    }
    r
}

/// A 180-degree reversal is always rejected: given the command to reverse,
/// a Playing tick leaves the heading unchanged and moves the head one step
/// along the current heading, never along the reversed one.
pub proof fn lemma_reversal_rejected(pre: Game, post: Game)
    requires
        playing_step(pre, post, Some(Command::Turn(pre.spec_heading().spec_opposite()))),
    ensures
        post.spec_heading() == pre.spec_heading(),
        post.spec_body()[0] == pre.spec_head().transformed(pre.spec_heading(), 1),
{
    crate::direction::lemma_opposite_involutive(pre.spec_heading());
}

} // verus!
