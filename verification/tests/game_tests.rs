use snake::command::Command;
use snake::direction::Direction;
use snake::game::{Game, GameState};
use snake::point::Point;
use snake::render::{Color, RenderOp};

fn pt(x: u16, y: u16) -> Point {
    Point { x, y }
}

const FRUIT_GLYPHS: [char; 10] = ['🍎', '🍏', '🍑', '🍒', '🍊', '🍓', '🍇', '🍉', '🍌', '🍍'];

fn started_game() -> Game {
    let mut game = Game::new((50, 27), 12);
    game.start();
    game
}

#[test]
fn new_game_starts_centered_heading_up() {
    let game = Game::new((50, 27), 12);
    assert_eq!(game.score(), 0);
    assert_eq!(game.game_state(), GameState::Playing);
    assert_eq!(game.moving_direction(), Direction::Up);
    assert_eq!(
        *game.borrow_snake().borrow_body(),
        vec![pt(25, 13), pt(25, 14), pt(25, 15)]
    );
    assert!(!game.is_finished());
}

#[test]
fn poll_timeout_is_one_frame_while_playing() {
    let game = Game::new((50, 27), 12);
    assert_eq!(game.poll_timeout_ms(), 83);
    let game = Game::new((50, 27), 20);
    assert_eq!(game.poll_timeout_ms(), 50);
}

#[test]
fn start_renders_the_opening_picture() {
    let mut game = started_game();
    let fruit = game.fruit_position();
    let ops = game.take_render_ops();
    // init, two clears, 2*51 + 2*27 frame cells (a complete ring), 3 body
    // cells, the score line (clear + text), and the fruit glyph
    assert_eq!(ops.len(), 3 + 102 + 54 + 3 + 2 + 1);
    assert_eq!(ops[0], RenderOp::Init(50, 29));
    assert_eq!(ops[1], RenderOp::ClearAll(Color::DarkBlue));
    assert_eq!(ops[2], RenderOp::ClearAll(Color::DarkBlue));
    assert_eq!(ops[3], RenderOp::Glyph(pt(0, 2), '#', Color::Magenta));
    assert_eq!(ops[4], RenderOp::Glyph(pt(0, 29), '#', Color::Magenta));
    // the ring is complete: the bottom-right corner is drawn
    assert_eq!(ops[103], RenderOp::Glyph(pt(50, 2), '#', Color::Magenta));
    assert_eq!(ops[104], RenderOp::Glyph(pt(50, 29), '#', Color::Magenta));
    assert_eq!(ops[105], RenderOp::Glyph(pt(0, 2), '#', Color::Magenta));
    assert_eq!(ops[106], RenderOp::Glyph(pt(50, 2), '#', Color::Magenta));
    assert_eq!(ops[159], RenderOp::Glyph(pt(25, 13), '@', Color::Magenta));
    assert_eq!(ops[160], RenderOp::Glyph(pt(25, 14), '@', Color::Magenta));
    assert_eq!(ops[161], RenderOp::Glyph(pt(25, 15), '@', Color::Magenta));
    assert_eq!(ops[162], RenderOp::ClearLine(0, Color::DarkBlue));
    assert_eq!(
        ops[163],
        RenderOp::Text(
            vec!['S', 'c', 'o', 'r', 'e', ':', ' ', '0'],
            pt(1, 0),
            Color::White
        )
    );
    match &ops[164] {
        RenderOp::Glyph(p, g, c) => {
            assert_eq!(*p, fruit);
            assert!(FRUIT_GLYPHS.contains(g));
            assert_eq!(*c, Color::Magenta);
        }
        other => panic!("expected the fruit glyph, found {:?}", other),
    }
    // the fruit lies on a playable cell and outside the snake
    assert!((1..=49).contains(&fruit.x));
    assert!((3..=28).contains(&fruit.y));
    assert!(!game.borrow_snake().borrow_body().contains(&fruit));
}

#[test]
fn reversal_and_same_direction_are_rejected() {
    let mut game = started_game();
    game.take_render_ops();
    // heading Up: a Down command is a 180-degree reversal
    game.tick(Some(Command::Turn(Direction::Down)));
    assert_eq!(game.moving_direction(), Direction::Up);
    assert_eq!(*game.borrow_snake().borrow_head(), pt(25, 12));
    // a same-direction command changes nothing either
    game.tick(Some(Command::Turn(Direction::Up)));
    assert_eq!(game.moving_direction(), Direction::Up);
    assert_eq!(*game.borrow_snake().borrow_head(), pt(25, 11));
    // a perpendicular command is accepted
    game.tick(Some(Command::Turn(Direction::Left)));
    assert_eq!(game.moving_direction(), Direction::Left);
    assert_eq!(*game.borrow_snake().borrow_head(), pt(24, 11));
}

#[test]
fn quit_command_ends_a_playing_round() {
    let mut game = started_game();
    game.take_render_ops();
    game.tick(Some(Command::Quit));
    assert_eq!(game.game_state(), GameState::Quit);
    assert!(game.is_finished());
    // quitting draws nothing
    assert_eq!(game.take_render_ops(), vec![]);
}

#[test]
fn hitting_the_top_border_ends_the_game() {
    let mut game = started_game();
    game.take_render_ops();
    // march straight up: the head starts at y = 13 and the wall is row 2
    let mut guard = 0;
    while game.game_state() == GameState::Playing && guard < 40 {
        game.tick(None);
        let ops = game.take_render_ops();
        assert!(!ops.is_empty());
        guard += 1;
    }
    assert_eq!(game.game_state(), GameState::GameOver);
    let head = *game.borrow_snake().borrow_head();
    assert_eq!(head.y, 2, "the game must end exactly on the wall row");
}

#[test]
fn game_over_blinks_until_quit() {
    let mut game = started_game();
    game.take_render_ops();
    while game.game_state() == GameState::Playing {
        game.tick(None);
        game.take_render_ops();
    }
    assert_eq!(game.game_state(), GameState::GameOver);
    assert_eq!(game.poll_timeout_ms(), 500);

    // non-Quit inputs leave the state alone and blink the message
    game.tick(None);
    assert_eq!(game.game_state(), GameState::GameOver);
    let ops = game.take_render_ops();
    assert_eq!(
        ops,
        vec![RenderOp::Text(
            "Game Over".chars().collect(),
            pt(21, 15),
            Color::White
        )]
    );

    game.tick(Some(Command::Turn(Direction::Left)));
    assert_eq!(game.game_state(), GameState::GameOver);
    let ops = game.take_render_ops();
    assert_eq!(
        ops,
        vec![RenderOp::Text(vec![' '; 9], pt(21, 15), Color::White)]
    );

    game.tick(None);
    let ops = game.take_render_ops();
    assert_eq!(
        ops,
        vec![RenderOp::Text(
            "Game Over".chars().collect(),
            pt(21, 15),
            Color::White
        )]
    );

    // a Quit input ends the loop
    game.tick(Some(Command::Quit));
    assert_eq!(game.game_state(), GameState::Quit);
    assert!(game.is_finished());
    assert_eq!(game.take_render_ops(), vec![]);
}

fn next_cell(p: Point, d: Direction) -> Point {
    match d {
        Direction::Up => pt(p.x, p.y - 1),
        Direction::Down => pt(p.x, p.y + 1),
        Direction::Left => pt(p.x - 1, p.y),
        Direction::Right => pt(p.x + 1, p.y),
    }
}

fn safe(p: Point) -> bool {
    // strictly inside the frame of a (50, 27) board
    (1..=49).contains(&p.x) && (3..=28).contains(&p.y)
}

/// A simple pilot: prefer a legal turn toward the fruit whose next cell is
/// neither a wall nor the snake's own body.
fn steer(body: &Vec<Point>, fruit: Point, heading: Direction) -> Option<Command> {
    let head = body[0];
    let mut candidates: Vec<Direction> = Vec::new();
    if fruit.x < head.x {
        candidates.push(Direction::Left);
    } else if fruit.x > head.x {
        candidates.push(Direction::Right);
    }
    if fruit.y < head.y {
        candidates.push(Direction::Up);
    } else if fruit.y > head.y {
        candidates.push(Direction::Down);
    }
    candidates.push(heading);
    candidates.extend([
        Direction::Left,
        Direction::Right,
        Direction::Up,
        Direction::Down,
    ]);
    for d in candidates {
        if d == heading.opposite() {
            continue;
        }
        let next = next_cell(head, d);
        if safe(next) && !body.contains(&next) {
            return Some(Command::Turn(d));
        }
    }
    None
}

#[test]
fn eating_fruit_scores_grows_and_relocates() {
    let mut game = started_game();
    game.take_render_ops();
    let mut eaten: u16 = 0;
    let mut prev_score: u16 = 0;
    let mut prev_len = game.borrow_snake().borrow_body().len();
    let mut guard = 0;
    while eaten < 3 && guard < 20000 {
        guard += 1;
        let fruit = game.fruit_position();
        let cmd = steer(game.borrow_snake().borrow_body(), fruit, game.moving_direction());
        game.tick(cmd);
        assert_eq!(game.game_state(), GameState::Playing, "the pilot died");
        let ops = game.take_render_ops();
        let score = game.score();
        let body = game.borrow_snake().borrow_body().clone();
        if score != prev_score {
            // the head landed on the fruit cell this tick
            assert_eq!(score, prev_score + 100);
            assert_eq!(body.len(), prev_len + 1);
            // the relocated fruit is never inside the new body
            let fruit = game.fruit_position();
            assert!(!body.contains(&fruit));
            assert!((1..=49).contains(&fruit.x));
            assert!((3..=28).contains(&fruit.y));
            // the tick redrew the score line and the fruit
            assert!(ops.contains(&RenderOp::ClearLine(0, Color::DarkBlue)));
            let score_chars: Vec<char> =
                format!("Score: {}", score).chars().collect();
            assert!(ops.contains(&RenderOp::Text(score_chars, pt(1, 0), Color::White)));
            assert!(ops.iter().any(|op| match op {
                RenderOp::Glyph(p, g, _) => *p == fruit && FRUIT_GLYPHS.contains(g),
                _ => false,
            }));
            eaten += 1;
            prev_score = score;
            prev_len = body.len();
        } else {
            assert_eq!(body.len(), prev_len);
        }
    }
    assert_eq!(eaten, 3, "the pilot never reached the fruit");
    assert_eq!(game.score(), 300);
}
