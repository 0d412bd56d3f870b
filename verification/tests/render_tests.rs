use snake::command::{Command, KeyInput};
use snake::direction::Direction;
use snake::point::Point;
use snake::render::{Color, RenderOp, Renderer};
use snake::text::score_line;

fn pt(x: u16, y: u16) -> Point {
    Point { x, y }
}

#[test]
fn key_inputs_map_to_commands() {
    assert_eq!(Command::from_key_input(KeyInput::Esc), Some(Command::Quit));
    assert_eq!(
        Command::from_key_input(KeyInput::Left),
        Some(Command::Turn(Direction::Left))
    );
    assert_eq!(
        Command::from_key_input(KeyInput::Right),
        Some(Command::Turn(Direction::Right))
    );
    assert_eq!(Command::from_key_input(KeyInput::Up), Some(Command::Turn(Direction::Up)));
    assert_eq!(
        Command::from_key_input(KeyInput::Down),
        Some(Command::Turn(Direction::Down))
    );
    assert_eq!(Command::from_key_input(KeyInput::Other), None);
}

#[test]
fn score_line_writes_the_decimal_score() {
    assert_eq!(score_line(0), vec!['S', 'c', 'o', 'r', 'e', ':', ' ', '0']);
    assert_eq!(score_line(100), vec!['S', 'c', 'o', 'r', 'e', ':', ' ', '1', '0', '0']);
    assert_eq!(score_line(407), vec!['S', 'c', 'o', 'r', 'e', ':', ' ', '4', '0', '7']);
    assert_eq!(
        score_line(65535),
        vec!['S', 'c', 'o', 'r', 'e', ':', ' ', '6', '5', '5', '3', '5']
    );
}

#[test]
fn renderer_records_simple_ops_in_order() {
    let mut r = Renderer::new((10, 5), Color::DarkBlue, Color::Magenta);
    r.init();
    r.clear();
    r.clear_line(0);
    r.draw_point(&pt(3, 4), '@');
    r.draw_text(&vec!['h', 'i'], &pt(1, 0));
    r.exit();
    let ops = r.take_ops();
    assert_eq!(
        ops,
        vec![
            RenderOp::Init(10, 5),
            RenderOp::ClearAll(Color::DarkBlue),
            RenderOp::ClearLine(0, Color::DarkBlue),
            RenderOp::Glyph(pt(3, 4), '@', Color::Magenta),
            RenderOp::Text(vec!['h', 'i'], pt(1, 0), Color::White),
            RenderOp::Exit,
        ]
    );
    assert_eq!(r.take_ops(), vec![]);
}

#[test]
fn renderer_draws_and_clears_runs_of_points() {
    let mut r = Renderer::new((10, 5), Color::DarkBlue, Color::Magenta);
    r.init();
    let cells = vec![pt(1, 3), pt(2, 3)];
    r.draw_points(&cells, '@');
    r.clear_points(&cells);
    let ops = r.take_ops();
    assert_eq!(
        ops,
        vec![
            RenderOp::Init(10, 5),
            RenderOp::Glyph(pt(1, 3), '@', Color::Magenta),
            RenderOp::Glyph(pt(2, 3), '@', Color::Magenta),
            RenderOp::Glyph(pt(1, 3), ' ', Color::Magenta),
            RenderOp::Glyph(pt(2, 3), ' ', Color::Magenta),
        ]
    );
}

#[test]
fn renderer_draws_a_rect_frame_edge_by_edge() {
    let mut r = Renderer::new((10, 7), Color::DarkBlue, Color::Magenta);
    r.init();
    r.draw_rect_frame(&pt(0, 2), (3, 2), '#');
    let ops = r.take_ops();
    let g = |x: u16, y: u16| RenderOp::Glyph(pt(x, y), '#', Color::Magenta);
    assert_eq!(
        ops,
        vec![
            RenderOp::Init(10, 7),
            // top and bottom edges, column by column, corners included
            g(0, 2),
            g(0, 4),
            g(1, 2),
            g(1, 4),
            g(2, 2),
            g(2, 4),
            g(3, 2),
            g(3, 4),
            // left and right edges, row by row
            g(0, 2),
            g(3, 2),
            g(0, 3),
            g(3, 3),
        ]
    );
}
