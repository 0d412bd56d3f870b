use snake::direction::Direction;
use snake::point::Point;
use snake::snake::Snake;

fn pt(x: u16, y: u16) -> Point {
    Point { x, y }
}

#[test]
fn transform_moves_one_axis() {
    let p = pt(5, 5);
    assert_eq!(p.transform(&Direction::Up, 1), pt(5, 4));
    assert_eq!(p.transform(&Direction::Down, 1), pt(5, 6));
    assert_eq!(p.transform(&Direction::Left, 1), pt(4, 5));
    assert_eq!(p.transform(&Direction::Right, 1), pt(6, 5));
    assert_eq!(p.transform(&Direction::Down, 3), pt(5, 8));
    assert_eq!(p.transform(&Direction::Left, 5), pt(0, 5));
}

#[test]
fn opposite_is_an_involution() {
    for d in [Direction::Up, Direction::Down, Direction::Left, Direction::Right] {
        assert_ne!(d.opposite(), d);
        assert_eq!(d.opposite().opposite(), d);
    }
    assert_eq!(Direction::Up.opposite(), Direction::Down);
    assert_eq!(Direction::Left.opposite(), Direction::Right);
}

#[test]
fn new_snake_trails_opposite_to_direction() {
    let s = Snake::new(pt(5, 5), 3, Direction::Up);
    assert_eq!(*s.borrow_body(), vec![pt(5, 5), pt(5, 6), pt(5, 7)]);
    assert_eq!(*s.borrow_head(), pt(5, 5));

    let s = Snake::new(pt(10, 4), 4, Direction::Left);
    assert_eq!(*s.borrow_body(), vec![pt(10, 4), pt(11, 4), pt(12, 4), pt(13, 4)]);
}

#[test]
fn new_snake_has_at_least_one_cell() {
    let s = Snake::new(pt(7, 7), 0, Direction::Down);
    assert_eq!(*s.borrow_body(), vec![pt(7, 7)]);
    let s = Snake::new(pt(7, 7), 1, Direction::Right);
    assert_eq!(*s.borrow_body(), vec![pt(7, 7)]);
}

#[test]
fn move_preserves_length() {
    let mut s = Snake::new(pt(5, 5), 3, Direction::Up);
    s.move_in_direction(Direction::Up);
    assert_eq!(s.borrow_body().len(), 3);
    s.move_in_direction(Direction::Left);
    assert_eq!(s.borrow_body().len(), 3);
}

#[test]
fn grow_increases_length_by_one() {
    let mut s = Snake::new(pt(5, 5), 3, Direction::Up);
    s.move_and_grow_in_direction(Direction::Up);
    assert_eq!(s.borrow_body().len(), 4);
    assert_eq!(*s.borrow_head(), pt(5, 4));
    s.move_and_grow_in_direction(Direction::Left);
    assert_eq!(s.borrow_body().len(), 5);
}

#[test]
fn scenario_turn_left_from_up() {
    let mut s = Snake::new(pt(5, 5), 3, Direction::Up);
    assert_eq!(*s.borrow_body(), vec![pt(5, 5), pt(5, 6), pt(5, 7)]);
    s.move_in_direction(Direction::Left);
    assert_eq!(*s.borrow_head(), pt(4, 5));
    assert_eq!(*s.borrow_body(), vec![pt(4, 5), pt(5, 5), pt(5, 6)]);
}

#[test]
fn is_bumping_at_point_checks_the_head() {
    let s = Snake::new(pt(5, 5), 3, Direction::Up);
    assert!(s.is_bumping_at_point(&pt(5, 5)));
    assert!(!s.is_bumping_at_point(&pt(5, 6)));
    assert!(!s.is_bumping_at_point(&pt(4, 5)));
}

#[test]
fn straight_snake_does_not_overlap() {
    let s = Snake::new(pt(5, 5), 5, Direction::Up);
    assert!(!s.is_overlapping_self());
}

#[test]
fn snake_overlaps_after_turning_onto_itself() {
    let mut s = Snake::new(pt(5, 5), 5, Direction::Up);
    s.move_in_direction(Direction::Left);
    assert!(!s.is_overlapping_self());
    s.move_in_direction(Direction::Down);
    assert!(!s.is_overlapping_self());
    s.move_in_direction(Direction::Right);
    assert!(s.is_overlapping_self());
}
