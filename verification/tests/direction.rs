use desktop_snake::direction::{Axis, Direction, Key};

const ALL: [Direction; 4] = [Direction::Up, Direction::Down, Direction::Left, Direction::Right];

#[test]
fn right_accepts_up() {
    assert!(Direction::Right.accepts_turn(Direction::Up));
    assert_eq!(Direction::Right.turn(Direction::Up), Direction::Up);
}

#[test]
fn right_rejects_left() {
    assert!(!Direction::Right.accepts_turn(Direction::Left));
    assert_eq!(Direction::Right.turn(Direction::Left), Direction::Right);
}

#[test]
fn right_rejects_right() {
    assert!(!Direction::Right.accepts_turn(Direction::Right));
    assert_eq!(Direction::Right.turn(Direction::Right), Direction::Right);
}

#[test]
fn turn_is_accepted_exactly_across_axes() {
    for current in ALL {
        for candidate in ALL {
            let across = current.axis() != candidate.axis();
            assert_eq!(current.accepts_turn(candidate), across);
            let expected = if across { candidate } else { current };
            assert_eq!(current.turn(candidate), expected);
        }
    }
}

#[test]
fn axes_of_the_directions() {
    assert_eq!(Direction::Up.axis(), Axis::Vertical);
    assert_eq!(Direction::Down.axis(), Axis::Vertical);
    assert_eq!(Direction::Left.axis(), Axis::Horizontal);
    assert_eq!(Direction::Right.axis(), Axis::Horizontal);
}

#[test]
fn arrow_keys_ask_for_their_direction() {
    assert_eq!(Direction::from_key(Key::UpArrow), Some(Direction::Up));
    assert_eq!(Direction::from_key(Key::DownArrow), Some(Direction::Down));
    assert_eq!(Direction::from_key(Key::LeftArrow), Some(Direction::Left));
    assert_eq!(Direction::from_key(Key::RightArrow), Some(Direction::Right));
    assert_eq!(Direction::from_key(Key::Other), None);
}

#[test]
fn other_keys_change_nothing() {
    for current in ALL {
        assert_eq!(current.after_key(Key::Other), current);
    }
}

#[test]
fn key_presses_turn_only_across_axes() {
    assert_eq!(Direction::Right.after_key(Key::UpArrow), Direction::Up);
    assert_eq!(Direction::Right.after_key(Key::DownArrow), Direction::Down);
    assert_eq!(Direction::Right.after_key(Key::LeftArrow), Direction::Right);
    assert_eq!(Direction::Right.after_key(Key::RightArrow), Direction::Right);
    assert_eq!(Direction::Up.after_key(Key::DownArrow), Direction::Up);
    assert_eq!(Direction::Up.after_key(Key::LeftArrow), Direction::Left);
    assert_eq!(Direction::Down.after_key(Key::RightArrow), Direction::Right);
    assert_eq!(Direction::Left.after_key(Key::RightArrow), Direction::Left);
}

#[test]
fn last_accepted_turn_wins() {
    let mut direction = Direction::initial();
    for key in [Key::UpArrow, Key::DownArrow, Key::LeftArrow, Key::RightArrow] {
        direction = direction.after_key(key);
    }
    assert_eq!(direction, Direction::Left);
}

#[test]
fn game_starts_to_the_right() {
    assert_eq!(Direction::initial(), Direction::Right);
}
