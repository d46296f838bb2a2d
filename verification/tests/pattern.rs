use std::str::FromStr;

use workmate::pattern::{Action, Pattern};

const ALL: [Action; 5] = [Action::Stay, Action::Left, Action::Right, Action::Up, Action::Down];

#[test]
fn back_and_forth_follows_its_table() {
    let pattern = Pattern::BackAndForth;
    assert_eq!(pattern.next_action(Action::Stay), Action::Left);
    assert_eq!(pattern.next_action(Action::Left), Action::Right);
    assert_eq!(pattern.next_action(Action::Right), Action::Left);
    assert_eq!(pattern.next_action(Action::Up), Action::Stay);
    assert_eq!(pattern.next_action(Action::Down), Action::Stay);
}

#[test]
fn back_and_forth_never_goes_up_or_down() {
    for previous in ALL {
        let next = Pattern::BackAndForth.next_action(previous);
        assert_ne!(next, Action::Up);
        assert_ne!(next, Action::Down);
    }
}

#[test]
fn compass_follows_its_table() {
    let pattern = Pattern::Compass;
    assert_eq!(pattern.next_action(Action::Stay), Action::Left);
    assert_eq!(pattern.next_action(Action::Left), Action::Up);
    assert_eq!(pattern.next_action(Action::Up), Action::Right);
    assert_eq!(pattern.next_action(Action::Right), Action::Down);
    assert_eq!(pattern.next_action(Action::Down), Action::Left);
}

#[test]
fn compass_is_back_after_four_steps_and_not_before() {
    for start in [Action::Left, Action::Up, Action::Right, Action::Down] {
        let first = Pattern::Compass.next_action(start);
        let second = Pattern::Compass.next_action(first);
        let third = Pattern::Compass.next_action(second);
        let fourth = Pattern::Compass.next_action(third);
        assert_ne!(first, start);
        assert_ne!(second, start);
        assert_ne!(third, start);
        assert_eq!(fourth, start);
    }
}

#[test]
fn compass_never_stays() {
    for previous in ALL {
        assert_ne!(Pattern::Compass.next_action(previous), Action::Stay);
    }
}

#[test]
fn a_run_back_and_forth_alternates() {
    let mut previous = Action::Stay;
    for tick in 0..100 {
        let action = Pattern::BackAndForth.next_action(previous);
        let expected = if tick % 2 == 0 { Action::Left } else { Action::Right };
        assert_eq!(action, expected);
        previous = action;
    }
}

#[test]
fn a_run_round_the_compass_goes_by_four() {
    let round = [Action::Left, Action::Up, Action::Right, Action::Down];
    let mut previous = Action::Stay;
    for tick in 0..100 {
        let action = Pattern::Compass.next_action(previous);
        assert_eq!(action, round[tick % 4]);
        previous = action;
    }
}

#[test]
fn the_two_names_are_read() {
    assert_eq!(Pattern::from_str("back-and-forth"), Ok(Pattern::BackAndForth));
    assert_eq!(Pattern::from_str("compass"), Ok(Pattern::Compass));
}

#[test]
fn zigzag_is_no_pattern() {
    assert_eq!(Pattern::from_str("zigzag"), Err(String::from("Unknown pattern: zigzag")));
}

#[test]
fn names_are_taken_to_the_letter() {
    assert_eq!(Pattern::from_str("Compass"), Err(String::from("Unknown pattern: Compass")));
    assert_eq!(Pattern::from_str(" compass"), Err(String::from("Unknown pattern:  compass")));
    assert_eq!(Pattern::from_str("compass "), Err(String::from("Unknown pattern: compass ")));
    assert_eq!(Pattern::from_str("back_and_forth"), Err(String::from("Unknown pattern: back_and_forth")));
    assert_eq!(Pattern::from_str("backandforth"), Err(String::from("Unknown pattern: backandforth")));
    assert_eq!(Pattern::from_str(""), Err(String::from("Unknown pattern: ")));
}

#[test]
fn the_error_quotes_what_was_given() {
    assert_eq!(Pattern::from_str("zig zag ✓"), Err(String::from("Unknown pattern: zig zag ✓")));
}

#[test]
fn names_are_read_by_parse_too() {
    assert_eq!("compass".parse::<Pattern>(), Ok(Pattern::Compass));
    assert_eq!("back-and-forth".parse::<Pattern>(), Ok(Pattern::BackAndForth));
    assert_eq!("zigzag".parse::<Pattern>(), Err(String::from("Unknown pattern: zigzag")));
    assert_eq!(<Pattern as FromStr>::from_str("compass"), Ok(Pattern::Compass));
}
