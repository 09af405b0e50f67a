use hecto::terminal::Position;

#[test]
fn position_new_keeps_coordinates() {
    let p = Position::new(3, 7);
    assert_eq!(p, Position { col: 3, row: 7 });
}

#[test]
fn position_to_terminal_checks_the_range() {
    assert_eq!(Position::new(5, 9).to_terminal(), Some((5, 9)));
    assert_eq!(Position::new(65535, 0).to_terminal(), Some((65535, 0)));
    assert_eq!(Position::new(65536, 0).to_terminal(), None);
    assert_eq!(Position::new(0, 70000).to_terminal(), None);
}

#[test]
fn position_saturating_sub_stops_at_zero() {
    let p = Position::new(5, 2).saturating_sub(Position::new(3, 4));
    assert_eq!(p, Position { col: 2, row: 0 });
}
