use game_of_life::rules::next_state;

#[test]
fn live_cell_dies_of_underpopulation() {
    assert!(!next_state(true, 0));
    assert!(!next_state(true, 1));
}

#[test]
fn live_cell_survives_with_two_or_three() {
    assert!(next_state(true, 2));
    assert!(next_state(true, 3));
}

#[test]
fn live_cell_dies_of_overpopulation() {
    assert!(!next_state(true, 4));
    assert!(!next_state(true, 5));
    assert!(!next_state(true, 6));
    assert!(!next_state(true, 7));
    assert!(!next_state(true, 8));
}

#[test]
fn dead_cell_is_born_with_exactly_three() {
    assert!(next_state(false, 3));
}

#[test]
fn dead_cell_stays_dead_otherwise() {
    assert!(!next_state(false, 0));
    assert!(!next_state(false, 1));
    assert!(!next_state(false, 2));
    assert!(!next_state(false, 4));
    assert!(!next_state(false, 5));
    assert!(!next_state(false, 6));
    assert!(!next_state(false, 7));
    assert!(!next_state(false, 8));
}

#[test]
fn counts_that_no_grid_gives_leave_the_cell_dead() {
    assert!(!next_state(true, 9));
    assert!(!next_state(false, 255));
}
