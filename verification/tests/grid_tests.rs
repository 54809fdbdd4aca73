use game_of_life::grid::{count_neighbours, in_bounds, is_alive, Canvas, ALIVE, DEAD, HEIGHT, WIDTH};

fn empty_canvas() -> Canvas {
    [[DEAD; HEIGHT]; WIDTH]
}

fn full_canvas() -> Canvas {
    [[ALIVE; HEIGHT]; WIDTH]
}

#[test]
fn grid_is_thirty_two_by_thirty_two() {
    assert_eq!(WIDTH, 32);
    assert_eq!(HEIGHT, 32);
}

#[test]
fn cell_values_are_zero_and_full() {
    assert_eq!(DEAD, 0);
    assert_eq!(ALIVE, 255);
}

#[test]
fn in_bounds_accepts_every_corner() {
    assert!(in_bounds(0, 0));
    assert!(in_bounds(31, 0));
    assert!(in_bounds(0, 31));
    assert!(in_bounds(31, 31));
    assert!(in_bounds(16, 7));
}

#[test]
fn in_bounds_refuses_one_step_outside() {
    assert!(!in_bounds(-1, 0));
    assert!(!in_bounds(0, -1));
    assert!(!in_bounds(32, 0));
    assert!(!in_bounds(0, 32));
    assert!(!in_bounds(32, 32));
    assert!(!in_bounds(-1, -1));
}

#[test]
fn in_bounds_refuses_extreme_numbers() {
    assert!(!in_bounds(i64::MIN, 0));
    assert!(!in_bounds(0, i64::MIN));
    assert!(!in_bounds(i64::MAX, 0));
    assert!(!in_bounds(0, i64::MAX));
}

#[test]
fn is_alive_reads_the_cell_by_column_then_row() {
    let mut canvas: Canvas = empty_canvas();
    canvas[3][5] = ALIVE;
    assert!(is_alive(&canvas, 3, 5));
    assert!(!is_alive(&canvas, 5, 3));
    assert!(!is_alive(&canvas, 3, 4));
}

#[test]
fn is_alive_takes_any_value_but_zero_as_alive() {
    let mut canvas: Canvas = empty_canvas();
    canvas[0][0] = 1;
    canvas[1][0] = 128;
    canvas[2][0] = 255;
    assert!(is_alive(&canvas, 0, 0));
    assert!(is_alive(&canvas, 1, 0));
    assert!(is_alive(&canvas, 2, 0));
    assert!(!is_alive(&canvas, 3, 0));
}

#[test]
fn is_alive_is_false_outside_the_grid() {
    let canvas: Canvas = full_canvas();
    assert!(!is_alive(&canvas, -1, 0));
    assert!(!is_alive(&canvas, 0, -1));
    assert!(!is_alive(&canvas, 32, 0));
    assert!(!is_alive(&canvas, 0, 32));
    assert!(!is_alive(&canvas, i64::MAX, i64::MIN));
}

#[test]
fn count_is_zero_on_an_empty_canvas() {
    let canvas: Canvas = empty_canvas();
    assert_eq!(count_neighbours(0, 0, canvas), 0);
    assert_eq!(count_neighbours(16, 16, canvas), 0);
    assert_eq!(count_neighbours(31, 31, canvas), 0);
}

#[test]
fn count_leaves_the_cell_itself_out() {
    let mut canvas: Canvas = empty_canvas();
    canvas[10][10] = ALIVE;
    assert_eq!(count_neighbours(10, 10, canvas), 0);
}

#[test]
fn count_sees_each_of_the_eight_directions() {
    let offsets: [(i64, i64); 8] =
        [(-1, -1), (0, -1), (1, -1), (1, 0), (1, 1), (0, 1), (-1, 1), (-1, 0)];
    for (dx, dy) in offsets {
        let mut canvas: Canvas = empty_canvas();
        canvas[(10 + dx) as usize][(20 + dy) as usize] = ALIVE;
        assert_eq!(count_neighbours(10, 20, canvas), 1, "offset ({dx}, {dy})");
    }
}

#[test]
fn count_ignores_cells_two_steps_away() {
    let mut canvas: Canvas = empty_canvas();
    canvas[12][10] = ALIVE;
    canvas[10][12] = ALIVE;
    canvas[8][8] = ALIVE;
    canvas[12][12] = ALIVE;
    assert_eq!(count_neighbours(10, 10, canvas), 0);
}

#[test]
fn count_on_a_full_canvas_is_eight_inside() {
    let canvas: Canvas = full_canvas();
    assert_eq!(count_neighbours(1, 1, canvas), 8);
    assert_eq!(count_neighbours(16, 16, canvas), 8);
    assert_eq!(count_neighbours(30, 30, canvas), 8);
}

#[test]
fn count_on_a_full_canvas_is_five_on_an_edge() {
    let canvas: Canvas = full_canvas();
    assert_eq!(count_neighbours(0, 16, canvas), 5);
    assert_eq!(count_neighbours(31, 16, canvas), 5);
    assert_eq!(count_neighbours(16, 0, canvas), 5);
    assert_eq!(count_neighbours(16, 31, canvas), 5);
}

#[test]
fn count_on_a_full_canvas_is_three_in_a_corner() {
    let canvas: Canvas = full_canvas();
    assert_eq!(count_neighbours(0, 0, canvas), 3);
    assert_eq!(count_neighbours(31, 0, canvas), 3);
    assert_eq!(count_neighbours(0, 31, canvas), 3);
    assert_eq!(count_neighbours(31, 31, canvas), 3);
}

#[test]
fn count_includes_neighbours_in_the_first_row_and_column() {
    let mut canvas: Canvas = empty_canvas();
    canvas[0][0] = ALIVE;
    canvas[1][0] = ALIVE;
    canvas[2][0] = ALIVE;
    canvas[0][1] = ALIVE;
    canvas[0][2] = ALIVE;
    // (1, 1) touches row 0 and column 0.
    assert_eq!(count_neighbours(1, 1, canvas), 5);
    // (1, 0) lies in row 0 itself.
    assert_eq!(count_neighbours(1, 0, canvas), 3);
}

#[test]
fn count_includes_neighbours_in_the_last_row_and_column() {
    let mut canvas: Canvas = empty_canvas();
    canvas[31][31] = ALIVE;
    canvas[30][31] = ALIVE;
    canvas[31][30] = ALIVE;
    assert_eq!(count_neighbours(30, 30, canvas), 3);
    assert_eq!(count_neighbours(31, 31, canvas), 2);
}

#[test]
fn count_does_not_wrap_around_the_edges() {
    let mut canvas: Canvas = empty_canvas();
    // Everything a torus would put next to (0, 0), and nothing the grid does.
    canvas[31][0] = ALIVE;
    canvas[31][1] = ALIVE;
    canvas[31][31] = ALIVE;
    canvas[0][31] = ALIVE;
    canvas[1][31] = ALIVE;
    assert_eq!(count_neighbours(0, 0, canvas), 0);
}

#[test]
fn count_just_outside_the_grid_sees_the_cells_it_touches() {
    let mut canvas: Canvas = empty_canvas();
    canvas[31][31] = ALIVE;
    canvas[31][30] = ALIVE;
    assert_eq!(count_neighbours(32, 32, canvas), 1);
    assert_eq!(count_neighbours(32, 31, canvas), 2);
}

#[test]
fn count_far_outside_the_grid_is_zero() {
    let canvas: Canvas = full_canvas();
    assert_eq!(count_neighbours(33, 0, canvas), 0);
    assert_eq!(count_neighbours(0, 33, canvas), 0);
    assert_eq!(count_neighbours(usize::MAX, usize::MAX, canvas), 0);
}
