use snake_game::coord::Coord;
use snake_game::food::Food;
use snake_game::snake::Snake;

fn row(y: i32, from: i32, to: i32) -> Vec<Coord> {
    (from..=to).map(|x| Coord::new(y, x)).collect()
}

#[test]
fn place_among_takes_the_first_candidate_when_it_is_free() {
    let snake = Snake::from_coords(&row(3, 1, 3));
    let candidates = [Coord::new(2, 2), Coord::new(5, 5), Coord::new(1, 1)];
    assert_eq!(Food::place_among(&candidates, &snake, 20, 80), Food { coord: Coord::new(2, 2) });
}

#[test]
fn place_among_skips_candidates_on_the_snake() {
    let snake = Snake::from_coords(&row(3, 1, 3));
    let candidates = [Coord::new(3, 3), Coord::new(3, 1), Coord::new(3, 2), Coord::new(3, 4)];
    assert_eq!(Food::place_among(&candidates, &snake, 20, 80), Food { coord: Coord::new(3, 4) });
}

#[test]
fn place_among_skips_candidates_outside_the_interior() {
    let snake = Snake::from_coords(&row(3, 1, 3));
    let candidates = [
        Coord::new(0, 5),
        Coord::new(20, 5),
        Coord::new(5, 0),
        Coord::new(5, 80),
        Coord::new(-1, 5),
        Coord::new(5, 81),
        Coord::new(19, 79),
        Coord::new(1, 1),
    ];
    assert_eq!(Food::place_among(&candidates, &snake, 20, 80), Food { coord: Coord::new(19, 79) });
}

#[test]
fn place_among_falls_back_on_the_first_free_cell() {
    let snake = Snake::from_coords(&row(1, 1, 3));
    let candidates = [Coord::new(1, 1), Coord::new(1, 3), Coord::new(1, 2), Coord::new(0, 0)];
    assert_eq!(Food::place_among(&candidates, &snake, 20, 80), Food { coord: Coord::new(1, 4) });
    assert_eq!(Food::place_among(&candidates, &snake, 4, 4), Food { coord: Coord::new(2, 1) });
}

#[test]
fn place_among_no_candidates_is_the_first_free_cell() {
    let snake = Snake::from_coords(&row(3, 1, 3));
    assert_eq!(Food::place_among(&[], &snake, 20, 80), Food { coord: Coord::new(1, 1) });
}

#[test]
fn place_among_takes_a_repeated_candidate_once_it_is_reached() {
    let snake = Snake::from_coords(&row(3, 1, 3));
    let candidates = [Coord::new(3, 2), Coord::new(7, 7), Coord::new(7, 7), Coord::new(2, 2)];
    assert_eq!(Food::place_among(&candidates, &snake, 20, 80), Food { coord: Coord::new(7, 7) });
}

#[test]
fn first_free_on_an_empty_board_is_the_top_left_cell() {
    let snake = Snake::from_coords(&row(10, 17, 23));
    assert_eq!(Food::first_free(&snake, 20, 80), Some(Food { coord: Coord::new(1, 1) }));
}

#[test]
fn first_free_skips_the_snake() {
    let snake = Snake::from_coords(&row(1, 1, 5));
    assert_eq!(Food::first_free(&snake, 20, 80), Some(Food { coord: Coord::new(1, 6) }));
}

#[test]
fn first_free_goes_on_to_the_next_row() {
    let snake = Snake::from_coords(&row(1, 1, 3));
    assert_eq!(Food::first_free(&snake, 4, 4), Some(Food { coord: Coord::new(2, 1) }));
}

#[test]
fn first_free_on_a_full_board_is_none() {
    let mut all = row(1, 1, 3);
    all.extend(row(2, 1, 3));
    let snake = Snake::from_coords(&all);
    assert_eq!(Food::first_free(&snake, 3, 4), None);
}

#[test]
fn first_free_without_interior_is_none() {
    let snake = Snake::new();
    assert_eq!(Food::first_free(&snake, 1, 80), None);
    assert_eq!(Food::first_free(&snake, 20, 1), None);
    assert_eq!(Food::first_free(&snake, 0, 0), None);
    assert_eq!(Food::first_free(&snake, -5, 7), None);
}

#[test]
fn first_free_ignores_cells_outside_the_walls() {
    let snake = Snake::from_coords(&[Coord::new(0, 1), Coord::new(1, 0), Coord::new(2, 2)]);
    assert_eq!(Food::first_free(&snake, 2, 2), Some(Food { coord: Coord::new(1, 1) }));
}

#[test]
fn place_stays_inside_the_walls_and_off_the_snake() {
    let snake = Snake::from_coords(&row(10, 17, 23));
    for _ in 0..500 {
        let food = Food::place(&snake, 20, 80);
        assert!(0 < food.coord.y && food.coord.y < 20);
        assert!(0 < food.coord.x && food.coord.x < 80);
        assert!(!snake.occupies(food.coord));
    }
}

#[test]
fn place_draws_more_than_one_cell() {
    let snake = Snake::from_coords(&row(10, 17, 23));
    let first = Food::place(&snake, 20, 80);
    let mut rows_differ = false;
    let mut columns_differ = false;
    for _ in 0..500 {
        let food = Food::place(&snake, 20, 80);
        rows_differ = rows_differ || food.coord.y != first.coord.y;
        columns_differ = columns_differ || food.coord.x != first.coord.x;
    }
    assert!(rows_differ);
    assert!(columns_differ);
}

#[test]
fn place_reaches_the_last_row_and_column() {
    let snake = Snake::new();
    let mut bottom = false;
    let mut right = false;
    let mut top = false;
    let mut left = false;
    for _ in 0..2000 {
        let food = Food::place(&snake, 3, 3);
        top = top || food.coord.y == 1;
        bottom = bottom || food.coord.y == 2;
        left = left || food.coord.x == 1;
        right = right || food.coord.x == 2;
    }
    assert!(top && bottom && left && right);
}

#[test]
fn place_finds_the_only_free_cell() {
    let mut all = row(1, 1, 3);
    all.extend(row(2, 1, 2));
    let snake = Snake::from_coords(&all);
    for _ in 0..20 {
        assert_eq!(Food::place(&snake, 3, 4), Food { coord: Coord::new(2, 3) });
    }
}

#[test]
fn place_on_the_smallest_boards() {
    let snake = Snake::from_coords(&row(1, 1, 7));
    assert_eq!(Food::place(&snake, 2, 9), Food { coord: Coord::new(1, 8) });
    let snake = Snake::from_coords(&row(1, 1, 7));
    let food = Food::place(&snake, 3, 8);
    assert_eq!(food.coord.y, 2);
    assert!(1 <= food.coord.x && food.coord.x <= 7);
}
