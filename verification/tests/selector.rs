use battlesnake::logic::{compute_safe_moves, get_move, possible_move_count};
use battlesnake::{Battlesnake, Board, Coord, Direction, Game, PossibleMoves};

fn coord(x: i32, y: i32) -> Coord {
    Coord { x, y }
}

fn snake(cells: &[(i32, i32)]) -> Battlesnake {
    let body: Vec<Coord> = cells.iter().map(|&(x, y)| coord(x, y)).collect();
    Battlesnake {
        head: body[0],
        body,
    }
}

fn board(width: i32, height: i32, food: &[(i32, i32)], snakes: Vec<Battlesnake>) -> Board {
    Board {
        width,
        height,
        food: food.iter().map(|&(x, y)| coord(x, y)).collect(),
        snakes,
    }
}

fn game() -> Game {
    Game {
        id: String::from("test-game"),
    }
}

fn flags(up: bool, down: bool, left: bool, right: bool) -> PossibleMoves {
    PossibleMoves {
        up,
        down,
        left,
        right,
    }
}

#[test]
fn example_food_and_neck() {
    // Head in the middle, neck below, food above: only `down` is excluded
    // (by the neck; the food filter's try at `down` is a no-op).
    let you = snake(&[(5, 5), (5, 4)]);
    let b = board(11, 11, &[(5, 8)], vec![]);
    assert_eq!(compute_safe_moves(&b, &you), flags(true, false, true, true));
    let turn: u32 = 0;
    let r = get_move(&game(), &turn, &b, &you);
    assert!(r.is_some());
    assert_ne!(r, Some(Direction::Down));
}

#[test]
fn forced_single_option() {
    // Corner head with the neck above it on a 3x3 board: neck kills `up`,
    // walls kill `left` and `down`, so the draw has a single candidate.
    let you = snake(&[(0, 0), (0, 1)]);
    let b = board(3, 3, &[], vec![]);
    assert_eq!(compute_safe_moves(&b, &you), flags(false, false, false, true));
    let turn: u32 = 7;
    assert_eq!(get_move(&game(), &turn, &b, &you), Some(Direction::Right));
}

#[test]
fn neck_exclusion() {
    // Neck to the left of the head: `left` is the one excluded direction.
    let you = snake(&[(5, 5), (4, 5)]);
    let b = board(11, 11, &[], vec![]);
    assert_eq!(compute_safe_moves(&b, &you), flags(true, true, false, true));
    let turn: u32 = 0;
    assert_ne!(get_move(&game(), &turn, &b, &you), Some(Direction::Left));
}

#[test]
fn boundary_exclusion_right_edge() {
    // Head already on the last column: the conservative wall rule excludes
    // `right`; the neck excludes `left`.
    let you = snake(&[(10, 5), (9, 5)]);
    let b = board(11, 11, &[], vec![]);
    assert_eq!(compute_safe_moves(&b, &you), flags(true, true, false, false));
}

#[test]
fn boundary_exclusion_bottom_edge() {
    // Head on the bottom row: `down` is excluded by the wall, `up` by the
    // neck.
    let you = snake(&[(5, 0), (5, 1)]);
    let b = board(11, 11, &[], vec![]);
    assert_eq!(compute_safe_moves(&b, &you), flags(false, false, true, true));
}

#[test]
fn self_avoidance() {
    // A tail cell sits right of the head: `right` goes, along with the
    // neck's `down`; the chosen move never lands on the body.
    let you = snake(&[(5, 5), (5, 4), (6, 5)]);
    let b = board(11, 11, &[], vec![]);
    assert_eq!(compute_safe_moves(&b, &you), flags(true, false, true, false));
    let turn: u32 = 0;
    let r = get_move(&game(), &turn, &b, &you);
    assert!(r == Some(Direction::Up) || r == Some(Direction::Left));
}

#[test]
fn other_agent_avoidance() {
    // Another agent's body cell sits right of our head: `right` goes.
    let you = snake(&[(5, 5), (5, 4)]);
    let other = snake(&[(6, 5), (7, 5)]);
    let b = board(11, 11, &[], vec![other]);
    assert_eq!(compute_safe_moves(&b, &you), flags(true, false, true, false));
}

#[test]
fn own_entry_on_board_changes_nothing() {
    // A snapshot that lists the acting agent among the board's snakes
    // repeats the self test geometrically, with no further effect.
    let you = snake(&[(5, 5), (5, 4)]);
    let without = board(11, 11, &[(5, 8)], vec![]);
    let with = board(11, 11, &[(5, 8)], vec![snake(&[(5, 5), (5, 4)])]);
    assert_eq!(
        compute_safe_moves(&without, &you),
        compute_safe_moves(&with, &you)
    );
}

#[test]
fn food_guard_saves_last_direction() {
    // Entering the food stage only `right` is left, and the food lies to
    // the left: the guard vetoes the elimination, `right` survives.
    let you = snake(&[(1, 0), (1, 1), (0, 0)]);
    let b = board(3, 3, &[(0, 1)], vec![]);
    assert_eq!(compute_safe_moves(&b, &you), flags(false, false, false, true));
    let turn: u32 = 0;
    assert_eq!(get_move(&game(), &turn, &b, &you), Some(Direction::Right));
}

#[test]
fn food_bias_eliminates_away_direction() {
    // Two directions enter the food stage; food up right eliminates `left`
    // and leaves `right` as the only candidate.
    let you = snake(&[(1, 0), (1, 1)]);
    let b = board(3, 3, &[(2, 2)], vec![]);
    assert_eq!(compute_safe_moves(&b, &you), flags(false, false, false, true));
    let turn: u32 = 0;
    assert_eq!(get_move(&game(), &turn, &b, &you), Some(Direction::Right));
}

#[test]
fn food_uses_first_item_only() {
    // Food both right and left of the head: only the first list entry (to
    // the right) counts, so `left` is eliminated, never `right`.
    let you = snake(&[(5, 5), (5, 6)]);
    let b = board(11, 11, &[(6, 5), (4, 5)], vec![]);
    assert_eq!(compute_safe_moves(&b, &you), flags(false, true, false, true));
}

#[test]
fn totality_on_small_board() {
    // A 3x3 board, a two-cell body inside it, no other agents: some
    // direction always survives.
    let you = snake(&[(1, 1), (1, 0)]);
    let b = board(3, 3, &[], vec![]);
    let turn: u32 = 0;
    assert!(get_move(&game(), &turn, &b, &you).is_some());
}

#[test]
fn no_safe_move_returns_none() {
    // On a 1x1 board the wall rule eliminates all four directions.
    let you = snake(&[(0, 0)]);
    let b = board(1, 1, &[], vec![]);
    assert_eq!(compute_safe_moves(&b, &you), flags(false, false, false, false));
    let turn: u32 = 0;
    assert_eq!(get_move(&game(), &turn, &b, &you), None);
}

#[test]
fn single_segment_body_skips_neck_filter() {
    // A body without a neck: stage 1 is a no-op, nothing else fires.
    let you = snake(&[(1, 1)]);
    let b = board(3, 3, &[], vec![]);
    assert_eq!(compute_safe_moves(&b, &you), flags(true, true, true, true));
}

#[test]
fn neck_on_head_is_noop() {
    // A degenerate snapshot where head and neck coincide eliminates
    // nothing.
    let you = snake(&[(1, 1), (1, 1)]);
    let b = board(3, 3, &[], vec![]);
    assert_eq!(compute_safe_moves(&b, &you), flags(true, true, true, true));
}

#[test]
fn extreme_coordinates_do_not_overflow() {
    // A head at the edge of the coordinate range is still filtered, not a
    // fault.
    let you = snake(&[(i32::MAX, 5)]);
    let b = board(i32::MAX, 11, &[], vec![]);
    assert_eq!(compute_safe_moves(&b, &you), flags(true, true, true, false));
}

#[test]
fn possible_move_count_counts_flags() {
    assert_eq!(possible_move_count(&flags(true, true, true, true)), 4);
    assert_eq!(possible_move_count(&flags(true, false, true, false)), 2);
    assert_eq!(possible_move_count(&flags(false, false, false, true)), 1);
    assert_eq!(possible_move_count(&flags(false, false, false, false)), 0);
}

#[test]
fn direction_labels() {
    assert_eq!(Direction::Up.label(), "up");
    assert_eq!(Direction::Down.label(), "down");
    assert_eq!(Direction::Left.label(), "left");
    assert_eq!(Direction::Right.label(), "right");
}

#[test]
fn lifecycle_calls_are_noops() {
    let you = snake(&[(1, 1), (1, 0)]);
    let b = board(3, 3, &[], vec![]);
    let turn: u32 = 0;
    battlesnake::logic::start(&game(), &turn, &b, &you);
    battlesnake::logic::end(&game(), &turn, &b, &you);
}
