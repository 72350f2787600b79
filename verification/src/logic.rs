//! The move selector: one call per turn reduces the four candidate
//! directions by a sequence of elimination filters — neck, walls, own body,
//! other agents, food bias — and picks one of the survivors at random.

use vstd::prelude::*;

use rand::seq::SliceRandom;

use crate::{Battlesnake, Board, Coord, Direction, Game, PossibleMoves};

verus! {

/// The candidate set at the start of a turn: every direction still safe.
pub open spec fn all_moves() -> PossibleMoves {
    PossibleMoves { up: true, down: true, left: true, right: true }
}

/// Whether the candidate set still allows direction `d`.
pub open spec fn allows(m: PossibleMoves, d: Direction) -> bool {
    match d {
        Direction::Up => m.up,
        Direction::Down => m.down,
        Direction::Left => m.left,
        Direction::Right => m.right,
    }
}

/// How many of the four directions the candidate set still allows.
pub open spec fn allowed_count(m: PossibleMoves) -> int {
    (if m.up { 1int } else { 0int })
        + (if m.down { 1int } else { 0int })
        + (if m.left { 1int } else { 0int })
        + (if m.right { 1int } else { 0int })
}

/// The neck filter: whichever single direction points from the head back
/// toward the neck is eliminated, with `x` compared before `y`. A neck that
/// coincides with the head eliminates nothing.
pub open spec fn neck_filter(m: PossibleMoves, head: Coord, neck: Coord) -> PossibleMoves {
    if neck.x < head.x {
        PossibleMoves { up: m.up, down: m.down, left: false, right: m.right }
    } else if neck.x > head.x {
        PossibleMoves { up: m.up, down: m.down, left: m.left, right: false }
    } else if neck.y < head.y {
        PossibleMoves { up: m.up, down: false, left: m.left, right: m.right }
    } else if neck.y > head.y {
        PossibleMoves { up: false, down: m.down, left: m.left, right: m.right }
    } else {
        m
    }
}

/// Stage 1 of the pipeline: the neck filter applies only when the body has a
/// neck at all; a shorter body skips the stage rather than failing.
pub open spec fn neck_stage(m: PossibleMoves, you: Battlesnake) -> PossibleMoves {
    if you.body@.len() >= 2 {
        neck_filter(m, you.head, you.body@[1])
    } else {
        m
    }
}

/// Stage 2, the wall filter. Deliberately conservative: a head already on a
/// boundary row or column loses the move toward that boundary, one step
/// before it would actually leave the board.
pub open spec fn wall_stage(m: PossibleMoves, head: Coord, width: i32, height: i32) -> PossibleMoves {
    PossibleMoves {
        up: m.up && !(head.y >= height - 1),
        down: m.down && !(head.y <= 0),
        left: m.left && !(head.x <= 0),
        right: m.right && !(head.x >= width - 1),
    }
}

/// Whether body cell `c` blocks direction `d`: it sits exactly one cell from
/// the head in that direction. At most one direction is blocked per cell.
pub open spec fn cell_blocks(head: Coord, c: Coord, d: Direction) -> bool {
    match d {
        Direction::Up => c.x == head.x && c.y == head.y + 1,
        Direction::Down => c.x == head.x && c.y == head.y - 1,
        Direction::Left => c.x == head.x - 1 && c.y == head.y,
        Direction::Right => c.x == head.x + 1 && c.y == head.y,
    }
}

/// Whether any cell of `body` blocks direction `d`.
pub open spec fn body_blocks(head: Coord, body: Seq<Coord>, d: Direction) -> bool {
    exists|i: int| 0 <= i < body.len() && cell_blocks(head, #[trigger] body[i], d)
}

/// Stage 3, the self-collision filter: every cell of the agent's own body is
/// tested for adjacency to the head, head and tail included.
pub open spec fn body_stage(m: PossibleMoves, head: Coord, body: Seq<Coord>) -> PossibleMoves {
    PossibleMoves {
        up: m.up && !body_blocks(head, body, Direction::Up),
        down: m.down && !body_blocks(head, body, Direction::Down),
        left: m.left && !body_blocks(head, body, Direction::Left),
        right: m.right && !body_blocks(head, body, Direction::Right),
    }
}

/// Whether any cell of any agent in `snakes` blocks direction `d`.
pub open spec fn snakes_block(head: Coord, snakes: Seq<Battlesnake>, d: Direction) -> bool {
    exists|j: int| 0 <= j < snakes.len() && body_blocks(head, (#[trigger] snakes[j]).body@, d)
}

/// Stage 4, the other-agents filter: the same adjacency test as stage 3 over
/// every agent on the board. The acting agent's own entry, if the snapshot
/// includes it, repeats stage 3 with no further effect.
pub open spec fn snakes_stage(m: PossibleMoves, head: Coord, snakes: Seq<Battlesnake>) -> PossibleMoves {
    PossibleMoves {
        up: m.up && !snakes_block(head, snakes, Direction::Up),
        down: m.down && !snakes_block(head, snakes, Direction::Down),
        left: m.left && !snakes_block(head, snakes, Direction::Left),
        right: m.right && !snakes_block(head, snakes, Direction::Right),
    }
}

/// Stage 5, the food filter, biasing travel toward one food cell by
/// eliminating the directions that move away from it. Every elimination is
/// guarded by a live count of the directions still safe, so this stage never
/// clears the last flag. The four guarded eliminations run in this order:
/// `right`, `left`, `up`, `down`.
pub open spec fn food_stage(m: PossibleMoves, head: Coord, food: Coord) -> PossibleMoves {
    let m1 = if food.x < head.x && allowed_count(m) > 1 {
        PossibleMoves { up: m.up, down: m.down, left: m.left, right: false }
    } else {
        m
    };
    let m2 = if food.x > head.x && allowed_count(m1) > 1 {
        PossibleMoves { up: m1.up, down: m1.down, left: false, right: m1.right }
    } else {
        m1
    };
    let m3 = if food.y < head.y && allowed_count(m2) > 1 {
        PossibleMoves { up: false, down: m2.down, left: m2.left, right: m2.right }
    } else {
        m2
    };
    if food.y > head.y && allowed_count(m3) > 1 {
        PossibleMoves { up: m3.up, down: false, left: m3.left, right: m3.right }
    } else {
        m3
    }
}

/// The whole pipeline: the candidate set that survives all five filter
/// stages of one turn. Stage 5 runs only when the snapshot lists food, and
/// deliberately looks only at the first food cell, not the nearest one.
pub open spec fn safe_moves(board: Board, you: Battlesnake) -> PossibleMoves {
    let m1 = neck_stage(all_moves(), you);
    let m2 = wall_stage(m1, you.head, board.width, board.height);
    let m3 = body_stage(m2, you.head, you.body@);
    let m4 = snakes_stage(m3, you.head, board.snakes@);
    if board.food@.len() > 0 {
        food_stage(m4, you.head, board.food@[0])
    } else {
        m4
    }
}

/// Number of directions still flagged safe in the candidate set.
pub fn possible_move_count(possible_moves: &PossibleMoves) -> (n: usize)
    ensures
        n == allowed_count(*possible_moves),
{
    let mut n: usize = 0;
    if possible_moves.up {
        n = n + 1;
    }
    if possible_moves.down {
        n = n + 1;
    }
    if possible_moves.left {
        n = n + 1;
    }
    if possible_moves.right {
        n = n + 1;
    }
    n
}

/// Whether body cell `c` blocks direction `d`. The comparisons run in
/// 64 bits so that a head on the edge of the coordinate range cannot
/// overflow.
fn cell_blocks_exec(head: Coord, c: Coord, d: Direction) -> (r: bool)
    ensures
        r == cell_blocks(head, c, d),
{
    let hx = head.x as i64;
    let hy = head.y as i64;
    let cx = c.x as i64;
    let cy = c.y as i64;
    match d {
        Direction::Up => cx == hx && cy == hy + 1,
        Direction::Down => cx == hx && cy == hy - 1,
        Direction::Left => cx == hx - 1 && cy == hy,
        Direction::Right => cx == hx + 1 && cy == hy,
    }
}

/// Whether any cell of `body` blocks direction `d`.
fn body_blocks_exec(head: Coord, body: &Vec<Coord>, d: Direction) -> (r: bool)
    ensures
        r == body_blocks(head, body@, d),
{
    let mut found = false;
    let mut i: usize = 0;
    while i < body.len()
        invariant
            i <= body@.len(),
            found == exists|k: int| 0 <= k < i && cell_blocks(head, #[trigger] body@[k], d),
        decreases body@.len() - i,
    {
        if cell_blocks_exec(head, body[i], d) {
            found = true;
        }
        i = i + 1;
    }
    found
}

/// Whether any cell of any agent in `snakes` blocks direction `d`.
fn snakes_block_exec(head: Coord, snakes: &Vec<Battlesnake>, d: Direction) -> (r: bool)
    ensures
        r == snakes_block(head, snakes@, d),
{
    let mut found = false;
    let mut j: usize = 0;
    while j < snakes.len()
        invariant
            j <= snakes@.len(),
            found == exists|k: int| 0 <= k < j && body_blocks(head, (#[trigger] snakes@[k]).body@, d),
        decreases snakes@.len() - j,
    {
        if body_blocks_exec(head, &snakes[j].body, d) {
            found = true;
        }
        j = j + 1;
    }
    found
}

/// Run the five filter stages of one turn and return the candidate set that
/// survives them. This is the deterministic part of move selection: the
/// result is exactly [`safe_moves`] of the snapshot.
#[verifier::rlimit(50)]
pub fn compute_safe_moves(board: &Board, you: &Battlesnake) -> (m: PossibleMoves)
    ensures
        m == safe_moves(*board, *you),
{
    let head = you.head;
    let mut m = PossibleMoves { up: true, down: true, left: true, right: true };

    // Stage 1: don't move back onto the neck.
    if you.body.len() >= 2 {
        let neck = you.body[1];
        if neck.x < head.x {
            m.left = false;
        } else if neck.x > head.x {
            m.right = false;
        } else if neck.y < head.y {
            m.down = false;
        } else if neck.y > head.y {
            m.up = false;
        }
    }
    let ghost m1 = m;
    assert(m1 == neck_stage(all_moves(), *you));

    // Stage 2: don't run toward a wall. 64-bit arithmetic keeps `width - 1`
    // exact for every i32 input.
    if head.x as i64 >= board.width as i64 - 1 {
        m.right = false;
    }
    if head.y as i64 >= board.height as i64 - 1 {
        m.up = false;
    }
    if head.x <= 0 {
        m.left = false;
    }
    if head.y <= 0 {
        m.down = false;
    }
    let ghost m2 = m;
    assert(m2 == wall_stage(m1, head, board.width, board.height));

    // Stage 3: don't hit your own body.
    if body_blocks_exec(head, &you.body, Direction::Up) {
        m.up = false;
    }
    if body_blocks_exec(head, &you.body, Direction::Down) {
        m.down = false;
    }
    if body_blocks_exec(head, &you.body, Direction::Left) {
        m.left = false;
    }
    if body_blocks_exec(head, &you.body, Direction::Right) {
        m.right = false;
    }
    let ghost m3 = m;
    assert(m3 == body_stage(m2, head, you.body@));

    // Stage 4: don't hit the other agents either.
    if snakes_block_exec(head, &board.snakes, Direction::Up) {
        m.up = false;
    }
    if snakes_block_exec(head, &board.snakes, Direction::Down) {
        m.down = false;
    }
    if snakes_block_exec(head, &board.snakes, Direction::Left) {
        m.left = false;
    }
    if snakes_block_exec(head, &board.snakes, Direction::Right) {
        m.right = false;
    }
    let ghost m4 = m;
    assert(m4 == snakes_stage(m3, head, board.snakes@));

    // Stage 5: steer toward the first food cell, but never clear the last
    // safe direction.
    if board.food.len() > 0 {
        let food = board.food[0];
        if food.x < head.x && possible_move_count(&m) > 1 {
            m.right = false;
        }
        if food.x > head.x && possible_move_count(&m) > 1 {
            m.left = false;
        }
        if food.y < head.y && possible_move_count(&m) > 1 {
            m.up = false;
        }
        if food.y > head.y && possible_move_count(&m) > 1 {
            m.down = false;
        }
        assert(m == food_stage(m4, head, food));
    }

    m
}

/// Relies on rand's `SliceRandom::choose` (the `[T]` impl): it returns
/// `None` exactly when the slice is empty, and otherwise a uniformly drawn
/// element of the slice.
#[verifier::external_body]
fn choose_random(moves: &Vec<Direction>) -> (r: Option<Direction>)
    ensures
        (r is Some) == (moves@.len() > 0),
        r matches Some(d) ==> exists|i: int| 0 <= i < moves@.len() && moves@[i] == d,
{
    moves.choose(&mut rand::thread_rng()).copied()
}

/// Select the move for one turn: run the filter stages over the snapshot and
/// draw one of the surviving directions at random.
///
/// `None` means every direction was eliminated — no safe move exists — and
/// the caller decides how to fail the turn. On every other snapshot the
/// call returns a direction, and that direction is one the filters left
/// safe.
pub fn get_move(_game: &Game, _turn: &u32, board: &Board, you: &Battlesnake) -> (r: Option<Direction>)
    ensures
        (r is Some) == (allowed_count(safe_moves(*board, *you)) > 0),
        r matches Some(d) ==> allows(safe_moves(*board, *you), d),
{
    let m = compute_safe_moves(board, you);

    let mut moves: Vec<Direction> = Vec::new();
    if m.up {
        moves.push(Direction::Up);
    }
    if m.down {
        moves.push(Direction::Down);
    }
    if m.left {
        moves.push(Direction::Left);
    }
    if m.right {
        moves.push(Direction::Right);
    }
    assert(moves@.len() == allowed_count(m));
    assert(forall|i: int| 0 <= i < moves@.len() ==> allows(m, #[trigger] moves@[i]));

    choose_random(&moves)
}

/// The direction the neck filter eliminates for a given head and neck:
/// toward the neck, with `x` compared before `y`. For a neck adjacent to the
/// head this is exactly the direction that points from the head onto the
/// neck.
pub open spec fn neck_rejects(head: Coord, neck: Coord, d: Direction) -> bool {
    match d {
        Direction::Left => neck.x < head.x,
        Direction::Right => neck.x > head.x,
        Direction::Down => neck.x == head.x && neck.y < head.y,
        Direction::Up => neck.x == head.x && neck.y > head.y,
    }
}

/// The x coordinate of the cell the head would move onto in direction `d`.
pub open spec fn dest_x(head: Coord, d: Direction) -> int {
    match d {
        Direction::Left => head.x - 1,
        Direction::Right => head.x + 1,
        _ => head.x as int,
    }
}

/// The y coordinate of the cell the head would move onto in direction `d`.
pub open spec fn dest_y(head: Coord, d: Direction) -> int {
    match d {
        Direction::Down => head.y - 1,
        Direction::Up => head.y + 1,
        _ => head.y as int,
    }
}

/// Whether two cells of the grid share an edge.
pub open spec fn adjacent(a: Coord, b: Coord) -> bool {
    ||| (b.x == a.x + 1 && b.y == a.y)
    ||| (b.x == a.x - 1 && b.y == a.y)
    ||| (b.x == a.x && b.y == a.y + 1)
    ||| (b.x == a.x && b.y == a.y - 1)
}

/// Every filter stage only clears flags: a direction the surviving set
/// allows was allowed at every stage before, in particular by the neck
/// filter and by the wall filter alone.
pub proof fn lemma_stages_monotonic(board: Board, you: Battlesnake, d: Direction)
    requires
        allows(safe_moves(board, you), d),
    ensures
        allows(snakes_stage(body_stage(wall_stage(neck_stage(all_moves(), you), you.head,
            board.width, board.height), you.head, you.body@), you.head, board.snakes@), d),
        allows(body_stage(wall_stage(neck_stage(all_moves(), you), you.head, board.width,
            board.height), you.head, you.body@), d),
        allows(wall_stage(neck_stage(all_moves(), you), you.head, board.width, board.height), d),
        allows(neck_stage(all_moves(), you), d),
{
}

/// Neck exclusion: with a body of at least two cells, no direction the
/// surviving candidate set allows points from the head back toward the neck.
pub proof fn lemma_neck_exclusion(board: Board, you: Battlesnake, d: Direction)
    requires
        you.body@.len() >= 2,
        allows(safe_moves(board, you), d),
    ensures
        !neck_rejects(you.head, you.body@[1], d),
{
    lemma_stages_monotonic(board, you, d);
}

/// Boundary exclusion: a head on a boundary row or column (per the
/// conservative wall rule of stage 2) never keeps the move toward that
/// boundary.
pub proof fn lemma_boundary_exclusion(board: Board, you: Battlesnake)
    ensures
        you.head.x >= board.width - 1 ==> !safe_moves(board, you).right,
        you.head.y >= board.height - 1 ==> !safe_moves(board, you).up,
        you.head.x <= 0 ==> !safe_moves(board, you).left,
        you.head.y <= 0 ==> !safe_moves(board, you).down,
{
    if safe_moves(board, you).right {
        lemma_stages_monotonic(board, you, Direction::Right);
    }
    if safe_moves(board, you).up {
        lemma_stages_monotonic(board, you, Direction::Up);
    }
    if safe_moves(board, you).left {
        lemma_stages_monotonic(board, you, Direction::Left);
    }
    if safe_moves(board, you).down {
        lemma_stages_monotonic(board, you, Direction::Down);
    }
}

/// Self-avoidance: a direction the surviving candidate set allows never
/// moves the head onto a cell of the agent's own body.
pub proof fn lemma_self_avoidance(board: Board, you: Battlesnake, d: Direction)
    requires
        allows(safe_moves(board, you), d),
    ensures
        forall|i: int| 0 <= i < you.body@.len()
            ==> !((#[trigger] you.body@[i]).x == dest_x(you.head, d)
                && you.body@[i].y == dest_y(you.head, d)),
{
    lemma_stages_monotonic(board, you, d);
    assert forall|i: int| 0 <= i < you.body@.len()
        implies !((#[trigger] you.body@[i]).x == dest_x(you.head, d)
            && you.body@[i].y == dest_y(you.head, d)) by {
        assert(!cell_blocks(you.head, you.body@[i], d));
    }
}

/// Other-agent avoidance: a direction the surviving candidate set allows
/// never moves the head onto a cell of any agent on the board.
pub proof fn lemma_other_agent_avoidance(board: Board, you: Battlesnake, d: Direction)
    requires
        allows(safe_moves(board, you), d),
    ensures
        forall|j: int, i: int|
            0 <= j < board.snakes@.len() && 0 <= i < board.snakes@[j].body@.len()
                ==> !((#[trigger] board.snakes@[j].body@[i]).x == dest_x(you.head, d)
                    && board.snakes@[j].body@[i].y == dest_y(you.head, d)),
{
    lemma_stages_monotonic(board, you, d);
    assert forall|j: int, i: int|
        0 <= j < board.snakes@.len() && 0 <= i < board.snakes@[j].body@.len()
            implies !((#[trigger] board.snakes@[j].body@[i]).x == dest_x(you.head, d)
                && board.snakes@[j].body@[i].y == dest_y(you.head, d)) by {
        assert(!body_blocks(you.head, board.snakes@[j].body@, d));
        assert(!cell_blocks(you.head, board.snakes@[j].body@[i], d));
    }
}

/// The food-filter guard: stage 5 never empties a non-empty candidate set,
/// and when only one direction is left entering the stage it changes nothing
/// at all.
pub proof fn lemma_food_guard(m: PossibleMoves, head: Coord, food: Coord)
    ensures
        allowed_count(m) >= 1 ==> allowed_count(food_stage(m, head, food)) >= 1,
        allowed_count(m) <= 1 ==> food_stage(m, head, food) == m,
{
}

/// Totality: on a board of at least 3 by 3 whose snapshot lists no other
/// agents, an agent whose body lies inside the board, starts at its head,
/// and touches the head's neighborhood only with its neck always has at
/// least one direction left after every filter.
pub proof fn lemma_totality(board: Board, you: Battlesnake)
    requires
        board.width >= 3,
        board.height >= 3,
        you.body@.len() >= 2,
        you.head == you.body@[0],
        forall|i: int| 0 <= i < you.body@.len()
            ==> 0 <= (#[trigger] you.body@[i]).x < board.width
                && 0 <= you.body@[i].y < board.height,
        forall|i: int| 2 <= i < you.body@.len() ==> !adjacent(you.head, #[trigger] you.body@[i]),
        board.snakes@.len() == 0,
    ensures
        allowed_count(safe_moves(board, you)) >= 1,
{
    let head = you.head;
    let neck = you.body@[1];
    let m1 = neck_stage(all_moves(), you);
    let m2 = wall_stage(m1, head, board.width, board.height);
    let m3 = body_stage(m2, head, you.body@);
    let m4 = snakes_stage(m3, head, board.snakes@);

    // Only the neck can block a direction: the head itself is not adjacent
    // to the head, and every later cell is kept away by hypothesis.
    assert forall|d: Direction| body_blocks(head, you.body@, d)
        implies cell_blocks(head, neck, d) by {
        let i = choose|i: int| 0 <= i < you.body@.len()
            && cell_blocks(head, #[trigger] you.body@[i], d);
        if i != 1 {
            assert(adjacent(head, you.body@[i]));
        }
    }

    // A direction the neck filter keeps is not blocked by the neck either,
    // so stages 3 and 4 change nothing here.
    assert forall|d: Direction| allows(m2, d) implies allows(m4, d) by {
        assert(!neck_rejects(head, neck, d));
        assert(!cell_blocks(head, neck, d));
        assert(!body_blocks(head, you.body@, d));
        assert(!snakes_block(head, board.snakes@, d));
    }

    // The wall filter always keeps one horizontal and one vertical
    // direction, and the neck filter eliminates at most one of the two.
    let h = if head.x < board.width - 1 { Direction::Right } else { Direction::Left };
    let v = if head.y < board.height - 1 { Direction::Up } else { Direction::Down };
    assert(0 <= head.x < board.width && 0 <= head.y < board.height);
    if neck_rejects(head, neck, h) {
        assert(allows(m2, v));
        assert(allows(m4, v));
    } else {
        assert(allows(m2, h));
        assert(allows(m4, h));
    }
    assert(allowed_count(m4) >= 1);

    if board.food@.len() > 0 {
        lemma_food_guard(m4, head, board.food@[0]);
    }
}

/// Called once when a game starts. The selector keeps no state between
/// turns, so there is nothing to set up; announcing the event is the
/// transport's concern.
pub fn start(_game: &Game, _turn: &u32, _board: &Board, _you: &Battlesnake) {
}

/// Called once when a game is over. As with [`start`], there is no state to
/// tear down.
pub fn end(_game: &Game, _turn: &u32, _board: &Board, _you: &Battlesnake) {
}

} // verus!
