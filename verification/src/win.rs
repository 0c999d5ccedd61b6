//! Five-in-a-row detection around a stone that was just placed.

use vstd::prelude::*;
use crate::board::{cell, in_bounds, state_index, BOARD_LEN};

verus! {

/// Whether `d` is one of the three steps a scan can take along one coordinate.
pub open spec fn unit_step(d: int) -> bool {
    d == -1 || d == 0 || d == 1
}

/// The coordinate reached from `c` after `k` steps of `d`.
pub open spec fn displaced(c: int, d: int, k: int) -> int {
    if d == 1 {
        c + k
    } else if d == -1 {
        c - k
    } else {
        c
    }
}

/// Whether the cell `k` steps from `(x, y)` in direction `(dx, dy)` lies on the
/// board and holds the same byte as `(x, y)`.
pub open spec fn same_at(board: Seq<u8>, x: int, y: int, dx: int, dy: int, k: int) -> bool {
    let cx = displaced(x, dx, k);
    let cy = displaced(y, dy, k);
    in_bounds(cx, cy) && cell(board, cx, cy) == cell(board, x, y)
}

/// How many cells in a row, at most four, continue the stone of `(x, y)` in
/// direction `(dx, dy)`.
pub open spec fn run_steps(board: Seq<u8>, x: int, y: int, dx: int, dy: int) -> int {
    if !same_at(board, x, y, dx, dy, 1) {
        0
    } else if !same_at(board, x, y, dx, dy, 2) {
        1
    } else if !same_at(board, x, y, dx, dy, 3) {
        2
    } else if !same_at(board, x, y, dx, dy, 4) {
        3
    } else {
        4
    }
}

/// The cell `(x, y)` and the cells that continue it in direction `(dx, dy)`,
/// counted up to five.
pub open spec fn count_run(board: Seq<u8>, x: int, y: int, dx: int, dy: int) -> int {
    1 + run_steps(board, x, y, dx, dy)
}

/// Whether the five cells at steps `s`, `s + 1`, ..., `s + 4` from `(x, y)` along
/// `(dx, dy)` all lie on the board and hold the byte of `(x, y)`.
pub open spec fn five_from(board: Seq<u8>, x: int, y: int, dx: int, dy: int, s: int) -> bool {
    &&& same_at(board, x, y, dx, dy, s)
    &&& same_at(board, x, y, dx, dy, s + 1)
    &&& same_at(board, x, y, dx, dy, s + 2)
    &&& same_at(board, x, y, dx, dy, s + 3)
    &&& same_at(board, x, y, dx, dy, s + 4)
}

/// Whether five cells in a row along the axis `(dx, dy)`, the cell `(x, y)`
/// among them, all lie on the board and hold the byte of `(x, y)`.
pub open spec fn five_on_axis(board: Seq<u8>, x: int, y: int, dx: int, dy: int) -> bool {
    exists|s: int| -4 <= s <= 0 && #[trigger] five_from(board, x, y, dx, dy, s)
}

/// Whether the stone at `(x, y)` is part of five in a row along the horizontal,
/// the vertical or one of the two diagonals.
pub open spec fn five_in_a_row(board: Seq<u8>, x: int, y: int) -> bool {
    ||| five_on_axis(board, x, y, 1, 0)
    ||| five_on_axis(board, x, y, 0, 1)
    ||| five_on_axis(board, x, y, 1, 1)
    ||| five_on_axis(board, x, y, 1, -1)
}

/// Walking backwards along a direction is walking forwards along its opposite.
pub proof fn lemma_same_at_opposite(board: Seq<u8>, x: int, y: int, dx: int, dy: int, k: int)
    requires
        unit_step(dx),
        unit_step(dy),
    ensures
        same_at(board, x, y, -dx, -dy, k) == same_at(board, x, y, dx, dy, -k),
{
}

/// The two capped counts along an axis add up to five or more exactly when
/// five cells in a row on that axis contain `(x, y)`.
pub proof fn lemma_counts_decide_axis(board: Seq<u8>, x: int, y: int, dx: int, dy: int)
    requires
        in_bounds(x, y),
        unit_step(dx),
        unit_step(dy),
    ensures
        (count_run(board, x, y, dx, dy) + count_run(board, x, y, -dx, -dy) - 1 >= 5)
            == five_on_axis(board, x, y, dx, dy),
{
    let a = run_steps(board, x, y, dx, dy);
    let b = run_steps(board, x, y, -dx, -dy);
    lemma_same_at_opposite(board, x, y, dx, dy, 1);
    lemma_same_at_opposite(board, x, y, dx, dy, 2);
    lemma_same_at_opposite(board, x, y, dx, dy, 3);
    lemma_same_at_opposite(board, x, y, dx, dy, 4);
    assert(same_at(board, x, y, dx, dy, 0));
    if a + b >= 4 {
        assert(five_from(board, x, y, dx, dy, a - 4));
    }
    if five_on_axis(board, x, y, dx, dy) {
        let s = choose|s: int| -4 <= s <= 0 && #[trigger] five_from(board, x, y, dx, dy, s);
        assert(a >= s + 4);
        assert(b >= -s);
    }
}

/// Moves a coordinate `k` steps of `dir`; `None` where the result leaves `0..15`.
fn step_coordinate(c: u8, dir: i8, k: u8) -> (r: Option<u8>)
    requires
        c < 15,
        k <= 4,
        unit_step(dir as int),
    ensures
        match r {
            Some(v) => v == displaced(c as int, dir as int, k as int) && v < 15,
            None => !(0 <= displaced(c as int, dir as int, k as int) < 15),
        },
{
    if dir == 1 {
        if c + k < 15 {
            Some(c + k)
        } else {
            None
        }
    } else if dir == -1 {
        if c >= k {
            Some(c - k)
        } else {
            None
        }
    } else {
        Some(c)
    }
}

/// Counts the stone at `(x, y)` and the stones of its color that follow it
/// without a gap in direction `(xdir, ydir)`, looking at most four cells far.
pub fn count_stone(board_state: &Vec<u8>, x: u8, y: u8, xdir: i8, ydir: i8) -> (count: u8)
    requires
        board_state@.len() == BOARD_LEN,
        in_bounds(x as int, y as int),
        unit_step(xdir as int),
        unit_step(ydir as int),
    ensures
        count == count_run(board_state@, x as int, y as int, xdir as int, ydir as int),
        1 <= count <= 5,
{
    let origin: u8 = board_state[state_index(x, y)];
    let mut count: u8 = 1;
    let mut open: bool = true;
    while open && count <= 4
        invariant
            board_state@.len() == BOARD_LEN,
            in_bounds(x as int, y as int),
            unit_step(xdir as int),
            unit_step(ydir as int),
            origin == cell(board_state@, x as int, y as int),
            1 <= count <= 5,
            forall|k: int|
                1 <= k < count ==> #[trigger] same_at(
                    board_state@,
                    x as int,
                    y as int,
                    xdir as int,
                    ydir as int,
                    k,
                ),
            !open ==> count <= 4 && !same_at(
                board_state@,
                x as int,
                y as int,
                xdir as int,
                ydir as int,
                count as int,
            ),
        decreases (if open { 1int } else { 0int }) + 5 - count,
    {
        let cx: Option<u8> = step_coordinate(x, xdir, count);
        let cy: Option<u8> = step_coordinate(y, ydir, count);
        let continues: bool = match (cx, cy) {
            (Some(nx), Some(ny)) => board_state[state_index(nx, ny)] == origin,
            _ => false,
        };
        if continues {
            count = count + 1;
        } else {
            open = false;
        }
    }
    count
}

/// Tells whether the stone at `(x, y)` is part of five in a row along the axis
/// `(xdir, ydir)`, from the counts in the two directions of that axis.
pub fn check_five(board_state: &Vec<u8>, x: u8, y: u8, xdir: i8, ydir: i8) -> (r: bool)
    requires
        board_state@.len() == BOARD_LEN,
        in_bounds(x as int, y as int),
        unit_step(xdir as int),
        unit_step(ydir as int),
    ensures
        r == five_on_axis(board_state@, x as int, y as int, xdir as int, ydir as int),
        r == (count_run(board_state@, x as int, y as int, xdir as int, ydir as int) + count_run(
            board_state@,
            x as int,
            y as int,
            -xdir as int,
            -ydir as int,
        ) - 1 >= 5),
{
    let forward: u8 = count_stone(board_state, x, y, xdir, ydir);
    let backward: u8 = count_stone(board_state, x, y, -xdir, -ydir);
    proof {
        lemma_counts_decide_axis(board_state@, x as int, y as int, xdir as int, ydir as int);
    }
    forward + backward - 1 >= 5
}

/// Tells whether the stone at `(x, y)` completes five in a row on any of the
/// four axes through it.
pub fn has_five_in_a_row(board_state: &Vec<u8>, x: u8, y: u8) -> (r: bool)
    requires
        board_state@.len() == BOARD_LEN,
        in_bounds(x as int, y as int),
    ensures
        r == five_in_a_row(board_state@, x as int, y as int),
{
    check_five(board_state, x, y, 1, 0) || check_five(board_state, x, y, 0, 1) || check_five(
        board_state,
        x,
        y,
        1,
        1,
    ) || check_five(board_state, x, y, 1, -1)
}

/// Whether `(dx, dy)` is one of the four axes that are scanned.
pub open spec fn is_axis(dx: int, dy: int) -> bool {
    ||| (dx == 1 && dy == 0)
    ||| (dx == 0 && dy == 1)
    ||| (dx == 1 && dy == 1)
    ||| (dx == 1 && dy == -1)
}

/// Whether every cell from step `lo` to step `hi` from `(x, y)` along
/// `(dx, dy)` lies on the board and holds the byte of `(x, y)`.
pub open spec fn run_between(
    board: Seq<u8>,
    x: int,
    y: int,
    dx: int,
    dy: int,
    lo: int,
    hi: int,
) -> bool {
    forall|k: int| lo <= k <= hi ==> #[trigger] same_at(board, x, y, dx, dy, k)
}

/// Five or more in a row win from every cell of the row: where the cells from
/// step `lo` to step `hi` around `(x, y)` are one run of at least five, the
/// axis has five in a row through `(x, y)`. The two ends of a run are such
/// cells, and so is every cell of a run of six or more.
pub proof fn law_run_of_five_or_more_wins(
    board: Seq<u8>,
    x: int,
    y: int,
    dx: int,
    dy: int,
    lo: int,
    hi: int,
)
    requires
        lo <= 0 <= hi,
        hi - lo >= 4,
        run_between(board, x, y, dx, dy, lo, hi),
    ensures
        five_on_axis(board, x, y, dx, dy),
        is_axis(dx, dy) ==> five_in_a_row(board, x, y),
{
    let s = if lo >= -4 {
        lo
    } else {
        -4
    };
    assert(five_from(board, x, y, dx, dy, s));
}

/// Four in a row do not win: where the run through `(x, y)` along an axis is
/// cut off before step `s` and after step `s + 3`, by the edge of the board
/// or by a cell that holds another byte, the axis has no five in a row
/// through `(x, y)`.
pub proof fn law_run_of_four_does_not_win(
    board: Seq<u8>,
    x: int,
    y: int,
    dx: int,
    dy: int,
    s: int,
)
    requires
        -3 <= s <= 0,
        !same_at(board, x, y, dx, dy, s - 1),
        !same_at(board, x, y, dx, dy, s + 4),
    ensures
        !five_on_axis(board, x, y, dx, dy),
{
    assert forall|w: int| -4 <= w <= 0 implies !#[trigger] five_from(board, x, y, dx, dy, w) by {
        if w <= s - 1 {
            assert(w <= s - 1 <= w + 4);
        } else {
            assert(w <= s + 4 <= w + 4);
        }
    }
}

/// A stone that is cut off within four cells on each of the four axes does
/// not win.
pub proof fn law_no_win_without_five(
    board: Seq<u8>,
    x: int,
    y: int,
    horizontal: int,
    vertical: int,
    diagonal: int,
    antidiagonal: int,
)
    requires
        -3 <= horizontal <= 0,
        -3 <= vertical <= 0,
        -3 <= diagonal <= 0,
        -3 <= antidiagonal <= 0,
        !same_at(board, x, y, 1, 0, horizontal - 1),
        !same_at(board, x, y, 1, 0, horizontal + 4),
        !same_at(board, x, y, 0, 1, vertical - 1),
        !same_at(board, x, y, 0, 1, vertical + 4),
        !same_at(board, x, y, 1, 1, diagonal - 1),
        !same_at(board, x, y, 1, 1, diagonal + 4),
        !same_at(board, x, y, 1, -1, antidiagonal - 1),
        !same_at(board, x, y, 1, -1, antidiagonal + 4),
    ensures
        !five_in_a_row(board, x, y),
{
    law_run_of_four_does_not_win(board, x, y, 1, 0, horizontal);
    law_run_of_four_does_not_win(board, x, y, 0, 1, vertical);
    law_run_of_four_does_not_win(board, x, y, 1, 1, diagonal);
    law_run_of_four_does_not_win(board, x, y, 1, -1, antidiagonal);
}

/// Seen from a cell of the same byte `n` steps on, every step is `n` steps
/// shorter.
proof fn lemma_same_at_shifted(
    board: Seq<u8>,
    x: int,
    y: int,
    dx: int,
    dy: int,
    n: int,
    k: int,
)
    requires
        unit_step(dx),
        unit_step(dy),
        same_at(board, x, y, dx, dy, n),
    ensures
        same_at(board, displaced(x, dx, n), displaced(y, dy, n), dx, dy, k) == same_at(
            board,
            x,
            y,
            dx,
            dy,
            k + n,
        ),
{
    assert(displaced(displaced(x, dx, n), dx, k) == displaced(x, dx, k + n));
    assert(displaced(displaced(y, dy, n), dy, k) == displaced(y, dy, k + n));
}

/// Five cells in a row seen from a cell of the same byte `n` steps on.
proof fn lemma_five_from_shifted(
    board: Seq<u8>,
    x: int,
    y: int,
    dx: int,
    dy: int,
    n: int,
    w: int,
)
    requires
        unit_step(dx),
        unit_step(dy),
        same_at(board, x, y, dx, dy, n),
    ensures
        five_from(board, displaced(x, dx, n), displaced(y, dy, n), dx, dy, w) == five_from(
            board,
            x,
            y,
            dx,
            dy,
            w + n,
        ),
{
    lemma_same_at_shifted(board, x, y, dx, dy, n, w);
    lemma_same_at_shifted(board, x, y, dx, dy, n, w + 1);
    lemma_same_at_shifted(board, x, y, dx, dy, n, w + 2);
    lemma_same_at_shifted(board, x, y, dx, dy, n, w + 3);
    lemma_same_at_shifted(board, x, y, dx, dy, n, w + 4);
}

/// The answer for an axis is the same from every cell of a run: where the
/// cells from `(x, y)` to the cell `n` steps on along `(dx, dy)` are one run,
/// the axis has five in a row through the one exactly when it has five in a
/// row through the other.
pub proof fn law_axis_answer_shared_along_run(
    board: Seq<u8>,
    x: int,
    y: int,
    dx: int,
    dy: int,
    n: int,
)
    requires
        unit_step(dx),
        unit_step(dy),
        0 <= n,
        run_between(board, x, y, dx, dy, 0, n),
    ensures
        five_on_axis(board, x, y, dx, dy) == five_on_axis(
            board,
            displaced(x, dx, n),
            displaced(y, dy, n),
            dx,
            dy,
        ),
{
    let qx = displaced(x, dx, n);
    let qy = displaced(y, dy, n);
    assert(same_at(board, x, y, dx, dy, n));
    if five_on_axis(board, x, y, dx, dy) {
        let s = choose|s: int| -4 <= s <= 0 && #[trigger] five_from(board, x, y, dx, dy, s);
        // The five cells that end at the later of the two ends.
        let w = if n >= s + 4 {
            -4
        } else {
            s - n
        };
        assert(five_from(board, x, y, dx, dy, w + n)) by {
            if n >= s + 4 {
                assert(same_at(board, x, y, dx, dy, n - 4) && same_at(board, x, y, dx, dy, n - 3)
                    && same_at(board, x, y, dx, dy, n - 2) && same_at(board, x, y, dx, dy, n - 1));
            }
        }
        lemma_five_from_shifted(board, x, y, dx, dy, n, w);
        assert(five_from(board, qx, qy, dx, dy, w));
    }
    if five_on_axis(board, qx, qy, dx, dy) {
        let w = choose|w: int| -4 <= w <= 0 && #[trigger] five_from(board, qx, qy, dx, dy, w);
        lemma_five_from_shifted(board, x, y, dx, dy, n, w);
        // The five cells that begin at the earlier of the two beginnings.
        let s = if w + n <= 0 {
            w + n
        } else {
            0
        };
        assert(five_from(board, x, y, dx, dy, s)) by {
            if w + n > 0 {
                assert(same_at(board, x, y, dx, dy, 0) && same_at(board, x, y, dx, dy, 1)
                    && same_at(board, x, y, dx, dy, 2) && same_at(board, x, y, dx, dy, 3)
                    && same_at(board, x, y, dx, dy, 4));
            }
        }
    }
}

} // verus!
