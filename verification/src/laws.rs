//! Laws relating the point update to the queries: what a successful write
//! makes the read-only operations report, for the written cell and for
//! every other cell.

use vstd::prelude::*;
use crate::grid::{lemma_cell_index_bound, lemma_cell_index_injective, spec_cell_index};
use crate::state::{set_point_post, State};

verus! {

/// After a successful point update of `(x, y)` with `z`, the state is
/// still well formed; the written cell reads back exactly `z`, reports
/// itself set, and its update counter grew by one (saturating at 255);
/// and every other cell's value, set flag and counter are untouched.
pub proof fn lemma_set_point_reflects_in_queries(
    pre: State,
    post: State,
    x: u8,
    y: u8,
    z: Seq<char>,
)
    requires
        pre.wf(),
        pre.in_bounds(x, y),
        z.len() == 6,
        set_point_post(pre, post, x, y, z),
    ensures
        post.wf(),
        post.cell_value(x, y) == z,
        post.cell_is_set(x, y),
        post.cell_update_count(x, y) == if pre.cell_update_count(x, y) == 255 {
            255u8
        } else {
            (pre.cell_update_count(x, y) + 1) as u8
        },
        forall|x2: u8, y2: u8|
            pre.in_bounds(x2, y2) && !(x2 == x && y2 == y) ==> post.cell_value(x2, y2)
                == pre.cell_value(x2, y2) && post.cell_is_set(x2, y2) == pre.cell_is_set(x2, y2)
                && post.cell_update_count(x2, y2) == pre.cell_update_count(x2, y2),
{
    let idx = spec_cell_index(pre.x_size, x, y);
    lemma_cell_index_bound(pre.x_size, pre.y_size, x, y);
    assert(pre.spec_cells() <= 255 * 255) by (nonlinear_arith)
        requires
            pre.x_size <= 255,
            pre.y_size <= 255,
    ;
    assert(post.cell_value(x, y) =~= z);
    assert forall|x2: u8, y2: u8|
        pre.in_bounds(x2, y2) && !(x2 == x && y2 == y) implies post.cell_value(x2, y2)
        == pre.cell_value(x2, y2) && post.cell_is_set(x2, y2) == pre.cell_is_set(x2, y2)
        && post.cell_update_count(x2, y2) == pre.cell_update_count(x2, y2) by {
        let idx2 = spec_cell_index(pre.x_size, x2, y2);
        lemma_cell_index_bound(pre.x_size, pre.y_size, x2, y2);
        lemma_cell_index_injective(pre.x_size, x2, y2, x, y);
        assert(idx2 != idx);
        assert(idx2 < pre.set_points@.len() * 8) by (nonlinear_arith)
            requires
                0 <= idx2 < pre.spec_cells(),
                pre.set_points@.len() == (pre.spec_cells() + 7) / 8,
        ;
        assert(post.cell_value(x2, y2) =~= pre.cell_value(x2, y2));
    }
}

/// The repeat-write law. A first write to a fresh cell (never set, counter
/// zero) leaves the cell marked set with counter one, so a second write of
/// the same cell is priced on an update count of one — not zero — and its
/// result reports the cell as already set.
pub proof fn lemma_second_write_sees_first(pre: State, mid: State, x: u8, y: u8, z: Seq<char>)
    requires
        pre.wf(),
        pre.in_bounds(x, y),
        z.len() == 6,
        pre.cell_update_count(x, y) == 0,
        set_point_post(pre, mid, x, y, z),
    ensures
        mid.cell_is_set(x, y),
        mid.cell_update_count(x, y) == 1,
{
    lemma_set_point_reflects_in_queries(pre, mid, x, y, z);
}

} // verus!
