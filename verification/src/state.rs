//! The versioned state record of one deployed grid, together with its
//! well-formedness invariant and the specification of what one point
//! update does to it.

use vstd::prelude::*;
use vstd::string::StrSliceExecFns;
use crate::grid::{spec_bit_is_set, spec_cell_index, spec_cell_offset};

verus! {

/// The full state of one grid. Dimensions are fixed at creation; the
/// buffers are mutated one cell at a time by the point-update operation.
#[derive(Clone, Debug, PartialEq, Eq)]
pub struct State {
    pub x_size: u8,
    pub y_size: u8,
    /// All cell values concatenated: `x_size * y_size` values of 6
    /// characters each, cell `(x, y)` at offset `(y * x_size + x) * 6`.
    pub z_values: String,
    /// Address credited with the payment on every successful write.
    pub recipient: String,
    pub supply_base_fee: u128,
    pub supply_fee_factor: u128,
    pub update_base_fee: u128,
    pub update_fee_factor: u128,
    /// Integer denominator turning the two fee factors into rationals.
    pub fee_factor_scale: u128,
    /// The accepted payment denomination.
    pub fee_denom: String,
    /// Bitfield: bit `i % 8` of byte `i / 8` tells whether cell `i` has
    /// ever been written.
    pub set_points: Vec<u8>,
    /// One saturating update counter per cell.
    pub update_counts: Vec<u8>,
}

impl State {
    /// Number of cells of the grid.
    pub open spec fn spec_cells(&self) -> int {
        self.x_size * self.y_size
    }

    /// The structural invariant: every buffer has exactly the length the
    /// dimensions dictate. Creation establishes it and every update
    /// preserves it.
    pub open spec fn wf(&self) -> bool {
        &&& self.z_values@.len() == self.spec_cells() * 6
        &&& self.set_points@.len() == (self.spec_cells() + 7) / 8
        &&& self.update_counts@.len() == self.spec_cells()
    }

    /// The bounds policy: a coordinate addresses a cell only strictly
    /// inside the dimensions. A laxer `x <= x_size` would admit an index
    /// that reaches past the row's end, so the bound is deliberately
    /// strict.
    pub open spec fn in_bounds(&self, x: u8, y: u8) -> bool {
        x < self.x_size && y < self.y_size
    }

    /// The 6-character value of cell `(x, y)`.
    pub open spec fn cell_value(&self, x: u8, y: u8) -> Seq<char> {
        self.z_values@.subrange(
            spec_cell_offset(self.x_size, x, y),
            spec_cell_offset(self.x_size, x, y) + 6,
        )
    }

    /// Whether cell `(x, y)` has ever been written.
    pub open spec fn cell_is_set(&self, x: u8, y: u8) -> bool {
        spec_bit_is_set(self.set_points@, spec_cell_index(self.x_size, x, y))
    }

    /// How many times cell `(x, y)` has been written (saturating at 255).
    pub open spec fn cell_update_count(&self, x: u8, y: u8) -> u8 {
        self.update_counts@[spec_cell_index(self.x_size, x, y)]
    }

    /// The pricing parameters, the recipient and the dimensions — all the
    /// fields a point update never touches.
    pub open spec fn params_eq(&self, other: State) -> bool {
        &&& self.x_size == other.x_size
        &&& self.y_size == other.y_size
        &&& self.recipient == other.recipient
        &&& self.supply_base_fee == other.supply_base_fee
        &&& self.supply_fee_factor == other.supply_fee_factor
        &&& self.update_base_fee == other.update_base_fee
        &&& self.update_fee_factor == other.update_fee_factor
        &&& self.fee_factor_scale == other.fee_factor_scale
        &&& self.fee_denom == other.fee_denom
    }

    /// Runtime check of the structural invariant, for callers that obtain
    /// a state from outside the verified boundary (e.g. a persisted
    /// record).
    pub fn is_well_formed(&self) -> (b: bool)
        ensures
            b == self.wf(),
    {
        proof {
            assert((self.x_size as int) * (self.y_size as int) <= 255 * 255) by (nonlinear_arith)
                requires
                    self.x_size <= 255,
                    self.y_size <= 255,
            ;
        }
        let cells: usize = (self.x_size as usize) * (self.y_size as usize);
        self.z_values.as_str().unicode_len() == cells * 6 && self.set_points.len() == (cells + 7)
            / 8 && self.update_counts.len() == cells
    }
}

/// What one successful point update of cell `(x, y)` with value `z` does
/// to the state: the cell's slice of the buffer is replaced, the cell's
/// bit is set, the cell's counter is bumped (saturating at 255), and
/// nothing else changes.
pub open spec fn set_point_post(pre: State, post: State, x: u8, y: u8, z: Seq<char>) -> bool {
    let idx = spec_cell_index(pre.x_size, x, y);
    let off = idx * 6;
    &&& post.params_eq(pre)
    &&& post.z_values@ == pre.z_values@.subrange(0, off) + z + pre.z_values@.subrange(
        off + 6,
        pre.z_values@.len() as int,
    )
    &&& post.set_points@.len() == pre.set_points@.len()
    &&& spec_bit_is_set(post.set_points@, idx)
    &&& forall|j: int|
        0 <= j < pre.set_points@.len() * 8 && j != idx ==> spec_bit_is_set(post.set_points@, j)
            == spec_bit_is_set(pre.set_points@, j)
    &&& post.update_counts@ == pre.update_counts@.update(
        idx,
        if pre.update_counts@[idx] == 255 {
            255u8
        } else {
            (pre.update_counts@[idx] + 1) as u8
        },
    )
}

} // verus!
