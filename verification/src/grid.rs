//! The grid codec: translation between `(x, y)` cell coordinates and the
//! packed representations (the flat character buffer, the bit-per-cell
//! "is set" bitfield, and the per-cell update counters).

use vstd::prelude::*;
use vstd::string::StrSliceExecFns;
use vstd::string::StringExecFns;

verus! {

/// Index of cell `(x, y)` in row-major order.
pub open spec fn spec_cell_index(x_size: u8, x: u8, y: u8) -> int {
    y * x_size + x
}

/// Offset of cell `(x, y)` in the flat character buffer.
pub open spec fn spec_cell_offset(x_size: u8, x: u8, y: u8) -> int {
    spec_cell_index(x_size, x, y) * 6
}

/// Whether bit `idx % 8` of byte `idx / 8` is set.
pub open spec fn spec_bit_is_set(bits: Seq<u8>, idx: int) -> bool {
    ((bits[idx / 8] >> ((idx % 8) as u8)) & 1u8) == 1u8
}

/// How many of the bits `0 .. n` are set.
pub open spec fn spec_set_count(bits: Seq<u8>, n: int) -> int
    decreases n,
{
    if n <= 0 {
        0
    } else {
        spec_set_count(bits, n - 1) + if spec_bit_is_set(bits, n - 1) {
            1int
        } else {
            0int
        }
    }
}

/// A cell index is always below the cell count of its grid.
pub proof fn lemma_cell_index_bound(x_size: u8, y_size: u8, x: u8, y: u8)
    requires
        x < x_size,
        y < y_size,
    ensures
        0 <= spec_cell_index(x_size, x, y) < x_size * y_size,
{
    assert(y * x_size + x < x_size * y_size) by (nonlinear_arith)
        requires
            x < x_size,
            y < y_size,
    ;
}

/// Distinct in-bounds coordinates have distinct cell indices.
pub proof fn lemma_cell_index_injective(x_size: u8, x1: u8, y1: u8, x2: u8, y2: u8)
    requires
        x1 < x_size,
        x2 < x_size,
    ensures
        spec_cell_index(x_size, x1, y1) == spec_cell_index(x_size, x2, y2) ==> (x1 == x2 && y1
            == y2),
{
    assert(y1 * x_size + x1 == y2 * x_size + x2 && x1 < x_size && x2 < x_size ==> x1 == x2
        && y1 == y2) by (nonlinear_arith);
}

pub fn cell_index(x_size: u8, x: u8, y: u8) -> (i: usize)
    ensures
        i == spec_cell_index(x_size, x, y),
        i <= 0xffff,
{
    proof {
        assert((y as int) * (x_size as int) <= 255 * 255) by (nonlinear_arith)
            requires
                y <= 255,
                x_size <= 255,
        ;
    }
    (y as usize) * (x_size as usize) + (x as usize)
}

/// Reads bit `idx` of the packed bitfield.
pub fn bit_get(bits: &Vec<u8>, idx: usize) -> (b: bool)
    requires
        idx / 8 < bits@.len(),
    ensures
        b == spec_bit_is_set(bits@, idx as int),
{
    let byte: u8 = bits[idx / 8];
    ((byte >> ((idx % 8) as u8)) & 1u8) == 1u8
}

proof fn lemma_u8_bit_or(b: u8, i: u8, k: u8)
    by (bit_vector)
    requires
        i < 8,
        k < 8,
    ensures
        ((b | (1u8 << i)) >> i) & 1u8 == 1u8,
        i != k ==> ((b | (1u8 << i)) >> k) & 1u8 == (b >> k) & 1u8,
{
}

/// Sets bit `idx` of the packed bitfield; every other bit keeps its value.
pub fn bit_mark(bits: &mut Vec<u8>, idx: usize)
    requires
        idx / 8 < old(bits)@.len(),
    ensures
        final(bits)@.len() == old(bits)@.len(),
        spec_bit_is_set(final(bits)@, idx as int),
        forall|j: int|
            0 <= j < old(bits)@.len() * 8 && j != idx ==> spec_bit_is_set(final(bits)@, j)
                == spec_bit_is_set(old(bits)@, j),
{
    let byte_idx: usize = idx / 8;
    let bit_pos: u8 = (idx % 8) as u8;
    let b: u8 = bits[byte_idx];
    bits.set(byte_idx, b | (1u8 << bit_pos));
    proof {
        lemma_u8_bit_or(b, bit_pos, bit_pos);
        assert forall|j: int|
            0 <= j < old(bits)@.len() * 8 && j != idx implies spec_bit_is_set(bits@, j)
            == spec_bit_is_set(old(bits)@, j) by {
            if j / 8 == byte_idx as int {
                let k: u8 = (j % 8) as u8;
                assert(j == 8 * (j / 8) + j % 8);
                assert(idx == 8 * (idx as int / 8) + idx as int % 8);
                assert(k != bit_pos);
                lemma_u8_bit_or(b, bit_pos, k);
            }
        }
    }
}

/// Counts the set bits among bits `0 .. n`.
pub fn count_set_bits(bits: &Vec<u8>, n: usize) -> (count: usize)
    requires
        n <= bits@.len() * 8,
    ensures
        count == spec_set_count(bits@, n as int),
        count <= n,
{
    let mut count: usize = 0;
    let mut i: usize = 0;
    while i < n
        invariant
            i <= n,
            n <= bits@.len() * 8,
            count == spec_set_count(bits@, i as int),
            count <= i,
        decreases n - i,
    {
        proof {
            assert(i / 8 < bits@.len()) by (nonlinear_arith)
                requires
                    i < bits@.len() * 8,
            ;
        }
        if bit_get(bits, i) {
            count = count + 1;
        }
        i = i + 1;
    }
    count
}

/// Copies the 6-character cell value that starts at `offset` out of the
/// flat buffer.
pub fn read_cell(z_values: &String, offset: usize) -> (r: String)
    requires
        offset + 6 <= z_values@.len(),
        offset + 6 <= usize::MAX,
    ensures
        r@ == z_values@.subrange(offset as int, offset as int + 6),
{
    z_values.as_str().substring_char(offset, offset + 6).to_owned()
}

/// Returns the buffer with the 6 characters that start at `offset` replaced
/// by `z`. The buffer itself is not mutated in place: the caller installs
/// the result only once the whole update is sure to succeed.
pub fn write_cell(z_values: &String, offset: usize, z: &String) -> (r: String)
    requires
        offset + 6 <= z_values@.len(),
        z_values@.len() <= usize::MAX,
        z@.len() == 6,
    ensures
        r@ == z_values@.subrange(0, offset as int) + z@ + z_values@.subrange(
            offset as int + 6,
            z_values@.len() as int,
        ),
        r@.len() == z_values@.len(),
{
    let len: usize = z_values.as_str().unicode_len();
    let mut r: String = z_values.as_str().substring_char(0, offset).to_owned();
    r.append(z.as_str());
    r.append(z_values.as_str().substring_char(offset + 6, len));
    r
}

/// A fresh buffer of `len` default (`'0'`) characters.
pub fn default_grid(len: usize) -> (r: String)
    ensures
        r@ == Seq::new(len as nat, |i: int| '0'),
{
    let mut r: String = String::new();
    let mut i: usize = 0;
    proof {
        assert(r@ =~= Seq::new(0nat, |j: int| '0'));
    }
    while i < len
        invariant
            i <= len,
            r@ == Seq::new(i as nat, |j: int| '0'),
        decreases len - i,
    {
        proof {
            reveal_strlit("0");
        }
        r.append("0");
        i = i + 1;
        proof {
            reveal_strlit("0");
            assert(r@ =~= Seq::new(i as nat, |j: int| '0'));
        }
    }
    r
}

/// A fresh all-zero byte vector of length `len`.
pub fn zero_bytes(len: usize) -> (r: Vec<u8>)
    ensures
        r@ == Seq::new(len as nat, |i: int| 0u8),
{
    let mut r: Vec<u8> = Vec::new();
    let mut i: usize = 0;
    proof {
        assert(r@ =~= Seq::new(0nat, |j: int| 0u8));
    }
    while i < len
        invariant
            i <= len,
            r@ == Seq::new(i as nat, |j: int| 0u8),
        decreases len - i,
    {
        r.push(0u8);
        i = i + 1;
        proof {
            assert(r@ =~= Seq::new(i as nat, |j: int| 0u8));
        }
    }
    r
}

} // verus!
