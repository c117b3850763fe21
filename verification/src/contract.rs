//! The operation handlers: creation, the paid point update, and the
//! read-only queries.
//!
//! The host dispatch layer around this module loads the persisted state,
//! evaluates the two floating-point bonding-curve terms (which cannot be
//! expressed here) and hands them in as plain integers, and persists the
//! state again after a successful update.

use vstd::prelude::*;
use vstd::string::StrSliceExecFns;
use crate::error::ContractError;
use crate::grid::{
    bit_get, bit_mark, cell_index, count_set_bits, default_grid, lemma_cell_index_bound,
    read_cell, spec_set_count, write_cell, zero_bytes,
};
use crate::msg::{
    Coin, GetCostResponse, GetGridResponse, GetParamsResponse, GetPointResponse, InstantiateMsg,
    SetPointResponse, TransferMsg,
};
use crate::pricing::{matched_funds, spec_matched_funds, total_cost};
use crate::state::{set_point_post, State};

verus! {

/// Creates the grid: the buffer from the caller's initial value (which
/// must have exactly the expected length) or all `'0'` characters, and
/// all-zero bitfield and counters.
pub fn instantiate(msg: InstantiateMsg) -> (res: Result<State, ContractError>)
    ensures
        res is Err <==> (msg.z_values matches Some(z) && z@.len() != msg.x_size * msg.y_size * 6),
        res is Err ==> res == Err::<State, ContractError>(ContractError::InvalidZValue),
        res matches Ok(s) ==> {
            &&& s.wf()
            &&& s.x_size == msg.x_size
            &&& s.y_size == msg.y_size
            &&& (match msg.z_values {
                Some(z) => s.z_values@ == z@,
                None => s.z_values@ == Seq::new(
                    (msg.x_size * msg.y_size * 6) as nat,
                    |i: int| '0',
                ),
            })
            &&& s.recipient == msg.recipient
            &&& s.supply_base_fee == msg.supply_base_fee
            &&& s.supply_fee_factor == msg.supply_fee_factor
            &&& s.update_base_fee == msg.update_base_fee
            &&& s.update_fee_factor == msg.update_fee_factor
            &&& s.fee_factor_scale == msg.fee_factor_scale
            &&& s.fee_denom == msg.fee_denom
            &&& s.set_points@ == Seq::new(((msg.x_size * msg.y_size + 7) / 8) as nat, |i: int| 0u8)
            &&& s.update_counts@ == Seq::new((msg.x_size * msg.y_size) as nat, |i: int| 0u8)
        },
{
    proof {
        assert((msg.x_size as int) * (msg.y_size as int) <= 255 * 255) by (nonlinear_arith)
            requires
                msg.x_size <= 255,
                msg.y_size <= 255,
        ;
    }
    let InstantiateMsg {
        x_size,
        y_size,
        z_values,
        recipient,
        supply_base_fee,
        supply_fee_factor,
        update_base_fee,
        update_fee_factor,
        fee_factor_scale,
        fee_denom,
    } = msg;
    let cells: usize = (x_size as usize) * (y_size as usize);
    let string_size: usize = cells * 6;
    let z_values: String = match z_values {
        Some(z) => {
            if z.as_str().unicode_len() != string_size {
                return Err(ContractError::InvalidZValue);
            }
            z
        },
        None => default_grid(string_size),
    };
    let set_points: Vec<u8> = zero_bytes((cells + 7) / 8);
    let update_counts: Vec<u8> = zero_bytes(cells);
    Ok(
        State {
            x_size,
            y_size,
            z_values,
            recipient,
            supply_base_fee,
            supply_fee_factor,
            update_base_fee,
            update_fee_factor,
            fee_factor_scale,
            fee_denom,
            set_points,
            update_counts,
        },
    )
}

/// Turns the outcome of reading the persisted record into a state or a
/// `NotInitialized` error.
pub fn load_state(stored: Option<State>) -> (res: Result<State, ContractError>)
    ensures
        stored matches Some(s) ==> res == Ok::<State, ContractError>(s),
        stored is None ==> res == Err::<State, ContractError>(ContractError::NotInitialized),
{
    match stored {
        Some(s) => Ok(s),
        None => Err(ContractError::NotInitialized),
    }
}

/// How many cells of the grid have been written so far — the supply input
/// of the bonding curve, read from the state *before* a write is priced.
pub fn count_set_points(state: &State) -> (n: usize)
    requires
        state.wf(),
    ensures
        n == spec_set_count(state.set_points@, state.spec_cells()),
        n <= state.spec_cells(),
{
    proof {
        assert((state.x_size as int) * (state.y_size as int) <= 255 * 255) by (nonlinear_arith)
            requires
                state.x_size <= 255,
                state.y_size <= 255,
        ;
    }
    let cells: usize = (state.x_size as usize) * (state.y_size as usize);
    proof {
        assert(cells <= ((cells + 7) / 8) * 8) by (nonlinear_arith);
    }
    count_set_bits(&state.set_points, cells)
}

/// One paid point update, the only mutation the grid admits.
///
/// The two curve costs are the host-evaluated bonding-curve terms for this
/// write, priced on the pre-write set count and the pre-write update count
/// of this cell. Validation runs in a fixed order — value length, bounds,
/// cost overflow, payment — and the state is only touched once no failure
/// is possible, so a failed call leaves it exactly as it was.
pub fn set(
    state: &mut State,
    x: u8,
    y: u8,
    z: String,
    funds: &Vec<Coin>,
    sender: String,
    supply_curve_cost: u128,
    update_curve_cost: u128,
) -> (res: Result<SetPointResponse, ContractError>)
    requires
        old(state).wf(),
    ensures
        final(state).wf(),
        res is Err ==> *final(state) == *old(state),
        (res == Err::<SetPointResponse, ContractError>(ContractError::InvalidZValue)) <==> z@.len()
            != 6,
        (res == Err::<SetPointResponse, ContractError>(ContractError::IndexOutOfBounds)) <==> (
        z@.len() == 6 && !old(state).in_bounds(x, y)),
        (res == Err::<SetPointResponse, ContractError>(ContractError::ArithmeticOverflow)) <==> (
        z@.len() == 6 && old(state).in_bounds(x, y) && supply_curve_cost + update_curve_cost
            > u128::MAX),
        (res == Err::<SetPointResponse, ContractError>(ContractError::InsufficientFunds)) <==> (
        z@.len() == 6 && old(state).in_bounds(x, y) && supply_curve_cost + update_curve_cost
            <= u128::MAX && spec_matched_funds(funds@, old(state).fee_denom@) < supply_curve_cost
            + update_curve_cost),
        res is Ok <==> (z@.len() == 6 && old(state).in_bounds(x, y) && supply_curve_cost
            + update_curve_cost <= u128::MAX && spec_matched_funds(funds@, old(state).fee_denom@)
            >= supply_curve_cost + update_curve_cost),
        res matches Ok(r) ==> {
            &&& set_point_post(*old(state), *final(state), x, y, z@)
            &&& r.cost == supply_curve_cost + update_curve_cost
            &&& r.transfer.to_address@ == old(state).recipient@
            &&& r.transfer.denom@ == old(state).fee_denom@
            &&& r.transfer.amount == r.cost
            &&& r.x == x
            &&& r.y == y
            &&& r.z == z
            &&& r.payer == sender
            &&& r.recipient@ == old(state).recipient@
            &&& r.already_set == old(state).cell_is_set(x, y)
            &&& r.update_count == old(state).cell_update_count(x, y)
        },
{
    if z.as_str().unicode_len() != 6 {
        return Err(ContractError::InvalidZValue);
    }
    // The boundary check is strict: admitting `x == x_size` would let the
    // computed index reach into the next row or past the buffer.
    if !(x < state.x_size && y < state.y_size) {
        return Err(ContractError::IndexOutOfBounds);
    }
    let cost: u128 = match total_cost(supply_curve_cost, update_curve_cost) {
        Ok(c) => c,
        Err(e) => {
            return Err(e);
        },
    };
    let sent: u128 = matched_funds(funds, &state.fee_denom);
    if sent < cost {
        return Err(ContractError::InsufficientFunds);
    }
    proof {
        lemma_cell_index_bound(state.x_size, state.y_size, x, y);
        assert(state.spec_cells() <= 255 * 255) by (nonlinear_arith)
            requires
                state.x_size <= 255,
                state.y_size <= 255,
        ;
    }
    let idx: usize = cell_index(state.x_size, x, y);
    proof {
        assert(idx / 8 < (state.spec_cells() + 7) / 8) by (nonlinear_arith)
            requires
                0 <= idx < state.spec_cells(),
        ;
    }
    let off: usize = idx * 6;
    let already_set: bool = bit_get(&state.set_points, idx);
    let update_count: u8 = state.update_counts[idx];
    let new_z_values: String = write_cell(&state.z_values, off, &z);
    state.z_values = new_z_values;
    if !already_set {
        bit_mark(&mut state.set_points, idx);
    }
    if update_count < 255 {
        state.update_counts.set(idx, update_count + 1);
    } else {
        proof {
            assert(state.update_counts@ =~= state.update_counts@.update(idx as int, 255u8));
        }
    }
    Ok(
        SetPointResponse {
            transfer: TransferMsg {
                to_address: state.recipient.clone(),
                denom: state.fee_denom.clone(),
                amount: cost,
            },
            x,
            y,
            z,
            payer: sender,
            cost,
            recipient: state.recipient.clone(),
            already_set,
            update_count,
        },
    )
}

/// The value, set flag and update count of one cell.
pub fn get_point(state: &State, x: u8, y: u8) -> (r: GetPointResponse)
    requires
        state.wf(),
        state.in_bounds(x, y),
    ensures
        r.point@ == state.cell_value(x, y),
        r.is_set == state.cell_is_set(x, y),
        r.update_count == state.cell_update_count(x, y),
{
    proof {
        lemma_cell_index_bound(state.x_size, state.y_size, x, y);
    }
    let idx: usize = cell_index(state.x_size, x, y);
    proof {
        assert(idx / 8 < (state.spec_cells() + 7) / 8) by (nonlinear_arith)
            requires
                0 <= idx < state.spec_cells(),
        ;
    }
    let off: usize = idx * 6;
    let point: String = read_cell(&state.z_values, off);
    let is_set: bool = bit_get(&state.set_points, idx);
    let update_count: u8 = state.update_counts[idx];
    GetPointResponse { point, is_set, update_count }
}

/// The whole grid: dimensions and the flat buffer.
pub fn get_grid(state: &State) -> (r: GetGridResponse)
    ensures
        r.x_size == state.x_size,
        r.y_size == state.y_size,
        r.z_values@ == state.z_values@,
{
    GetGridResponse {
        x_size: state.x_size,
        y_size: state.y_size,
        z_values: state.z_values.clone(),
    }
}

/// The cost of a write given the two host-evaluated curve terms: their
/// sum, or an overflow error.
pub fn get_cost(supply_curve_cost: u128, update_curve_cost: u128) -> (res: Result<
    GetCostResponse,
    ContractError,
>)
    ensures
        supply_curve_cost + update_curve_cost <= u128::MAX ==> res == Ok::<
            GetCostResponse,
            ContractError,
        >(GetCostResponse { cost: (supply_curve_cost + update_curve_cost) as u128 }),
        supply_curve_cost + update_curve_cost > u128::MAX ==> res == Err::<
            GetCostResponse,
            ContractError,
        >(ContractError::ArithmeticOverflow),
{
    match total_cost(supply_curve_cost, update_curve_cost) {
        Ok(cost) => Ok(GetCostResponse { cost }),
        Err(e) => Err(e),
    }
}

/// All pricing parameters and the payment denomination.
pub fn get_params(state: &State) -> (r: GetParamsResponse)
    ensures
        r.supply_base_fee == state.supply_base_fee,
        r.supply_fee_factor == state.supply_fee_factor,
        r.update_base_fee == state.update_base_fee,
        r.update_fee_factor == state.update_fee_factor,
        r.fee_factor_scale == state.fee_factor_scale,
        r.fee_denom@ == state.fee_denom@,
{
    GetParamsResponse {
        supply_base_fee: state.supply_base_fee,
        supply_fee_factor: state.supply_fee_factor,
        update_base_fee: state.update_base_fee,
        update_fee_factor: state.update_fee_factor,
        fee_factor_scale: state.fee_factor_scale,
        fee_denom: state.fee_denom.clone(),
    }
}

} // verus!
