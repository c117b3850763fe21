//! The end-to-end handler scenarios: create a grid, write points, query
//! them back.

use bitmap_grid::msg::{Coin, InstantiateMsg};
use bitmap_grid::contract::{get_grid, get_point, instantiate};
use bitmap_grid::state::State;

const ADMIN: &str = "ADMIN";
const USER: &str = "USER";
const NATIVE_DENOM: &str = "denom";

/// An instantiation message with the pay-variant's pricing parameters.
fn paid_msg(x_size: u8, y_size: u8, z_values: Option<String>) -> InstantiateMsg {
    InstantiateMsg {
        x_size,
        y_size,
        z_values,
        recipient: ADMIN.to_string(),
        supply_base_fee: 100,
        supply_fee_factor: 10,
        update_base_fee: 100,
        update_fee_factor: 10,
        fee_factor_scale: 100,
        fee_denom: NATIVE_DENOM.to_string(),
    }
}

/// An instantiation message that prices every write at zero.
fn free_msg(x_size: u8, y_size: u8, z_values: Option<String>) -> InstantiateMsg {
    InstantiateMsg {
        x_size,
        y_size,
        z_values,
        recipient: ADMIN.to_string(),
        supply_base_fee: 0,
        supply_fee_factor: 10,
        update_base_fee: 0,
        update_fee_factor: 10,
        fee_factor_scale: 100,
        fee_denom: NATIVE_DENOM.to_string(),
    }
}

fn proper_instantiate(x_size: u8, y_size: u8, z_values: String) -> State {
    let msg = if z_values.is_empty() {
        free_msg(x_size, y_size, None)
    } else {
        free_msg(x_size, y_size, Some(z_values))
    };
    instantiate(msg).unwrap()
}

/// A zero-cost write, as the free grid variants perform it.
fn set_free(state: &mut State, x: u8, y: u8, z: &str) {
    let funds: Vec<Coin> = vec![];
    bitmap_grid::contract::set(state, x, y, z.to_string(), &funds, USER.to_string(), 0, 0)
        .unwrap();
}

#[test]
fn test_instantiate_with_string() {
    let custom = "abcdef012345fedcba987654".to_string();
    let state = proper_instantiate(2, 2, custom.clone());
    let res = get_grid(&state);
    assert_eq!(res.x_size, 2);
    assert_eq!(res.y_size, 2);
    assert_eq!(res.z_values, custom);
}

#[test]
fn test_instantiate_with_none() {
    let x_size = 2;
    let y_size = 2;
    // Use proper_instantiate with an empty string to simulate None
    let state = proper_instantiate(x_size, y_size, String::new());
    let res = get_grid(&state);
    assert_eq!(res.x_size, x_size);
    assert_eq!(res.y_size, y_size);
    assert_eq!(res.z_values, "0".repeat(x_size as usize * y_size as usize * 6));
}

#[test]
fn test_set_point() {
    let x_size = 2;
    let y_size = 2;
    let mut state = proper_instantiate(x_size, y_size, String::new());
    // Set point (1,1) to "aabbcc"
    let z_value = "aabbcc".to_string();
    set_free(&mut state, 1, 1, &z_value);
    // Query point (1,1) and check value
    let point_res = get_point(&state, 1, 1);
    assert_eq!(point_res.point, z_value);

    // Query grid and check the value at the correct offset
    let grid_res = get_grid(&state);
    let mut expected = "0".repeat(x_size as usize * y_size as usize * 6);
    let start = (1 * x_size as usize * 6) + (1 * 6);
    let end = start + 6;
    expected.replace_range(start..end, &z_value);
    assert_eq!(grid_res.z_values, expected);
}

#[test]
fn test_instantiate() {
    let grid_len = 2 * 2 * 6;
    let nonzero_z = "aabbcc"
        .repeat((grid_len + 5) / 6)
        .chars()
        .take(grid_len)
        .collect::<String>();
    let state = instantiate(paid_msg(2, 2, Some(nonzero_z))).unwrap();
    // Query grid and check the stored buffer
    let res = get_grid(&state);
    assert_eq!(res.x_size, 2);
    assert_eq!(res.y_size, 2);
    let expected_z = "aabbcc".repeat(2 * 2).chars().take(2 * 2 * 6).collect::<String>();
    assert_eq!(res.z_values, expected_z);

    let res = get_point(&state, 1, 1);
    assert_eq!(res.point, "aabbcc".to_string());
}

#[test]
fn test_instantiate_default() {
    let state = proper_instantiate(2, 2, String::new());
    // Query grid and check all zeroes
    let res = get_grid(&state);
    assert_eq!(res.x_size, 2);
    assert_eq!(res.y_size, 2);
    assert_eq!(res.z_values, "0".repeat(2 * 2 * 6));
}

#[test]
fn integration_tests_test_instantiate_with_string() {
    let custom = "abcdef012345fedcba987654".to_string();
    let state = proper_instantiate(2, 2, custom.clone());
    let res = get_grid(&state);
    assert_eq!(res.x_size, 2);
    assert_eq!(res.y_size, 2);
    assert_eq!(res.z_values, custom);
}

#[test]
fn test_set_and_get_point() {
    let mut state = proper_instantiate(2, 2, String::new());
    // Set point (1,1) to "aabbcc"
    let z_value = "aabbcc".to_string();
    set_free(&mut state, 1, 1, &z_value);
    // Query point (1,1)
    let res = get_point(&state, 1, 1);
    assert_eq!(res.point, z_value);
}

#[test]
fn test_get_grid_after_set() {
    let mut state = proper_instantiate(2, 2, String::new());
    // Set point (0,1) to "zzzzzz"
    let z_value = "zzzzzz".to_string();
    set_free(&mut state, 0, 1, &z_value);
    // Query grid
    let res = get_grid(&state);
    // The grid should have zzzzzz at the correct offset
    let mut expected = "0".repeat(2 * 2 * 6);
    let start = (1 * 2 * 6) + (0 * 6);
    let end = start + 6;
    expected.replace_range(start..end, &z_value);
    assert_eq!(res.z_values, expected);
}
