use vstd::prelude::*;

verus! {

/// One payment coin: an amount of a named denomination.
#[derive(Clone, Debug, PartialEq, Eq)]
pub struct Coin {
    pub denom: String,
    pub amount: u128,
}

/// The creation request: grid dimensions, an optional initial buffer, the
/// payment recipient, and the bonding-curve parameters.
#[derive(Clone, Debug, PartialEq, Eq)]
pub struct InstantiateMsg {
    pub x_size: u8,
    pub y_size: u8,
    pub z_values: Option<String>,
    pub recipient: String,
    pub supply_base_fee: u128,
    pub supply_fee_factor: u128,
    pub update_base_fee: u128,
    pub update_fee_factor: u128,
    pub fee_factor_scale: u128,
    pub fee_denom: String,
}

#[derive(Clone, Debug, PartialEq, Eq)]
pub enum ExecuteMsg {
    SetPoint { x: u8, y: u8, z: String },
}

#[derive(Clone, Debug, PartialEq, Eq)]
pub enum QueryMsg {
    /// GetPoint returns the point (z) at (x, y)
    GetPoint { x: u8, y: u8 },
    /// GetGrid returns the entire grid as a string
    GetGrid {},
    /// GetCost returns the cost to set a point (x, y)
    GetCost { x: u8, y: u8 },
    /// GetParams returns the curve parameters (base, factor)
    GetParams {},
}

#[derive(Clone, Debug, PartialEq, Eq)]
pub struct GetCostResponse {
    pub cost: u128,
}

#[derive(Clone, Debug, PartialEq, Eq)]
pub struct GetPointResponse {
    pub point: String,
    pub is_set: bool,
    pub update_count: u8,
}

#[derive(Clone, Debug, PartialEq, Eq)]
pub struct GetGridResponse {
    pub x_size: u8,
    pub y_size: u8,
    pub z_values: String,
}

#[derive(Clone, Debug, PartialEq, Eq)]
pub struct GetParamsResponse {
    pub supply_base_fee: u128,
    pub supply_fee_factor: u128,
    pub update_base_fee: u128,
    pub update_fee_factor: u128,
    pub fee_factor_scale: u128,
    pub fee_denom: String,
}

/// The instruction to move the priced amount to the configured recipient.
/// The host is expected to execute it as part of the same transaction.
#[derive(Clone, Debug, PartialEq, Eq)]
pub struct TransferMsg {
    pub to_address: String,
    pub denom: String,
    pub amount: u128,
}

/// The outcome of one successful point update: the payment instruction plus
/// a summary of what was written. `already_set` and `update_count` report
/// the cell's state before the write.
#[derive(Clone, Debug, PartialEq, Eq)]
pub struct SetPointResponse {
    pub transfer: TransferMsg,
    pub x: u8,
    pub y: u8,
    pub z: String,
    pub payer: String,
    pub cost: u128,
    pub recipient: String,
    pub already_set: bool,
    pub update_count: u8,
}

} // verus!
