use vstd::prelude::*;

use crate::state::Config;

verus! {

/// What has to be paid to mint one path.
#[derive(Debug, Clone, PartialEq, Eq)]
pub enum PaymentDetails {
    /// `amount` units of the fungible token at `token_address`, forwarded by that contract.
    Cw20 { token_address: String, amount: u128 },
    /// `amount` units of the native coin `denom`, attached to the call.
    Native { denom: String, amount: u128 },
}

impl PaymentDetails {
    /// A copy of the policy.
    pub fn copy(&self) -> (r: Self)
        ensures
            r == *self,
    {
        match self {
            PaymentDetails::Cw20 { token_address, amount } => PaymentDetails::Cw20 {
                token_address: token_address.clone(),
                amount: *amount,
            },
            PaymentDetails::Native { denom, amount } => PaymentDetails::Native {
                denom: denom.clone(),
                amount: *amount,
            },
        }
    }

    /// The amount one mint costs.
    pub open spec fn spec_amount(&self) -> u128 {
        match self {
            PaymentDetails::Cw20 { amount, .. } => *amount,
            PaymentDetails::Native { amount, .. } => *amount,
        }
    }
}

/// A quantity of a native coin.
#[derive(Debug, Clone, PartialEq, Eq)]
pub struct Coin {
    pub denom: String,
    pub amount: u128,
}

/// The block the request is executed in, and the contract's own address.
#[derive(Debug, Clone, PartialEq, Eq)]
pub struct Env {
    pub height: u64,
    pub contract_address: String,
}

/// Who sent the request, and the native funds attached to it.
#[derive(Debug, Clone, PartialEq, Eq)]
pub struct MessageInfo {
    pub sender: String,
    pub funds: Vec<Coin>,
}

#[derive(Debug, Clone, PartialEq, Eq)]
pub struct InstantiateMsg {
    /// The only principal allowed to administer the contract.
    pub admin: String,
    /// The name registry that holds the root and the path names.
    pub whoami_address: String,
    pub payment_details: Option<PaymentDetails>,
    /// Length of the claim window, in blocks.
    pub path_root_claim_blocks: Option<u64>,
}

/// The instruction carried by a forwarded token payment.
#[derive(Debug, Clone, PartialEq, Eq)]
pub enum ReceiveMsg {
    MintPath { path: String },
}

/// A token transfer that a token contract forwards to this contract.
#[derive(Debug, Clone, PartialEq, Eq)]
pub struct Cw20ReceiveMsg {
    /// The payer.
    pub sender: String,
    pub amount: u128,
    pub msg: ReceiveMsg,
}

/// A name transfer that the registry forwards to this contract.
#[derive(Debug, Clone, PartialEq, Eq)]
pub struct Cw721ReceiveMsg {
    /// The previous owner of the name.
    pub sender: String,
    pub token_id: String,
}

#[derive(Debug, Clone, PartialEq, Eq)]
pub enum ExecuteMsg {
    Receive(Cw20ReceiveMsg),
    ReceiveNft(Cw721ReceiveMsg),
    MintPath { path: String },
    UpdateAdmin { new_admin: String },
    UpdatePaymentDetails { payment_details: Option<PaymentDetails> },
    WithdrawPayments {},
    WithdrawRootToken {},
}

#[derive(Debug, Clone, PartialEq, Eq)]
pub enum QueryMsg {
    Config {},
    PaymentDetails {},
    PaymentDetailsBalance {},
    ClaimInfo { path: String },
}

#[derive(Debug, Clone, PartialEq, Eq)]
pub struct PaymentDetailsResponse {
    pub payment_details: Option<PaymentDetails>,
}

#[derive(Debug, Clone, PartialEq, Eq)]
pub struct PaymentDetailsBalanceResponse {
    pub payment_details: Option<PaymentDetails>,
    pub amount: u128,
}

#[derive(Debug, Clone, PartialEq, Eq)]
pub struct ClaimInfoResponse {
    pub is_in_claim_window: bool,
    pub path_as_base_owner: Option<String>,
}

#[derive(Debug, Clone, PartialEq, Eq)]
pub struct MigrateMsg {
    pub path_root_claim_blocks: Option<u64>,
}

/// A call to the name registry.
#[derive(Debug, Clone, PartialEq, Eq)]
pub enum RegistryMsg {
    /// Register `token_id` as a path under `parent_token_id`, owned by `owner`.
    MintPath { token_id: String, owner: String, parent_token_id: String },
    /// Hand the name `token_id` over to `recipient`.
    TransferNft { recipient: String, token_id: String },
}

/// A call that the host must carry out once the request has succeeded.
#[derive(Debug, Clone, PartialEq, Eq)]
pub enum OutboundMsg {
    /// Execute `msg` on the registry at `contract_addr`.
    Registry { contract_addr: String, msg: RegistryMsg },
    /// Transfer `amount` of the token at `contract_addr` to `recipient`.
    Cw20Transfer { contract_addr: String, recipient: String, amount: u128 },
    /// Send native coins to `to_address`.
    BankSend { to_address: String, coin: Coin },
}

/// What the host reported, before the request is handled, from the queries
/// that the request needs.
#[derive(Debug, Clone, PartialEq, Eq)]
pub struct Queried {
    /// The owner of the top-level name spelled like the requested path, if any.
    pub path_as_base_owner: Option<String>,
    /// What the contract holds of the currency of the payment policy.
    pub payment_balance: u128,
    /// Whether the address of a proposed token policy answered as a token contract.
    pub token_is_valid: bool,
}

/// The answer to a query.
#[derive(Debug, Clone, PartialEq, Eq)]
pub enum QueryResponse {
    Config(Config),
    PaymentDetails(PaymentDetailsResponse),
    PaymentDetailsBalance(PaymentDetailsBalanceResponse),
    ClaimInfo(ClaimInfoResponse),
}

} // verus!
