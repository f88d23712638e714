use vstd::prelude::*;

use crate::msg::PaymentDetails;

verus! {

/// The configuration record.
#[derive(Debug, Clone, PartialEq, Eq)]
pub struct Config {
    pub whoami_address: String,
    pub admin: String,
    /// The root name held by the contract, if any.
    pub token_id: Option<String>,
    pub path_root_claim_blocks: Option<u64>,
    /// The height the claim window counts from.
    pub initial_height: u64,
}

/// Both persisted records: the configuration and the optional payment policy.
#[derive(Debug, Clone, PartialEq, Eq)]
pub struct State {
    pub config: Config,
    pub payment_details: Option<PaymentDetails>,
}

/// A policy is valid when one mint costs a positive amount.
pub open spec fn valid_payment(p: PaymentDetails) -> bool {
    p.spec_amount() > 0
}

impl State {
    /// The stored policy, if any, is valid.
    pub open spec fn wf(&self) -> bool {
        match self.payment_details {
            Some(p) => valid_payment(p),
            None => true,
        }
    }
}

impl Config {
    /// A copy of the configuration.
    pub fn copy(&self) -> (r: Self)
        ensures
            r == *self,
    {
        Config {
            whoami_address: self.whoami_address.clone(),
            admin: self.admin.clone(),
            token_id: match &self.token_id {
                Some(t) => Some(t.clone()),
                None => None,
            },
            path_root_claim_blocks: self.path_root_claim_blocks,
            initial_height: self.initial_height,
        }
    }
}

} // verus!
