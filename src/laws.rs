use vstd::prelude::*;

use crate::contract::{
    claim_active, execute_result, free_mint_result, mint_path_result, policy_result, query_result,
    receive_cw20_result, update_payment_details_result, payment_details_check,
};
use crate::error::ContractError;
use crate::msg::{
    Env, ExecuteMsg, MessageInfo, PaymentDetails, PaymentDetailsResponse, QueryMsg, QueryResponse,
    Queried,
};
use crate::state::State;

verus! {

/// While no root name is held, a direct mint request is refused with
/// `NoRootToken`, whatever is attached to it.
pub proof fn lemma_direct_mint_needs_root(
    s: State,
    height: u64,
    info: MessageInfo,
    path_owner: Option<String>,
)
    requires
        s.config.token_id is None,
    ensures
        mint_path_result(s, height, info, path_owner) == Err::<(), ContractError>(
            ContractError::NoRootToken,
        ),
{
}

/// While no root name is held, a paid mint forwarded by a token contract is
/// refused with `NoRootToken`, whoever forwards it and whatever the amount.
/// Without a payment policy such a request is refused earlier, with
/// `NoPaymentPolicy`.
pub proof fn lemma_forwarded_mint_needs_root(
    s: State,
    height: u64,
    forwarder: Seq<char>,
    payer: Seq<char>,
    amount: u128,
    path_owner: Option<String>,
)
    requires
        s.config.token_id is None,
        s.payment_details is Some,
    ensures
        receive_cw20_result(s, height, forwarder, payer, amount, path_owner) == Err::<
            (),
            ContractError,
        >(ContractError::NoRootToken),
{
}

/// Under a valid native policy, with the root name held and no claim in
/// force, a direct mint succeeds exactly when the attached funds are the one
/// coin `amount` of `denom`.
pub proof fn lemma_native_payment_exact(
    s: State,
    height: u64,
    info: MessageInfo,
    path_owner: Option<String>,
    denom: String,
    amount: u128,
)
    requires
        s.payment_details == Some(PaymentDetails::Native { denom, amount }),
        s.wf(),
        s.config.token_id is Some,
        !claim_active(s.config, height, path_owner),
    ensures
        mint_path_result(s, height, info, path_owner) is Ok <==> (info.funds@.len() == 1
            && info.funds@[0].denom@ == denom@ && info.funds@[0].amount == amount),
        mint_path_result(s, height, info, path_owner) is Err ==> (mint_path_result(
            s,
            height,
            info,
            path_owner,
        ) == Err::<(), ContractError>(ContractError::WrongDenom) || mint_path_result(
            s,
            height,
            info,
            path_owner,
        ) == Err::<(), ContractError>(ContractError::PaymentMismatch)),
{
}

/// Under a valid token policy, with the root name held and no claim in force,
/// a forwarded payment succeeds exactly when it comes from the configured
/// token contract with the configured amount; from another contract it is
/// refused with `UnrecognisedToken`, with another amount with
/// `InsufficientFunds`.
pub proof fn lemma_token_payment_exact(
    s: State,
    height: u64,
    forwarder: Seq<char>,
    payer: Seq<char>,
    paid: u128,
    path_owner: Option<String>,
    token_address: String,
    amount: u128,
)
    requires
        s.payment_details == Some(PaymentDetails::Cw20 { token_address, amount }),
        s.wf(),
        s.config.token_id is Some,
        !claim_active(s.config, height, path_owner),
    ensures
        receive_cw20_result(s, height, forwarder, payer, paid, path_owner) is Ok <==> (forwarder
            == token_address@ && paid == amount),
        forwarder != token_address@ ==> receive_cw20_result(
            s,
            height,
            forwarder,
            payer,
            paid,
            path_owner,
        ) == Err::<(), ContractError>(ContractError::UnrecognisedToken),
        forwarder == token_address@ && paid != amount ==> receive_cw20_result(
            s,
            height,
            forwarder,
            payer,
            paid,
            path_owner,
        ) == Err::<(), ContractError>(ContractError::InsufficientFunds),
{
}

/// The state after sending the request `msg` `n` times in a row.
pub open spec fn repeat_request(
    s: State,
    env: Env,
    info: MessageInfo,
    msg: ExecuteMsg,
    q: Queried,
    n: nat,
) -> State
    decreases n,
{
    if n == 0 {
        s
    } else {
        let t = repeat_request(s, env, info, msg, q, (n - 1) as nat);
        match execute_result(t, env, info, msg, q) {
            Ok(u) => u,
            Err(_) => t,
        }
    }
}

/// A refused request changes nothing, so sending it again any number of
/// times is refused each time and leaves the state as it was.
pub proof fn lemma_refused_request_repeats(
    s: State,
    env: Env,
    info: MessageInfo,
    msg: ExecuteMsg,
    q: Queried,
    n: nat,
)
    requires
        execute_result(s, env, info, msg, q) is Err,
    ensures
        repeat_request(s, env, info, msg, q, n) == s,
    decreases n,
{
    if n > 0 {
        lemma_refused_request_repeats(s, env, info, msg, q, (n - 1) as nat);
    }
}

/// A claim is in force exactly when a window length `w` is configured, the
/// reference height plus `w` lies below the current height, and the
/// namesake top-level name has an owner. Then the owner mints for free,
/// whatever the policy, and anyone else is refused with `ClaimWindowActive`;
/// otherwise the payment policy decides.
pub proof fn lemma_claim_window(s: State, height: u64, info: MessageInfo, path_owner: Option<String>)
    requires
        s.config.token_id is Some,
    ensures
        claim_active(s.config, height, path_owner) <==> (path_owner is Some
            && s.config.path_root_claim_blocks is Some && s.config.initial_height
            + s.config.path_root_claim_blocks.unwrap() < height),
        claim_active(s.config, height, path_owner) && info.sender@ == path_owner.unwrap()@
            ==> mint_path_result(s, height, info, path_owner) == free_mint_result(info.funds@),
        claim_active(s.config, height, path_owner) && info.sender@ == path_owner.unwrap()@
            && info.funds@.len() == 0 ==> mint_path_result(s, height, info, path_owner) is Ok,
        claim_active(s.config, height, path_owner) && info.sender@ != path_owner.unwrap()@
            ==> mint_path_result(s, height, info, path_owner) == Err::<(), ContractError>(
            ContractError::ClaimWindowActive,
        ),
        !claim_active(s.config, height, path_owner) ==> mint_path_result(
            s,
            height,
            info,
            path_owner,
        ) == policy_result(s.payment_details, info.funds@),
{
}

/// After the admin sets the payment policy to `p`, reading the policy gives
/// `p` back; after clearing it, reading gives nothing.
pub proof fn lemma_payment_details_round_trip(
    s: State,
    sender: Seq<char>,
    p: Option<PaymentDetails>,
    token_is_valid: bool,
    env: Env,
    q: Queried,
)
    requires
        sender == s.config.admin@,
        p matches Some(d) ==> payment_details_check(d, token_is_valid) is Ok,
    ensures
        update_payment_details_result(s, sender, p, token_is_valid) matches Ok(t) && query_result(
            t,
            env.height,
            QueryMsg::PaymentDetails {  },
            q,
        ) == QueryResponse::PaymentDetails(PaymentDetailsResponse { payment_details: p }),
{
}

} // verus!
