use vstd::prelude::*;
use vstd::string::*;

use crate::error::ContractError;
use crate::msg::{
    ClaimInfoResponse, Coin, Cw20ReceiveMsg, Cw721ReceiveMsg, Env, ExecuteMsg, InstantiateMsg,
    MessageInfo, MigrateMsg, OutboundMsg, PaymentDetails, PaymentDetailsBalanceResponse,
    PaymentDetailsResponse, Queried, QueryMsg, QueryResponse, ReceiveMsg, RegistryMsg,
};
use crate::state::{valid_payment, Config, State};

verus! {

/// The claim window is open when a window length is configured and the
/// reference height plus that length lies strictly below the current height.
pub open spec fn claim_window_open(
    window: Option<u64>,
    reference_height: u64,
    current_height: u64,
) -> bool {
    match window {
        Some(w) => reference_height + w < current_height,
        None => false,
    }
}

/// Whether the claim window is open at `current_height`.
pub fn is_in_claim_window(
    path_root_claim_window: Option<u64>,
    init_height: u64,
    current_height: u64,
) -> (r: bool)
    ensures
        r == claim_window_open(path_root_claim_window, init_height, current_height),
{
    match path_root_claim_window {
        Some(w) => match init_height.checked_add(w) {
            Some(end) => end < current_height,
            None => false,
        },
        None => false,
    }
}

/// A claim is in force: the path's namesake has an owner and the window is open.
pub open spec fn claim_active(c: Config, height: u64, path_owner: Option<String>) -> bool {
    path_owner is Some && claim_window_open(c.path_root_claim_blocks, c.initial_height, height)
}

/// Some coin in `funds` has a positive amount.
pub open spec fn has_nonzero_funds(funds: Seq<Coin>) -> bool {
    exists|i: int| 0 <= i < funds.len() && #[trigger] funds[i].amount > 0
}

/// The outcome of a mint that costs nothing: no positive amount may be attached.
pub open spec fn free_mint_result(funds: Seq<Coin>) -> Result<(), ContractError> {
    if has_nonzero_funds(funds) {
        Err(ContractError::UnexpectedPayment)
    } else {
        Ok(())
    }
}

/// The outcome of paying with `funds` where exactly `amount` of `denom` is due:
/// the funds must be that single coin.
pub open spec fn native_payment_result(funds: Seq<Coin>, denom: Seq<char>, amount: u128) -> Result<
    (),
    ContractError,
> {
    if funds.len() == 0 {
        Err(ContractError::PaymentMismatch)
    } else if funds.len() > 1 || funds[0].denom@ != denom {
        Err(ContractError::WrongDenom)
    } else if funds[0].amount != amount {
        Err(ContractError::PaymentMismatch)
    } else {
        Ok(())
    }
}

/// Refuses any positive amount attached to the request.
fn check_no_payment(info: &MessageInfo) -> (r: Result<(), ContractError>)
    ensures
        r == free_mint_result(info.funds@),
{
    let mut i: usize = 0;
    while i < info.funds.len()
        invariant
            i <= info.funds@.len(),
            forall|j: int| 0 <= j < i ==> info.funds@[j].amount == 0,
        decreases info.funds@.len() - i,
    {
        if info.funds[i].amount > 0 {
            return Err(ContractError::UnexpectedPayment);
        }
        i = i + 1;
    }
    Ok(())
}

/// Accepts the attached funds only when they are exactly `amount` of `denom`.
fn check_native_payment(info: &MessageInfo, denom: &String, amount: u128) -> (r: Result<
    (),
    ContractError,
>)
    ensures
        r == native_payment_result(info.funds@, denom@, amount),
{
    if info.funds.len() == 0 {
        Err(ContractError::PaymentMismatch)
    } else if info.funds.len() > 1 || info.funds[0].denom != *denom {
        Err(ContractError::WrongDenom)
    } else if info.funds[0].amount != amount {
        Err(ContractError::PaymentMismatch)
    } else {
        Ok(())
    }
}

/// The identifier of the path `path` under the root name `root`.
pub open spec fn path_token_id(root: Seq<char>, path: Seq<char>) -> Seq<char> {
    root + "::"@ + path
}

/// `m` asks the registry at `registry` to register `path` under `parent`, owned by `owner`.
pub open spec fn is_registry_mint(
    m: OutboundMsg,
    registry: Seq<char>,
    path: Seq<char>,
    owner: Seq<char>,
    parent: Seq<char>,
) -> bool {
    match m {
        OutboundMsg::Registry {
            contract_addr,
            msg: RegistryMsg::MintPath { token_id, owner: o, parent_token_id },
        } => contract_addr@ == registry && token_id@ == path && o@ == owner && parent_token_id@
            == parent,
        _ => false,
    }
}

/// `m` asks the registry at `registry` to hand the name `token` to `recipient`.
pub open spec fn is_registry_transfer(
    m: OutboundMsg,
    registry: Seq<char>,
    recipient: Seq<char>,
    token: Seq<char>,
) -> bool {
    match m {
        OutboundMsg::Registry {
            contract_addr,
            msg: RegistryMsg::TransferNft { recipient: r, token_id },
        } => contract_addr@ == registry && r@ == recipient && token_id@ == token,
        _ => false,
    }
}

/// The two calls that mint `path` under `root` for `owner`: first the registry
/// registers the path, owned by this contract, then it hands the new name over.
pub open spec fn is_mint_path_msgs(
    msgs: Seq<OutboundMsg>,
    registry: Seq<char>,
    contract: Seq<char>,
    owner: Seq<char>,
    root: Seq<char>,
    path: Seq<char>,
) -> bool {
    &&& msgs.len() == 2
    &&& is_registry_mint(msgs[0], registry, path, contract, root)
    &&& is_registry_transfer(msgs[1], registry, owner, path_token_id(root, path))
}

/// Builds the calls that mint `path` under the root name `token_id` and hand it to `owner`.
pub fn mint_path_msg(
    whoami_address: String,
    contract: String,
    owner: String,
    token_id: String,
    path: String,
) -> (r: Vec<OutboundMsg>)
    ensures
        is_mint_path_msgs(r@, whoami_address@, contract@, owner@, token_id@, path@),
{
    let full_id = token_id.clone().concat("::").concat(path.as_str());
    let register = OutboundMsg::Registry {
        contract_addr: whoami_address.clone(),
        msg: RegistryMsg::MintPath { token_id: path, owner: contract, parent_token_id: token_id },
    };
    let transfer = OutboundMsg::Registry {
        contract_addr: whoami_address,
        msg: RegistryMsg::TransferNft { recipient: owner, token_id: full_id },
    };
    let mut msgs: Vec<OutboundMsg> = Vec::new();
    msgs.push(register);
    msgs.push(transfer);
    msgs
}

/// Mints `path` for `minter` once the amount paid matches the amount required.
fn mint(
    env: &Env,
    whoami_address: String,
    token_id: String,
    path: String,
    minter: String,
    amount_paid: u128,
    amount_required: u128,
) -> (r: Result<Vec<OutboundMsg>, ContractError>)
    ensures
        amount_paid != amount_required ==> r == Err::<Vec<OutboundMsg>, ContractError>(
            ContractError::InsufficientFunds,
        ),
        amount_paid == amount_required ==> (r matches Ok(msgs) && is_mint_path_msgs(
            msgs@,
            whoami_address@,
            env.contract_address@,
            minter@,
            token_id@,
            path@,
        )),
{
    if amount_paid != amount_required {
        return Err(ContractError::InsufficientFunds);
    }
    Ok(mint_path_msg(whoami_address, env.contract_address.clone(), minter, token_id, path))
}


/// The outcome of paying `funds` on a direct call under the policy `p`.
pub open spec fn policy_result(p: Option<PaymentDetails>, funds: Seq<Coin>) -> Result<
    (),
    ContractError,
> {
    match p {
        None => free_mint_result(funds),
        Some(PaymentDetails::Native { denom, amount }) => native_payment_result(funds, denom@, amount),
        Some(PaymentDetails::Cw20 { .. }) => Err(ContractError::WrongPaymentChannel),
    }
}

/// The outcome of a direct mint request by `info.sender` with `info.funds`
/// attached, where `path_owner` owns the top-level name spelled like the path.
pub open spec fn mint_path_result(
    s: State,
    height: u64,
    info: MessageInfo,
    path_owner: Option<String>,
) -> Result<(), ContractError> {
    if s.config.token_id is None {
        Err(ContractError::NoRootToken)
    } else if claim_active(s.config, height, path_owner) {
        if info.sender@ == path_owner.unwrap()@ {
            free_mint_result(info.funds@)
        } else {
            Err(ContractError::ClaimWindowActive)
        }
    } else {
        policy_result(s.payment_details, info.funds@)
    }
}

/// Mints `path` for the sender, who pays with the funds attached to the call.
/// `path_as_base_owner` is the owner of the top-level name spelled like the
/// path, as the registry reports it.
pub fn execute_mint_path(
    state: &State,
    env: &Env,
    info: &MessageInfo,
    path: String,
    path_as_base_owner: Option<String>,
) -> (r: Result<Vec<OutboundMsg>, ContractError>)
    ensures
        match r {
            Ok(msgs) => mint_path_result(*state, env.height, *info, path_as_base_owner) == Ok::<
                (),
                ContractError,
            >(())
                && is_mint_path_msgs(
                msgs@,
                state.config.whoami_address@,
                env.contract_address@,
                info.sender@,
                state.config.token_id.unwrap()@,
                path@,
            ),
            Err(e) => mint_path_result(*state, env.height, *info, path_as_base_owner) == Err::<
                (),
                ContractError,
            >(e),
        },
{
    let token_id = match &state.config.token_id {
        Some(t) => t.clone(),
        None => return Err(ContractError::NoRootToken),
    };
    let mut claimed = false;
    if let Some(owner) = &path_as_base_owner {
        if is_in_claim_window(
            state.config.path_root_claim_blocks,
            state.config.initial_height,
            env.height,
        ) {
            if info.sender == *owner {
                claimed = true;
            } else {
                return Err(ContractError::ClaimWindowActive);
            }
        }
    }
    let paid = if claimed {
        check_no_payment(info)
    } else {
        match &state.payment_details {
            None => check_no_payment(info),
            Some(PaymentDetails::Native { denom, amount }) => check_native_payment(info, denom, *amount),
            Some(PaymentDetails::Cw20 { .. }) => Err(ContractError::WrongPaymentChannel),
        }
    };
    match paid {
        Err(e) => Err(e),
        Ok(()) => Ok(
            mint_path_msg(
                state.config.whoami_address.clone(),
                env.contract_address.clone(),
                info.sender.clone(),
                token_id,
                path,
            ),
        ),
    }
}

/// The outcome of a mint request carried by a token payment that `forwarder`
/// forwards on behalf of `payer`.
pub open spec fn receive_cw20_result(
    s: State,
    height: u64,
    forwarder: Seq<char>,
    payer: Seq<char>,
    amount: u128,
    path_owner: Option<String>,
) -> Result<(), ContractError> {
    match s.payment_details {
        None => Err(ContractError::NoPaymentPolicy),
        Some(p) => if s.config.token_id is None {
            Err(ContractError::NoRootToken)
        } else if claim_active(s.config, height, path_owner) {
            if payer == path_owner.unwrap()@ {
                Err(ContractError::NoPaymentNeeded)
            } else {
                Err(ContractError::ClaimWindowActive)
            }
        } else {
            match p {
                PaymentDetails::Native { .. } => Err(ContractError::Unauthorized),
                PaymentDetails::Cw20 { token_address, amount: due } => if forwarder
                    != token_address@ {
                    Err(ContractError::UnrecognisedToken)
                } else if amount != due {
                    Err(ContractError::InsufficientFunds)
                } else {
                    Ok(())
                },
            }
        },
    }
}

/// What refuses any forwarded token payment before its content is read: no
/// payment policy, or no root name held.
pub open spec fn receivable_result(s: State) -> Result<(), ContractError> {
    if s.payment_details is None {
        Err(ContractError::NoPaymentPolicy)
    } else if s.config.token_id is None {
        Err(ContractError::NoRootToken)
    } else {
        Ok(())
    }
}

/// Refuses a forwarded token payment that no content could make acceptable.
/// Whenever this refuses, `execute_receive_cw20` refuses with the same error.
pub fn check_receivable(state: &State) -> (r: Result<(), ContractError>)
    ensures
        r == receivable_result(*state),
        forall|
            height: u64,
            forwarder: Seq<char>,
            payer: Seq<char>,
            amount: u128,
            owner: Option<String>,
        |
            r is Err ==> #[trigger] receive_cw20_result(
                *state,
                height,
                forwarder,
                payer,
                amount,
                owner,
            ) == r,
{
    if state.payment_details.is_none() {
        Err(ContractError::NoPaymentPolicy)
    } else if state.config.token_id.is_none() {
        Err(ContractError::NoRootToken)
    } else {
        Ok(())
    }
}

/// Whether `sender` is the admin.
pub open spec fn admin_result(s: State, sender: Seq<char>) -> Result<(), ContractError> {
    if sender != s.config.admin@ {
        Err(ContractError::Unauthorized)
    } else {
        Ok(())
    }
}

/// Refuses a request whose sender is not the admin.
pub fn check_admin(state: &State, info: &MessageInfo) -> (r: Result<(), ContractError>)
    ensures
        r == admin_result(*state, info.sender@),
{
    if info.sender != state.config.admin {
        Err(ContractError::Unauthorized)
    } else {
        Ok(())
    }
}

/// The path that a forwarded payment asks to mint.
pub open spec fn receive_path(m: ReceiveMsg) -> String {
    match m {
        ReceiveMsg::MintPath { path } => path,
    }
}

/// Mints a path for the payer of a token transfer that the token contract
/// `info.sender` forwards.
pub fn execute_receive_cw20(
    state: &State,
    env: &Env,
    info: &MessageInfo,
    cw20_receive: Cw20ReceiveMsg,
    path_as_base_owner: Option<String>,
) -> (r: Result<Vec<OutboundMsg>, ContractError>)
    ensures
        match r {
            Ok(msgs) => receive_cw20_result(
                *state,
                env.height,
                info.sender@,
                cw20_receive.sender@,
                cw20_receive.amount,
                path_as_base_owner,
            ) == Ok::<(), ContractError>(()) && is_mint_path_msgs(
                msgs@,
                state.config.whoami_address@,
                env.contract_address@,
                cw20_receive.sender@,
                state.config.token_id.unwrap()@,
                receive_path(cw20_receive.msg)@,
            ),
            Err(e) => receive_cw20_result(
                *state,
                env.height,
                info.sender@,
                cw20_receive.sender@,
                cw20_receive.amount,
                path_as_base_owner,
            ) == Err::<(), ContractError>(e),
        },
{
    let payment_details = match &state.payment_details {
        Some(p) => p,
        None => return Err(ContractError::NoPaymentPolicy),
    };
    let token_id = match &state.config.token_id {
        Some(t) => t.clone(),
        None => return Err(ContractError::NoRootToken),
    };
    let path = match cw20_receive.msg {
        ReceiveMsg::MintPath { path } => path,
    };
    if let Some(owner) = &path_as_base_owner {
        if is_in_claim_window(
            state.config.path_root_claim_blocks,
            state.config.initial_height,
            env.height,
        ) {
            if cw20_receive.sender == *owner {
                return Err(ContractError::NoPaymentNeeded);
            } else {
                return Err(ContractError::ClaimWindowActive);
            }
        }
    }
    match payment_details {
        PaymentDetails::Cw20 { token_address, amount } => {
            if info.sender != *token_address {
                return Err(ContractError::UnrecognisedToken);
            }
            mint(
                env,
                state.config.whoami_address.clone(),
                token_id,
                path,
                cw20_receive.sender,
                cw20_receive.amount,
                *amount,
            )
        },
        PaymentDetails::Native { .. } => Err(ContractError::Unauthorized),
    }
}


/// The state `s` with `admin` in place of its admin.
pub open spec fn with_admin(s: State, admin: String) -> State {
    State { config: Config { admin: admin, ..s.config }, ..s }
}

/// The state `s` with the root name slot set to `token_id`.
pub open spec fn with_root(s: State, token_id: Option<String>) -> State {
    State { config: Config { token_id: token_id, ..s.config }, ..s }
}

/// The outcome of the registry at `forwarder` handing over the name
/// `token_id`, previously owned by `previous_owner`.
pub open spec fn receive_cw721_result(
    s: State,
    forwarder: Seq<char>,
    previous_owner: Seq<char>,
    token_id: String,
) -> Result<State, ContractError> {
    if forwarder != s.config.whoami_address@ {
        Err(ContractError::Unauthorized)
    } else if s.config.token_id is Some {
        Err(ContractError::ExistingRootToken)
    } else if previous_owner != s.config.admin@ {
        Err(ContractError::Unauthorized)
    } else {
        Ok(with_root(s, Some(token_id)))
    }
}

/// Takes custody of the root name that the registry `info.sender` forwards.
pub fn execute_receive_cw721(
    state: &mut State,
    info: &MessageInfo,
    cw721_receive: Cw721ReceiveMsg,
) -> (r: Result<Vec<OutboundMsg>, ContractError>)
    ensures
        match r {
            Ok(msgs) => msgs@.len() == 0 && receive_cw721_result(
                *old(state),
                info.sender@,
                cw721_receive.sender@,
                cw721_receive.token_id,
            ) == Ok::<State, ContractError>(*final(state)),
            Err(e) => *final(state) == *old(state) && receive_cw721_result(
                *old(state),
                info.sender@,
                cw721_receive.sender@,
                cw721_receive.token_id,
            ) == Err::<State, ContractError>(e),
        },
{
    if state.config.whoami_address != info.sender {
        return Err(ContractError::Unauthorized);
    }
    if state.config.token_id.is_some() {
        return Err(ContractError::ExistingRootToken);
    }
    if cw721_receive.sender != state.config.admin {
        return Err(ContractError::Unauthorized);
    }
    state.config.token_id = Some(cw721_receive.token_id);
    Ok(Vec::new())
}

/// The outcome of `sender` asking to hand administration to `new_admin`.
pub open spec fn update_admin_result(s: State, sender: Seq<char>, new_admin: String) -> Result<
    State,
    ContractError,
> {
    if sender != s.config.admin@ {
        Err(ContractError::Unauthorized)
    } else {
        Ok(with_admin(s, new_admin))
    }
}

/// Replaces the admin; only the current admin may do so.
pub fn execute_update_admin(state: &mut State, info: &MessageInfo, new_admin: String) -> (r: Result<
    Vec<OutboundMsg>,
    ContractError,
>)
    ensures
        match r {
            Ok(msgs) => msgs@.len() == 0 && update_admin_result(*old(state), info.sender@, new_admin)
                == Ok::<State, ContractError>(*final(state)),
            Err(e) => *final(state) == *old(state) && update_admin_result(
                *old(state),
                info.sender@,
                new_admin,
            ) == Err::<State, ContractError>(e),
        },
{
    if let Err(e) = check_admin(state, info) {
        return Err(e);
    }
    state.config.admin = new_admin;
    Ok(Vec::new())
}

/// The outcome of `sender` asking for the root name back.
pub open spec fn withdraw_root_token_result(s: State, sender: Seq<char>) -> Result<
    State,
    ContractError,
> {
    if sender != s.config.admin@ {
        Err(ContractError::Unauthorized)
    } else if s.config.token_id is None {
        Err(ContractError::NoRootToken)
    } else {
        Ok(with_root(s, None))
    }
}

/// Hands the root name back to the admin and empties the root slot.
pub fn execute_withdraw_root_token(state: &mut State, info: &MessageInfo) -> (r: Result<
    Vec<OutboundMsg>,
    ContractError,
>)
    ensures
        match r {
            Ok(msgs) => withdraw_root_token_result(*old(state), info.sender@) == Ok::<
                State,
                ContractError,
            >(*final(state)) && msgs@.len() == 1 && is_registry_transfer(
                msgs@[0],
                old(state).config.whoami_address@,
                old(state).config.admin@,
                old(state).config.token_id.unwrap()@,
            ),
            Err(e) => *final(state) == *old(state) && withdraw_root_token_result(
                *old(state),
                info.sender@,
            ) == Err::<State, ContractError>(e),
        },
{
    if let Err(e) = check_admin(state, info) {
        return Err(e);
    }
    let token_id = match state.config.token_id.take() {
        Some(t) => t,
        None => return Err(ContractError::NoRootToken),
    };
    let transfer = OutboundMsg::Registry {
        contract_addr: state.config.whoami_address.clone(),
        msg: RegistryMsg::TransferNft { recipient: state.config.admin.clone(), token_id },
    };
    let mut msgs: Vec<OutboundMsg> = Vec::new();
    msgs.push(transfer);
    Ok(msgs)
}

/// Whether `p` may become the payment policy; `token_is_valid` says whether a
/// token policy's address answered as a token contract.
pub open spec fn payment_details_check(p: PaymentDetails, token_is_valid: bool) -> Result<
    (),
    ContractError,
> {
    match p {
        PaymentDetails::Cw20 { amount, .. } => if !token_is_valid {
            Err(ContractError::InvalidTokenReference)
        } else if amount == 0 {
            Err(ContractError::InvalidPaymentAmount)
        } else {
            Ok(())
        },
        PaymentDetails::Native { amount, .. } => if amount == 0 {
            Err(ContractError::InvalidPaymentAmount)
        } else {
            Ok(())
        },
    }
}

/// Checks a payment policy before it is stored.
pub fn validate_payment_details(p: &PaymentDetails, token_is_valid: bool) -> (r: Result<
    (),
    ContractError,
>)
    ensures
        r == payment_details_check(*p, token_is_valid),
        r is Ok ==> valid_payment(*p),
{
    match p {
        PaymentDetails::Cw20 { amount, .. } => {
            if !token_is_valid {
                Err(ContractError::InvalidTokenReference)
            } else if *amount == 0 {
                Err(ContractError::InvalidPaymentAmount)
            } else {
                Ok(())
            }
        },
        PaymentDetails::Native { amount, .. } => {
            if *amount == 0 {
                Err(ContractError::InvalidPaymentAmount)
            } else {
                Ok(())
            }
        },
    }
}

/// The outcome of `sender` asking to replace the payment policy by `p`.
pub open spec fn update_payment_details_result(
    s: State,
    sender: Seq<char>,
    p: Option<PaymentDetails>,
    token_is_valid: bool,
) -> Result<State, ContractError> {
    if sender != s.config.admin@ {
        Err(ContractError::Unauthorized)
    } else {
        match p {
            None => Ok(State { payment_details: None, ..s }),
            Some(d) => match payment_details_check(d, token_is_valid) {
                Err(e) => Err(e),
                Ok(()) => Ok(State { payment_details: Some(d), ..s }),
            },
        }
    }
}

/// Replaces or clears the payment policy; only the admin may do so.
pub fn execute_update_payment_details(
    state: &mut State,
    info: &MessageInfo,
    payment_details: Option<PaymentDetails>,
    token_is_valid: bool,
) -> (r: Result<Vec<OutboundMsg>, ContractError>)
    ensures
        match r {
            Ok(msgs) => msgs@.len() == 0 && update_payment_details_result(
                *old(state),
                info.sender@,
                payment_details,
                token_is_valid,
            ) == Ok::<State, ContractError>(*final(state)),
            Err(e) => *final(state) == *old(state) && update_payment_details_result(
                *old(state),
                info.sender@,
                payment_details,
                token_is_valid,
            ) == Err::<State, ContractError>(e),
        },
{
    if let Err(e) = check_admin(state, info) {
        return Err(e);
    }
    if let Some(p) = &payment_details {
        if let Err(e) = validate_payment_details(p, token_is_valid) {
            return Err(e);
        }
    }
    state.payment_details = payment_details;
    Ok(Vec::new())
}


/// The outcome of `sender` asking to collect the payments, where `balance` is
/// what the contract holds of the policy's token or coin.
pub open spec fn withdraw_payments_result(s: State, sender: Seq<char>, balance: u128) -> Result<
    (),
    ContractError,
> {
    if sender != s.config.admin@ {
        Err(ContractError::Unauthorized)
    } else if s.payment_details is None || balance == 0 {
        Err(ContractError::NoPaymentsToCollect)
    } else {
        Ok(())
    }
}

/// `m` pays `balance` of the currency of `p` to `admin`.
pub open spec fn is_payout(m: OutboundMsg, p: PaymentDetails, admin: Seq<char>, balance: u128) -> bool {
    match p {
        PaymentDetails::Cw20 { token_address, .. } => match m {
            OutboundMsg::Cw20Transfer { contract_addr, recipient, amount } => contract_addr@
                == token_address@ && recipient@ == admin && amount == balance,
            _ => false,
        },
        PaymentDetails::Native { denom, .. } => match m {
            OutboundMsg::BankSend { to_address, coin } => to_address@ == admin && coin.denom@
                == denom@ && coin.amount == balance,
            _ => false,
        },
    }
}

/// Sends the whole collected balance to the admin. `balance` is what the
/// contract holds of the currency of the payment policy.
pub fn execute_withdraw_payments(state: &State, info: &MessageInfo, balance: u128) -> (r: Result<
    Vec<OutboundMsg>,
    ContractError,
>)
    ensures
        match r {
            Ok(msgs) => withdraw_payments_result(*state, info.sender@, balance) == Ok::<
                (),
                ContractError,
            >(()) && msgs@.len() == 1 && is_payout(
                msgs@[0],
                state.payment_details.unwrap(),
                state.config.admin@,
                balance,
            ),
            Err(e) => withdraw_payments_result(*state, info.sender@, balance) == Err::<
                (),
                ContractError,
            >(e),
        },
{
    if let Err(e) = check_admin(state, info) {
        return Err(e);
    }
    let payment_details = match &state.payment_details {
        Some(p) => p,
        None => return Err(ContractError::NoPaymentsToCollect),
    };
    if balance == 0 {
        return Err(ContractError::NoPaymentsToCollect);
    }
    let payout = match payment_details {
        PaymentDetails::Cw20 { token_address, .. } => OutboundMsg::Cw20Transfer {
            contract_addr: token_address.clone(),
            recipient: state.config.admin.clone(),
            amount: balance,
        },
        PaymentDetails::Native { denom, .. } => OutboundMsg::BankSend {
            to_address: state.config.admin.clone(),
            coin: Coin { denom: denom.clone(), amount: balance },
        },
    };
    let mut msgs: Vec<OutboundMsg> = Vec::new();
    msgs.push(payout);
    Ok(msgs)
}

/// The state that instantiation with `msg` at `height` creates, or the
/// reason it is refused.
pub open spec fn instantiate_result(height: u64, msg: InstantiateMsg, token_is_valid: bool) -> Result<
    State,
    ContractError,
> {
    let s = State {
        config: Config {
            whoami_address: msg.whoami_address,
            admin: msg.admin,
            token_id: None,
            path_root_claim_blocks: msg.path_root_claim_blocks,
            initial_height: height,
        },
        payment_details: msg.payment_details,
    };
    match msg.payment_details {
        None => Ok(s),
        Some(p) => match payment_details_check(p, token_is_valid) {
            Err(e) => Err(e),
            Ok(()) => Ok(s),
        },
    }
}

/// Creates the contract's state. `token_is_valid` says whether the address of
/// a token payment policy answered as a token contract.
pub fn instantiate(env: &Env, msg: InstantiateMsg, token_is_valid: bool) -> (r: Result<
    State,
    ContractError,
>)
    ensures
        r == instantiate_result(env.height, msg, token_is_valid),
        r matches Ok(s) ==> s.wf(),
{
    if let Some(p) = &msg.payment_details {
        if let Err(e) = validate_payment_details(p, token_is_valid) {
            return Err(e);
        }
    }
    Ok(
        State {
            config: Config {
                whoami_address: msg.whoami_address,
                admin: msg.admin,
                token_id: None,
                path_root_claim_blocks: msg.path_root_claim_blocks,
                initial_height: env.height,
            },
            payment_details: msg.payment_details,
        },
    )
}

/// Restarts the claim window at the current height, with a new length.
pub fn migrate(state: &mut State, env: &Env, msg: MigrateMsg)
    ensures
        *final(state) == (State {
            config: Config {
                initial_height: env.height,
                path_root_claim_blocks: msg.path_root_claim_blocks,
                ..old(state).config
            },
            ..*old(state)
        }),
{
    state.config.initial_height = env.height;
    state.config.path_root_claim_blocks = msg.path_root_claim_blocks;
}


/// A copy of the stored payment policy.
fn copy_payment_details(p: &Option<PaymentDetails>) -> (r: Option<PaymentDetails>)
    ensures
        r == *p,
{
    match p {
        Some(d) => Some(d.copy()),
        None => None,
    }
}

/// The stored policy and, where there is one, the collected `balance`.
pub open spec fn balance_response(s: State, balance: u128) -> PaymentDetailsBalanceResponse {
    match s.payment_details {
        Some(p) => PaymentDetailsBalanceResponse { payment_details: Some(p), amount: balance },
        None => PaymentDetailsBalanceResponse { payment_details: None, amount: 0 },
    }
}

/// The payment policy.
pub fn query_payment_details(state: &State) -> (r: PaymentDetailsResponse)
    ensures
        r.payment_details == state.payment_details,
{
    PaymentDetailsResponse { payment_details: copy_payment_details(&state.payment_details) }
}

/// The payment policy and what has been collected under it. `balance` is what
/// the contract holds of the policy's currency.
pub fn query_payment_details_balance(state: &State, balance: u128) -> (r:
    PaymentDetailsBalanceResponse)
    ensures
        r == balance_response(*state, balance),
{
    match &state.payment_details {
        Some(p) => PaymentDetailsBalanceResponse { payment_details: Some(p.copy()), amount: balance },
        None => PaymentDetailsBalanceResponse { payment_details: None, amount: 0 },
    }
}

/// Whether the claim window is open, and who owns the top-level name spelled
/// like the path.
pub fn query_claim_info(state: &State, env: &Env, path_as_base_owner: Option<String>) -> (r:
    ClaimInfoResponse)
    ensures
        r == (ClaimInfoResponse {
            is_in_claim_window: claim_window_open(
                state.config.path_root_claim_blocks,
                state.config.initial_height,
                env.height,
            ),
            path_as_base_owner: path_as_base_owner,
        }),
{
    ClaimInfoResponse {
        is_in_claim_window: is_in_claim_window(
            state.config.path_root_claim_blocks,
            state.config.initial_height,
            env.height,
        ),
        path_as_base_owner,
    }
}

/// The answer to the query `msg`.
pub open spec fn query_result(s: State, height: u64, msg: QueryMsg, q: Queried) -> QueryResponse {
    match msg {
        QueryMsg::Config {  } => QueryResponse::Config(s.config),
        QueryMsg::PaymentDetails {  } => QueryResponse::PaymentDetails(
            PaymentDetailsResponse { payment_details: s.payment_details },
        ),
        QueryMsg::PaymentDetailsBalance {  } => QueryResponse::PaymentDetailsBalance(
            balance_response(s, q.payment_balance),
        ),
        QueryMsg::ClaimInfo { .. } => QueryResponse::ClaimInfo(
            ClaimInfoResponse {
                is_in_claim_window: claim_window_open(
                    s.config.path_root_claim_blocks,
                    s.config.initial_height,
                    height,
                ),
                path_as_base_owner: q.path_as_base_owner,
            },
        ),
    }
}

/// Answers a query on the state.
pub fn query(state: &State, env: &Env, msg: QueryMsg, queried: Queried) -> (r: QueryResponse)
    ensures
        r == query_result(*state, env.height, msg, queried),
{
    match msg {
        QueryMsg::Config {  } => QueryResponse::Config(state.config.copy()),
        QueryMsg::PaymentDetails {  } => QueryResponse::PaymentDetails(
            query_payment_details(state),
        ),
        QueryMsg::PaymentDetailsBalance {  } => QueryResponse::PaymentDetailsBalance(
            query_payment_details_balance(state, queried.payment_balance),
        ),
        QueryMsg::ClaimInfo { .. } => QueryResponse::ClaimInfo(
            query_claim_info(state, env, queried.path_as_base_owner),
        ),
    }
}

/// A check that changes nothing, as a transition of the state.
pub open spec fn keep_on_success(s: State, r: Result<(), ContractError>) -> Result<State, ContractError> {
    match r {
        Ok(()) => Ok(s),
        Err(e) => Err(e),
    }
}

/// The state after the request `msg`, or the reason it is refused.
pub open spec fn execute_result(
    s: State,
    env: Env,
    info: MessageInfo,
    msg: ExecuteMsg,
    q: Queried,
) -> Result<State, ContractError> {
    match msg {
        ExecuteMsg::Receive(m) => keep_on_success(
            s,
            receive_cw20_result(
                s,
                env.height,
                info.sender@,
                m.sender@,
                m.amount,
                q.path_as_base_owner,
            ),
        ),
        ExecuteMsg::ReceiveNft(m) => receive_cw721_result(s, info.sender@, m.sender@, m.token_id),
        ExecuteMsg::MintPath { .. } => keep_on_success(
            s,
            mint_path_result(s, env.height, info, q.path_as_base_owner),
        ),
        ExecuteMsg::UpdateAdmin { new_admin } => update_admin_result(s, info.sender@, new_admin),
        ExecuteMsg::UpdatePaymentDetails { payment_details } => update_payment_details_result(
            s,
            info.sender@,
            payment_details,
            q.token_is_valid,
        ),
        ExecuteMsg::WithdrawPayments {  } => keep_on_success(
            s,
            withdraw_payments_result(s, info.sender@, q.payment_balance),
        ),
        ExecuteMsg::WithdrawRootToken {  } => withdraw_root_token_result(s, info.sender@),
    }
}

/// The calls that a successful request `msg` hands to the host.
pub open spec fn execute_msgs(
    s: State,
    env: Env,
    info: MessageInfo,
    msg: ExecuteMsg,
    q: Queried,
    msgs: Seq<OutboundMsg>,
) -> bool {
    match msg {
        ExecuteMsg::Receive(m) => is_mint_path_msgs(
            msgs,
            s.config.whoami_address@,
            env.contract_address@,
            m.sender@,
            s.config.token_id.unwrap()@,
            receive_path(m.msg)@,
        ),
        ExecuteMsg::MintPath { path } => is_mint_path_msgs(
            msgs,
            s.config.whoami_address@,
            env.contract_address@,
            info.sender@,
            s.config.token_id.unwrap()@,
            path@,
        ),
        ExecuteMsg::WithdrawPayments {  } => msgs.len() == 1 && is_payout(
            msgs[0],
            s.payment_details.unwrap(),
            s.config.admin@,
            q.payment_balance,
        ),
        ExecuteMsg::WithdrawRootToken {  } => msgs.len() == 1 && is_registry_transfer(
            msgs[0],
            s.config.whoami_address@,
            s.config.admin@,
            s.config.token_id.unwrap()@,
        ),
        _ => msgs.len() == 0,
    }
}

/// Handles one request. On success the state becomes the one that
/// `execute_result` gives and the calls are handed to the host; on failure
/// nothing changes.
pub fn execute(
    state: &mut State,
    env: &Env,
    info: &MessageInfo,
    msg: ExecuteMsg,
    queried: Queried,
) -> (r: Result<Vec<OutboundMsg>, ContractError>)
    requires
        old(state).wf(),
    ensures
        final(state).wf(),
        match r {
            Ok(msgs) => execute_result(*old(state), *env, *info, msg, queried) == Ok::<
                State,
                ContractError,
            >(*final(state)) && execute_msgs(*old(state), *env, *info, msg, queried, msgs@),
            Err(e) => *final(state) == *old(state) && execute_result(
                *old(state),
                *env,
                *info,
                msg,
                queried,
            ) == Err::<State, ContractError>(e),
        },
{
    match msg {
        ExecuteMsg::Receive(cw20_receive) => execute_receive_cw20(
            state,
            env,
            info,
            cw20_receive,
            queried.path_as_base_owner,
        ),
        ExecuteMsg::ReceiveNft(cw721_receive) => execute_receive_cw721(state, info, cw721_receive),
        ExecuteMsg::MintPath { path } => execute_mint_path(
            state,
            env,
            info,
            path,
            queried.path_as_base_owner,
        ),
        ExecuteMsg::UpdateAdmin { new_admin } => execute_update_admin(state, info, new_admin),
        ExecuteMsg::UpdatePaymentDetails { payment_details } => execute_update_payment_details(
            state,
            info,
            payment_details,
            queried.token_is_valid,
        ),
        ExecuteMsg::WithdrawPayments {  } => execute_withdraw_payments(
            state,
            info,
            queried.payment_balance,
        ),
        ExecuteMsg::WithdrawRootToken {  } => execute_withdraw_root_token(state, info),
    }
}

} // verus!
