use vstd::prelude::*;

use crate::state::{status_name, CoinView, OrderStatus};

verus! {

/// `cosmwasm_std::StdError`, the host's error, carried through unopened.
#[verifier::external_type_specification]
#[verifier::external_body]
pub struct ExStdError(cosmwasm_std::StdError);

/// `serde_json::Error`, the failure of a JSON encoding, carried through unopened.
#[verifier::external_type_specification]
#[verifier::external_body]
pub struct ExJsonError(serde_json::Error);

/// Relies on `cosmwasm_std::StdError::generic_err`, which wraps a message
/// into the host's generic error.
#[verifier::external_body]
pub(crate) fn generic_err(msg: String) -> (r: cosmwasm_std::StdError) {
    cosmwasm_std::StdError::generic_err(msg)
}

/// Relies on `cosmwasm_std::StdError::not_found`, the host's error for a
/// record of the given kind that is missing from the store.
#[verifier::external_body]
pub(crate) fn not_found(kind: &str) -> (r: cosmwasm_std::StdError) {
    cosmwasm_std::StdError::not_found(kind)
}

/// Every way in which a call into the market can fail.
#[derive(Debug, PartialEq)]
pub enum ContractError {
    /// An error of the host: a missing record, an address it refused, a
    /// malformed denomination.
    Std(cosmwasm_std::StdError),
    Unauthorized,
    SameDenomError { denom: String },
    FundsError { accepted: u64, received: u64 },
    CoinNotAllowed {},
    SwapOrderNotAvailable { status: String, expiration: u64 },
    WrongCoin {
        sent_denom: String,
        sent_amount: u128,
        expected_denom: String,
        expected_amount: u128,
    },
    SenderIsMaker {},
    JsonEncodeError(),
}

/// Failure to encode a message as JSON.
#[derive(Debug)]
pub enum EncodeError {
    JsonEncodeError(serde_json::Error),
}

impl From<EncodeError> for ContractError {
    fn from(err: EncodeError) -> (r: ContractError) {
        match err {
            EncodeError::JsonEncodeError(_json_err) => ContractError::JsonEncodeError(),
        }
    }
}

impl vstd::std_specs::convert::FromSpecImpl<EncodeError> for ContractError {
    open spec fn obeys_from_spec() -> bool {
        true
    }

    open spec fn from_spec(err: EncodeError) -> ContractError {
        ContractError::JsonEncodeError()
    }
}

/// `e` reports that `denom` was offered on both sides of an order.
pub open spec fn reports_same_denom(e: ContractError, denom: Seq<char>) -> bool {
    e matches ContractError::SameDenomError { denom: d } && d@ == denom
}

/// `e` reports an order that is not in the required status or has expired.
pub open spec fn reports_unavailable(e: ContractError, status: OrderStatus, expiration: u64) -> bool {
    e matches ContractError::SwapOrderNotAvailable { status: s, expiration: x }
        && s@ == status_name(status) && x == expiration
}

/// `e` reports that `sent` was attached where `expected` was required.
pub open spec fn reports_wrong_coin(e: ContractError, sent: CoinView, expected: CoinView) -> bool {
    e matches ContractError::WrongCoin { sent_denom, sent_amount, expected_denom, expected_amount }
        && sent_denom@ == sent.denom && sent_amount == sent.amount
        && expected_denom@ == expected.denom && expected_amount == expected.amount
}

} // verus!
