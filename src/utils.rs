use vstd::prelude::*;

use crate::error::{
    generic_err, reports_same_denom, reports_unavailable, reports_wrong_coin, ContractError,
};
use crate::error::EncodeError;
use crate::state::{Coin, CoinView, OrderStatus, SwapOrder};

verus! {

pub open spec fn is_ascii_letter(c: char) -> bool {
    ('a' <= c && c <= 'z') || ('A' <= c && c <= 'Z')
}

pub open spec fn is_ascii_digit(c: char) -> bool {
    '0' <= c && c <= '9'
}

/// A character allowed after the first one of a denomination.
pub open spec fn is_denom_char(c: char) -> bool {
    is_ascii_letter(c) || is_ascii_digit(c) || c == '/' || c == ':' || c == '.' || c == '_'
        || c == '-'
}

/// A well-formed native denomination: 3 to 128 characters, a letter first,
/// then letters, digits and `/ : . _ -`.
pub open spec fn valid_denom(s: Seq<char>) -> bool {
    &&& 3 <= s.len() <= 128
    &&& is_ascii_letter(s[0])
    &&& forall|i: int| 1 <= i < s.len() ==> is_denom_char(#[trigger] s[i])
}

/// The order may take the next step: it is in `status` and not past its
/// timeout at `block_time`.
pub open spec fn is_available(status: OrderStatus, timeout: u64, required: OrderStatus, block_time: u64) -> bool {
    status == required && block_time <= timeout
}

/// Check that the order has a specific status and is not expired.
pub fn validate_status_and_expiration(
    order: &SwapOrder,
    valid_status: OrderStatus,
    block_time: u64,
) -> (r: Result<(), ContractError>)
    ensures
        r is Ok <==> is_available(order.status, order.timeout, valid_status, block_time),
        r matches Err(e) ==> reports_unavailable(e, order.status, order.timeout),
{
    if order.status != valid_status || order.timeout < block_time {
        return Err(
            ContractError::SwapOrderNotAvailable {
                status: order.status.to_string(),
                expiration: order.timeout,
            },
        );
    }
    Ok(())
}

/// Check that the coin sent is exactly the one expected, in denomination
/// and amount.
pub fn check_correct_coins(sent_coin: &Coin, expected_coin: &Coin) -> (r: Result<(), ContractError>)
    ensures
        r is Ok <==> sent_coin@ == expected_coin@,
        r matches Err(e) ==> reports_wrong_coin(e, sent_coin@, expected_coin@),
{
    if !(sent_coin.denom == expected_coin.denom && sent_coin.amount == expected_coin.amount) {
        return Err(
            ContractError::WrongCoin {
                sent_denom: sent_coin.denom.clone(),
                sent_amount: sent_coin.amount,
                expected_denom: expected_coin.denom.clone(),
                expected_amount: expected_coin.amount,
            },
        );
    }
    Ok(())
}

/// Check that the two denominations differ.
pub fn validate_different_denoms(denom_in: &String, denom_out: &String) -> (r: Result<(), ContractError>)
    ensures
        r is Ok <==> denom_in@ != denom_out@,
        r matches Err(e) ==> reports_same_denom(e, denom_in@),
{
    if *denom_in == *denom_out {
        return Err(ContractError::SameDenomError { denom: denom_in.clone() });
    }
    Ok(())
}

/// Check that exactly `allowed_number` coins were attached.
pub fn validate_coins_number(funds: &[Coin], allowed_number: u64) -> (r: Result<(), ContractError>)
    ensures
        r is Ok <==> funds@.len() == allowed_number,
        r is Err ==> r == Err::<(), ContractError>(
            ContractError::FundsError { accepted: allowed_number, received: funds@.len() as u64 },
        ),
{
    if funds.len() as u64 != allowed_number {
        return Err(
            ContractError::FundsError { accepted: allowed_number, received: funds.len() as u64 },
        );
    }
    Ok(())
}

fn is_letter(c: char) -> (r: bool)
    ensures
        r == is_ascii_letter(c),
{
    ('a' <= c && c <= 'z') || ('A' <= c && c <= 'Z')
}

fn is_allowed_after_first(c: char) -> (r: bool)
    ensures
        r == is_denom_char(c),
{
    is_letter(c) || ('0' <= c && c <= '9') || c == '/' || c == ':' || c == '.' || c == '_' || c
        == '-'
}

/// Check that a native denomination is well formed (see [`valid_denom`]).
pub fn validate_native_denom(denom: &str) -> (r: Result<(), cosmwasm_std::StdError>)
    ensures
        r is Ok <==> valid_denom(denom@),
{
    let n_bytes = denom.len();
    if n_bytes < 3 || n_bytes > 128 {
        proof {
            if valid_denom(denom@) {
                lemma_valid_denom_is_ascii(denom@);
                vstd::utf8::is_ascii_chars_encode_utf8(denom@);
            }
        }
        let msg = String::from_str("invalid denom length [3,128]: ").concat(denom);
        return Err(generic_err(msg));
    }
    let n = denom.unicode_len();
    proof {
        if n == 0 {
            assert(denom@ =~= Seq::<char>::empty());
            vstd::utf8::is_ascii_chars_encode_utf8(denom@);
        }
    }
    let first = denom.get_char(0);
    if !is_letter(first) {
        let msg = String::from_str("first character is not ASCII alphabetic: ").concat(denom);
        return Err(generic_err(msg));
    }
    let mut i: usize = 1;
    while i < n
        invariant
            1 <= i <= n,
            n == denom@.len(),
            forall|j: int| 1 <= j < i ==> is_denom_char(#[trigger] denom@[j]),
        decreases n - i,
    {
        let c = denom.get_char(i);
        if !is_allowed_after_first(c) {
            let msg = String::from_str(
                "not all characters are ASCII alphanumeric or one of:  /  :  .  _  -: ",
            ).concat(denom);
            return Err(generic_err(msg));
        }
        i = i + 1;
    }
    proof {
        lemma_valid_chars_is_ascii(denom@);
        vstd::utf8::is_ascii_chars_encode_utf8(denom@);
    }
    Ok(())
}

proof fn lemma_valid_chars_is_ascii(s: Seq<char>)
    requires
        s.len() >= 1,
        is_ascii_letter(s[0]),
        forall|i: int| 1 <= i < s.len() ==> is_denom_char(#[trigger] s[i]),
    ensures
        vstd::utf8::is_ascii_chars(s),
{
    assert forall|i: int| 0 <= i < s.len() implies '\0' <= #[trigger] s[i] <= '\u{7f}' by {
        if i > 0 {
            assert(is_denom_char(s[i]));
        }
    }
}

proof fn lemma_valid_denom_is_ascii(s: Seq<char>)
    requires
        valid_denom(s),
    ensures
        vstd::utf8::is_ascii_chars(s),
{
    lemma_valid_chars_is_ascii(s);
}

pub open spec fn digit_char(d: nat) -> char {
    ((d + 48) as u8) as char
}

/// The decimal digits of `n`, most significant first, with no sign or padding.
pub open spec fn decimal(n: nat) -> Seq<char>
    decreases n,
{
    if n < 10 {
        seq![digit_char(n)]
    } else {
        decimal(n / 10).push(digit_char(n % 10))
    }
}

/// What `serde_json` writes for a string: the JSON string literal.
pub uninterp spec fn json_string_of(s: Seq<char>) -> Seq<char>;

/// The protobuf encoding of a `cosmwasm.wasm.v1.MsgExecuteContract` that
/// sends one coin along with `msg`.
pub uninterp spec fn execute_contract_proto(
    sender: Seq<char>,
    contract: Seq<char>,
    msg: Seq<char>,
    denom: Seq<char>,
    amount: u128,
) -> Seq<u8>;

/// The protobuf encoding of a `cosmos.authz.v1beta1.MsgExec` that carries
/// one message, of type `type_url` and encoding `value`.
pub uninterp spec fn msg_exec_proto(grantee: Seq<char>, type_url: Seq<char>, value: Seq<u8>) -> Seq<u8>;

pub open spec fn execute_contract_type_url_spec() -> Seq<char> {
    "/cosmwasm.wasm.v1.MsgExecuteContract"@
}

pub open spec fn msg_exec_type_url_spec() -> Seq<char> {
    "/cosmos.authz.v1beta1.MsgExec"@
}

/// Relies on `ToString` for `u64`, whose `Display` writes the decimal digits:
/// the order id in the confirmation message, a reply id in an error message.
#[verifier::external_body]
pub(crate) fn u64_to_string(n: u64) -> (r: String)
    ensures
        r@ == decimal(n as nat),
{
    n.to_string()
}

/// Relies on `serde_json::to_string` applied to a string: the maker's
/// identity as a JSON string in the confirmation message. A string is
/// written through `serialize_str` into a `Vec`, which cannot fail.
#[verifier::external_body]
fn to_json_string(s: &str) -> (r: Result<String, serde_json::Error>)
    ensures
        r is Ok,
        r matches Ok(j) ==> j@ == json_string_of(s@),
{
    serde_json::to_string(s)
}

/// Relies on `osmosis_std`'s `MsgExecuteContract::TYPE_URL`: the type of
/// the message that the grant executes.
#[verifier::external_body]
fn execute_contract_type_url() -> (r: String)
    ensures
        r@ == execute_contract_type_url_spec(),
{
    osmosis_std::types::cosmwasm::wasm::v1::MsgExecuteContract::TYPE_URL.to_string()
}

/// Relies on `osmosis_std`'s `MsgExec::TYPE_URL`: the type of the message
/// dispatched on acceptance.
#[verifier::external_body]
pub(crate) fn msg_exec_type_url() -> (r: String)
    ensures
        r@ == msg_exec_type_url_spec(),
{
    osmosis_std::types::cosmos::authz::v1beta1::MsgExec::TYPE_URL.to_string()
}

/// Relies on `osmosis_std`'s `MsgExecuteContract::to_proto_bytes` (prost's
/// encoding) for a message with a single coin, its amount in decimal.
#[verifier::external_body]
fn encode_execute_contract(
    sender: String,
    contract: String,
    msg: String,
    denom: String,
    amount: u128,
) -> (r: Vec<u8>)
    ensures
        r@ == execute_contract_proto(sender@, contract@, msg@, denom@, amount),
{
    osmosis_std::types::cosmwasm::wasm::v1::MsgExecuteContract {
        sender,
        contract,
        msg: msg.into_bytes(),
        funds: vec![osmosis_std::types::cosmos::base::v1beta1::Coin { denom, amount: amount.to_string() }],
    }.to_proto_bytes()
}

/// Relies on `osmosis_std`'s `MsgExec::to_proto_bytes` (prost's encoding)
/// for a grant execution that carries one message.
#[verifier::external_body]
fn encode_msg_exec(grantee: String, type_url: String, value: Vec<u8>) -> (r: Vec<u8>)
    ensures
        r@ == msg_exec_proto(grantee@, type_url@, value@),
{
    osmosis_std::types::cosmos::authz::v1beta1::MsgExec {
        grantee,
        msgs: vec![osmosis_std::shim::Any { type_url, value }],
    }.to_proto_bytes()
}

/// The JSON of the confirmation message for `order_id`, given the maker's
/// identity already written as a JSON string.
pub open spec fn confirm_order_json(order_id: u64, maker_json: Seq<char>) -> Seq<char> {
    "{\"confirm_swap_order\":{\"order_id\":"@ + decimal(order_id as nat) + ",\"maker\":"@ + maker_json
        + "}}"@
}

/// The delegated execution that settles `order_id`: the maker sends `coin`
/// to `contract` along with the confirmation message, executed by
/// `contract` under the maker's grant.
pub open spec fn authz_payload(contract: Seq<char>, order_id: u64, maker: Seq<char>, coin: CoinView) -> Seq<u8> {
    msg_exec_proto(
        contract,
        execute_contract_type_url_spec(),
        execute_contract_proto(
            maker,
            contract,
            confirm_order_json(order_id, json_string_of(maker)),
            coin.denom,
            coin.amount,
        ),
    )
}

/// Frames the confirmation message for `order_id` around the maker's
/// identity, already written as a JSON string.
pub fn confirm_order_msg(order_id: u64, maker_json: &str) -> (r: String)
    ensures
        r@ == confirm_order_json(order_id, maker_json@),
{
    let id = u64_to_string(order_id);
    String::from_str("{\"confirm_swap_order\":{\"order_id\":").concat(id.as_str()).concat(
        ",\"maker\":",
    ).concat(maker_json).concat("}}")
}

/// Encodes the grant execution that makes the maker confirm `order_id`,
/// paying `coin` (see [`authz_payload`]).
pub fn create_authz_encoded_message(
    contract: &String,
    order_id: u64,
    maker: &String,
    coin: &Coin,
) -> (r: Result<Vec<u8>, ContractError>)
    ensures
        r matches Ok(bytes) && bytes@ == authz_payload(contract@, order_id, maker@, coin@),
{
    let maker_json = match to_json_string(maker.as_str()) {
        Ok(j) => j,
        Err(e) => {
            return Err(ContractError::from(EncodeError::JsonEncodeError(e)));
        },
    };
    let msg = confirm_order_msg(order_id, maker_json.as_str());
    let inner = encode_execute_contract(
        maker.clone(),
        contract.clone(),
        msg,
        coin.denom.clone(),
        coin.amount,
    );
    Ok(encode_msg_exec(contract.clone(), execute_contract_type_url(), inner))
}

} // verus!
