//! The request that pays an amount out to an address.

use vstd::prelude::*;
use vstd::string::*;
use crate::amount::{Amount, AmountView};
use crate::error::{ContractError, ErrorView};
use crate::msg::{bytes_view, CosmosMsg, CosmosMsgView};

verus! {

/// The JSON bytes of the message that asks a token contract to transfer
/// `amount` to `recipient`, or `None` where the encoder fails.
pub uninterp spec fn cw20_transfer_json(recipient: Seq<char>, amount: u128) -> Option<Seq<u8>>;

/// Encodes the transfer message of a token contract with
/// `cosmwasm_std::to_json_vec`, applied to `cw20::Cw20ExecuteMsg::Transfer`.
/// Nothing is claimed of the bytes but that they are the same for the same
/// recipient and amount; a failure of the encoder comes back as `None`.
#[verifier::external_body]
fn encode_cw20_transfer(recipient: &String, amount: u128) -> (r: Option<Vec<u8>>)
    ensures
        bytes_view(r) == cw20_transfer_json(recipient@, amount),
{
    let msg = cw20::Cw20ExecuteMsg::Transfer {
        recipient: recipient.clone(),
        amount: cosmwasm_std::Uint128::new(amount),
    };
    match cosmwasm_std::to_json_vec(&msg) {
        Ok(bytes) => Some(bytes),
        Err(_) => None,
    }
}

/// A request or the failure to build one, as a mathematical value.
pub open spec fn msg_view(r: Result<CosmosMsg, ContractError>) -> Result<
    CosmosMsgView,
    ErrorView,
> {
    match r {
        Ok(m) => Ok(m@),
        Err(e) => Err(e@),
    }
}

/// What is reported when a token transfer cannot be encoded.
pub open spec fn encoding_failure() -> ErrorView {
    ErrorView::Std { msg: "cannot encode the token transfer"@ }
}

/// The call of a token contract with an encoded transfer, or the failure
/// where there is no encoding.
pub open spec fn token_transfer_spec(contract_addr: Seq<char>, encoded: Option<Seq<u8>>) -> Result<
    CosmosMsgView,
    ErrorView,
> {
    match encoded {
        Some(msg) => Ok(CosmosMsgView::Execute { contract_addr, msg }),
        None => Err(encoding_failure()),
    }
}

/// The call of the token contract at `contract_addr` with an encoded
/// transfer.
pub fn token_transfer(contract_addr: String, encoded: Option<Vec<u8>>) -> (r: Result<
    CosmosMsg,
    ContractError,
>)
    ensures
        msg_view(r) == token_transfer_spec(contract_addr@, bytes_view(encoded)),
{
    match encoded {
        Some(msg) => Ok(CosmosMsg::Execute { contract_addr, msg }),
        None => Err(
            ContractError::Std { msg: String::from_str("cannot encode the token transfer") },
        ),
    }
}

/// The request that pays `amount` to `recipient`: a bank transfer for a
/// native coin, a call of the token contract for a token.
pub open spec fn send_amount_spec(amount: AmountView, recipient: Seq<char>) -> Result<
    CosmosMsgView,
    ErrorView,
> {
    match amount {
        AmountView::Native(coin) => Ok(CosmosMsgView::Send { to_address: recipient, amount: coin }),
        AmountView::Cw20(coin) => token_transfer_spec(
            coin.address,
            cw20_transfer_json(recipient, coin.amount),
        ),
    }
}

/// Builds the request that pays `amount` to `recipient`.
pub fn send_amount(amount: Amount, recipient: String) -> (r: Result<CosmosMsg, ContractError>)
    ensures
        msg_view(r) == send_amount_spec(amount@, recipient@),
{
    match amount {
        Amount::Native(coin) => Ok(CosmosMsg::Send { to_address: recipient, amount: coin }),
        Amount::Cw20(coin) => {
            let encoded = encode_cw20_transfer(&recipient, coin.amount);
            token_transfer(coin.address, encoded)
        },
    }
}

} // verus!
