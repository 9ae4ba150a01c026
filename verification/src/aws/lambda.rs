//! The marketplace adapter: what is asked of it and what it answers.

use vstd::prelude::*;
use vstd::string::StringExecFns;
use crate::domain::contract::ContractId;
use crate::domain::price::Price;
use crate::domain::token::TokenId;
use crate::errors::{AppError, Kind};

verus! {

/// Asks for the state of a token on the marketplace.
#[derive(Debug)]
pub struct InfoRequest {
    pub token_address: String,
    pub token_id: String,
}

/// Asks to list a token for sale.
#[derive(Debug)]
pub struct SellRequest {
    pub token_address: String,
    pub token_id: String,
    pub ether: Price,
    pub quantity: i32,
    pub schema: String,
}

/// A request to the adapter: the method, and the arguments of that method.
#[derive(Debug)]
pub struct Request {
    pub method: String,
    pub info_request: Option<InfoRequest>,
    pub sell_request: Option<SellRequest>,
}

impl Request {
    /// The request for the state of the token `token_id` of the contract
    /// `address`.
    pub fn info(address: &ContractId, token_id: &TokenId) -> (request: Self)
        ensures
            request.method@ == "info"@,
            request.sell_request.is_none(),
            request.info_request matches Some(r) && r.token_address@ == address@ && r.token_id@
                == token_id@,
    {
        Request {
            method: String::from_str("info"),
            info_request: Some(
                InfoRequest { token_address: address.to_string(), token_id: token_id.to_string() },
            ),
            sell_request: None,
        }
    }

    /// The request to list one unit of the ERC-721 token `token_id` of the
    /// contract `address` at the price `ether`.
    pub fn sell(address: &ContractId, token_id: &TokenId, ether: Price) -> (request: Self)
        ensures
            request.method@ == "sell"@,
            request.info_request.is_none(),
            request.sell_request matches Some(r) && r.token_address@ == address@ && r.token_id@
                == token_id@ && r.ether == ether && r.quantity == 1 && r.schema@ == "ERC721"@,
    {
        Request {
            method: String::from_str("sell"),
            info_request: None,
            sell_request: Some(
                SellRequest {
                    token_address: address.to_string(),
                    token_id: token_id.to_string(),
                    ether,
                    quantity: 1,
                    schema: String::from_str("ERC721"),
                },
            ),
        }
    }
}

/// The marketplace's view of a token.
#[derive(Debug)]
pub struct InfoResponse {
    pub sell_price: String,
}

/// The marketplace's confirmation of a listing.
#[derive(Debug)]
pub struct SellResponse {
    pub sell_price: String,
}

/// An answer of the adapter: a result code, zero for success, and the payload
/// of the method that was asked.
#[derive(Debug)]
pub struct Response {
    pub result: i32,
    pub error_message: Option<String>,
    pub info_response: Option<InfoResponse>,
    pub sell_response: Option<SellResponse>,
}

impl Response {
    /// Accepts an answer whose result code is zero, and turns any other into
    /// an `Internal` failure.
    pub fn accept(self) -> (res: Result<Response, AppError>)
        ensures
            self.result == 0 ==> res == Ok::<Response, AppError>(self),
            self.result != 0 ==> res.is_err() && res.unwrap_err().kind == Kind::Internal,
    {
        if self.result != 0 {
            return Err(AppError::new(Kind::Internal, "the marketplace adapter reported a failure"));
        }
        Ok(self)
    }
}

} // verus!
