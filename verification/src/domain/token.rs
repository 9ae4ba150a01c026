//! Tokens: what is minted under a contract, owned, listed and transferred.

use vstd::prelude::*;
use crate::domain::Id;
use crate::domain::contract::ContractId;
use crate::domain::price::Price;
use crate::domain::time::LocalDateTime;
use crate::domain::wallet::WalletAddress;

verus! {

/// Tags the identifiers that name tokens.
#[derive(Debug, Clone, Copy, PartialEq, Eq, PartialOrd, Ord, Hash)]
pub struct TokenTag;

/// The identifier of a token within its contract.
pub type TokenId = Id<TokenTag>;

/// A token. It is listed for sale exactly when it has a price.
#[derive(Debug)]
pub struct Token {
    pub address: ContractId,
    pub token_id: TokenId,
    pub work_id: String,
    pub owner_address: WalletAddress,
    pub ipfs_image_hash: String,
    pub name: String,
    pub description: String,
    pub price_eth: Option<Price>,
    pub created_at: LocalDateTime,
}

/// What a token holds, as mathematical values.
pub ghost struct TokenView {
    pub address: Seq<char>,
    pub token_id: Seq<char>,
    pub work_id: Seq<char>,
    pub owner_address: Seq<char>,
    pub ipfs_image_hash: Seq<char>,
    pub name: Seq<char>,
    pub description: Seq<char>,
    pub price_eth: Option<Seq<char>>,
    pub created_at: Seq<char>,
}

/// The decimal text of an optional price.
pub open spec fn price_view(price: Option<Price>) -> Option<Seq<char>> {
    match price {
        Some(p) => Some(p@),
        None => None,
    }
}

impl View for Token {
    type V = TokenView;

    open spec fn view(&self) -> TokenView {
        TokenView {
            address: self.address@,
            token_id: self.token_id@,
            work_id: self.work_id@,
            owner_address: self.owner_address@,
            ipfs_image_hash: self.ipfs_image_hash@,
            name: self.name@,
            description: self.description@,
            price_eth: price_view(self.price_eth),
            created_at: self.created_at@,
        }
    }
}

impl Clone for Token {
    fn clone(&self) -> (copy: Self)
        ensures
            copy == *self,
    {
        Token {
            address: self.address.clone(),
            token_id: self.token_id.clone(),
            work_id: self.work_id.clone(),
            owner_address: self.owner_address.clone(),
            ipfs_image_hash: self.ipfs_image_hash.clone(),
            name: self.name.clone(),
            description: self.description.clone(),
            price_eth: match &self.price_eth {
                Some(p) => Some(p.clone()),
                None => None,
            },
            created_at: self.created_at.clone(),
        }
    }
}

impl Token {
    /// Whether the token's creation time and price, if any, are well formed.
    pub open spec fn wf(self) -> bool {
        &&& self.created_at.wf()
        &&& self.price_eth matches Some(p) ==> p.wf()
    }

    /// A freshly minted token: owned by `wallet_address` and not listed.
    pub fn new(
        address: ContractId,
        token_id: TokenId,
        work_id: String,
        ipfs_image_hash: String,
        name: String,
        description: String,
        wallet_address: WalletAddress,
        now: LocalDateTime,
    ) -> (token: Self)
        ensures
            token@ == (TokenView {
                address: address@,
                token_id: token_id@,
                work_id: work_id@,
                owner_address: wallet_address@,
                ipfs_image_hash: ipfs_image_hash@,
                name: name@,
                description: description@,
                price_eth: None,
                created_at: now@,
            }),
            token.created_at == now,
            token.price_eth.is_none(),
    {
        Token {
            address,
            token_id,
            work_id,
            owner_address: wallet_address,
            ipfs_image_hash,
            name,
            description,
            price_eth: None,
            created_at: now,
        }
    }

    /// The token, listed at `price`. Nothing else changes.
    pub fn update_price(self, price: Price) -> (token: Self)
        ensures
            token@ == (TokenView { price_eth: Some(price@), ..self@ }),
            token.price_eth == Some(price),
            token.created_at == self.created_at,
    {
        Token { price_eth: Some(price), ..self }
    }

    /// The token in the hands of `address`, no longer listed. Nothing else
    /// changes.
    pub fn transfer(self, address: WalletAddress) -> (token: Self)
        ensures
            token@ == (TokenView { owner_address: address@, price_eth: None, ..self@ }),
            token.price_eth.is_none(),
            token.created_at == self.created_at,
    {
        Token { owner_address: address, price_eth: None, ..self }
    }

    /// The token with the owner and the price that the ledger and the
    /// marketplace report. Nothing else changes.
    pub fn update(self, price: Option<Price>, owner_address: WalletAddress) -> (token: Self)
        ensures
            token@ == (TokenView {
                owner_address: owner_address@,
                price_eth: price_view(price),
                ..self@
            }),
            token.price_eth == price,
            token.created_at == self.created_at,
    {
        Token { owner_address, price_eth: price, ..self }
    }
}

} // verus!
