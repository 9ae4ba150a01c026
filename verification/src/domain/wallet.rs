//! Wallets and their addresses.

use vstd::prelude::*;

verus! {

/// The address of a wallet, as the ledger prints it.
#[derive(Debug)]
pub struct WalletAddress(pub String);

impl Clone for WalletAddress {
    fn clone(&self) -> (copy: Self)
        ensures
            copy == *self,
    {
        WalletAddress(self.0.clone())
    }
}

impl View for WalletAddress {
    type V = Seq<char>;

    open spec fn view(&self) -> Seq<char> {
        self.0@
    }
}

impl WalletAddress {
    /// Wraps the printed form of an address.
    pub fn from(raw: String) -> (address: Self)
        ensures
            address@ == raw@,
    {
        WalletAddress(raw)
    }

    /// A copy of the printed form.
    pub fn to_string(&self) -> (raw: String)
        ensures
            raw@ == self@,
    {
        self.0.clone()
    }

    /// Whether both addresses print the same.
    pub fn same(&self, other: &Self) -> (same: bool)
        ensures
            same == (self@ == other@),
    {
        self.0 == other.0
    }
}

/// A wallet: its address and the secret that signs for it.
#[derive(Clone, Debug)]
pub struct Wallet {
    pub address: WalletAddress,
    pub secret: String,
}

} // verus!
