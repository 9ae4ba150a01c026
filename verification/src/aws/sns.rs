//! Tasks: operations that are queued to run outside the request that asked for
//! them.

use vstd::prelude::*;
use vstd::string::StringExecFns;
use crate::domain::price::Price;
use crate::text::join3;

verus! {

/// Asks to mint a token for a work from the object at `gs_path`.
#[derive(Debug)]
pub struct MintPayload {
    pub work_id: String,
    pub gs_path: String,
}

/// Asks to list a token at a price.
#[derive(Debug)]
pub struct SellPayload {
    pub address: String,
    pub token_id: String,
    pub ether: Price,
}

/// Asks to transfer a token to another wallet.
#[derive(Debug)]
pub struct TransferPayload {
    pub address: String,
    pub token_id: String,
    pub to_address: String,
}

/// A queued operation.
#[derive(Debug)]
pub enum Task {
    Mint(MintPayload),
    Sell(SellPayload),
    Transfer(TransferPayload),
}

/// What is told when a task is done: a short text that is pushed, and a mail.
#[derive(Debug)]
pub struct Notice {
    pub push: String,
    pub subject: String,
    pub body: String,
}

impl Task {
    /// The text that is pushed when the task is done.
    pub open spec fn done_text(self) -> Seq<char> {
        match self {
            Task::Mint(_) => "the token has been minted"@,
            Task::Sell(_) => "the sell order has been placed"@,
            Task::Transfer(_) => "the token has been transferred"@,
        }
    }

    /// The token that the task is about, as its contract, a number sign and
    /// its id; a mint does not know its token yet.
    pub open spec fn token_text(self) -> Option<Seq<char>> {
        match self {
            Task::Mint(_) => None,
            Task::Sell(p) => Some(p.address@ + "#"@ + p.token_id@),
            Task::Transfer(p) => Some(p.address@ + "#"@ + p.token_id@),
        }
    }

    /// The notice that is given when the task is done: the text for the kind
    /// of task is pushed, and mailed together with the token that the task was
    /// about, where it is known.
    pub fn notice(&self) -> (notice: Notice)
        ensures
            notice.push@ == self.done_text(),
            notice.subject@ == "Notice from Canvas"@,
            notice.body@ == match self.token_text() {
                Some(token) => self.done_text() + ": "@ + token,
                None => self.done_text(),
            },
    {
        let subject = String::from_str("Notice from Canvas");
        match self {
            Task::Mint(_) => Notice {
                push: String::from_str("the token has been minted"),
                subject,
                body: String::from_str("the token has been minted"),
            },
            Task::Sell(p) => {
                let token = join3(p.address.as_str(), "#", p.token_id.as_str());
                Notice {
                    push: String::from_str("the sell order has been placed"),
                    subject,
                    body: join3("the sell order has been placed", ": ", token.as_str()),
                }
            },
            Task::Transfer(p) => {
                let token = join3(p.address.as_str(), "#", p.token_id.as_str());
                Notice {
                    push: String::from_str("the token has been transferred"),
                    subject,
                    body: join3("the token has been transferred", ": ", token.as_str()),
                }
            },
        }
    }
}

} // verus!
