//! What an operation hands back to the host: outbound instructions for it
//! to execute, log entries, an optional result payload — or an error, in
//! which case the host discards every queued effect (all-or-nothing).

use vstd::prelude::*;
use crate::msg::HandleAnswer;

verus! {

/// Outbound response payloads and log entries are padded to blocks of
/// this many bytes by the host boundary, so that response length leaks
/// nothing about payload shape.
pub const BLOCK_SIZE: usize = 256;

/// Why a call failed.  Every failure aborts the whole call; the host
/// rolls back any store mutation, and no outbound instruction is emitted.
#[derive(Clone, Copy, Debug, PartialEq, Eq, Structural)]
pub enum Error {
    /// The caller is not the administrator.
    Unauthorized,
    /// The configuration (or the generator seed) is not in the store:
    /// the module has not been initialized.
    NotInitialized,
    /// The notifying caller has no token-registry entry.
    TokenNotRegistered,
    /// The recipient alias is not linked to an address.
    AliasNotFound,
    /// The custom alias is already claimed.
    AliasTaken,
    /// The contract is currently disabled.
    Disabled,
    /// A deposit notification arrived without its mandatory payload.
    MissingPayload,
    /// Fee arithmetic overflowed, or a misconfigured fee exceeded the
    /// deposited amount.
    Arithmetic,
}

/// The description of each error.
pub open spec fn spec_message(e: Error) -> Seq<char> {
    match e {
        Error::Unauthorized => "This function is only usable by the Admin"@,
        Error::NotInitialized => "Contract has not been initialized"@,
        Error::TokenNotRegistered => "This token is not registered with this contract. Please register it"@,
        Error::AliasNotFound => "This alias is not linked to an address"@,
        Error::AliasTaken => "This custom alias is unavailibe"@,
        Error::Disabled => "Contract is currently disabled"@,
        Error::MissingPayload => "data should be given"@,
        Error::Arithmetic => "Fee arithmetic failed"@,
    }
}

impl Error {
    /// A descriptive message for the caller.
    pub fn message(&self) -> (r: String)
        ensures
            r@ == spec_message(*self),
    {
        let s: &str = match self {
            Error::Unauthorized => "This function is only usable by the Admin",
            Error::NotInitialized => "Contract has not been initialized",
            Error::TokenNotRegistered => "This token is not registered with this contract. Please register it",
            Error::AliasNotFound => "This alias is not linked to an address",
            Error::AliasTaken => "This custom alias is unavailibe",
            Error::Disabled => "Contract is currently disabled",
            Error::MissingPayload => "data should be given",
            Error::Arithmetic => "Fee arithmetic failed",
        };
        s.to_owned()
    }
}

/// An outbound instruction for the host runtime, addressed to a token
/// contract and carrying the callback credential that contract requires.
#[derive(Clone, Debug, PartialEq)]
pub enum Instruction {
    /// Ask `token_addr` to notify this module of incoming deposits,
    /// presenting the module's own callback credential.
    RegisterReceive { token_addr: String, callback_hash: String, own_hash: String },
    /// Ask `token_addr` to transfer `amount` to `recipient`.
    Transfer { token_addr: String, callback_hash: String, recipient: String, amount: u128 },
}

/// One log attribute of a response.
#[derive(Clone, Debug, PartialEq)]
pub struct LogEntry {
    pub key: String,
    pub value: String,
}

/// A successful operation's effects, to be executed by the host.
#[derive(Clone, Debug, PartialEq)]
pub struct Response {
    pub messages: Vec<Instruction>,
    pub log: Vec<LogEntry>,
    pub data: Option<HandleAnswer>,
}

impl Response {
    /// A response with no instructions, no log and no payload.
    pub fn empty() -> (r: Response)
        ensures
            r.messages@.len() == 0,
            r.log@.len() == 0,
            r.data is None,
    {
        Response { messages: Vec::new(), log: Vec::new(), data: None }
    }
}

} // verus!
