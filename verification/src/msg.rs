//! The messages the host runtime delivers to the module's entry points,
//! and the payloads the module answers with.  Wire (de)serialization is
//! the host boundary's concern; here the messages are plain values.

use vstd::prelude::*;

verus! {

/// Parameters of initialization.
#[derive(Clone, Debug, PartialEq)]
pub struct InitMsg {
    /// Recipient of fees, allowed to change the configuration.
    pub admin: String,
    /// Percentage taken from each routed transfer.
    pub fee: u128,
    /// Decimal places of the fee percentage.
    pub fee_decimals: u8,
    /// The well-known token registered at initialization.
    pub sscrt_addr: String,
    /// That token's callback credential.
    pub sscrt_hash: String,
    /// Caller-supplied entropy the generator seed is derived from.
    pub entropy: String,
}

/// The sub-operation carried inside a deposit notification's payload.
#[derive(Clone, Debug, PartialEq)]
pub enum HandleReceiveMsg {
    ReceiveTokens { recipient: String },
    SetAlias { alias: Option<String> },
}

/// An executable operation.
#[derive(Clone, Debug, PartialEq)]
pub enum HandleMsg {
    /// A deposit notification from a token contract; the payload selects
    /// the sub-operation and is mandatory.
    Receive { sender: String, from: String, amount: u128, msg: Option<HandleReceiveMsg> },
    RegisterToken { snip20_addr: String, snip20_hash: String },
    ChangeFee { new_fee: u128 },
    ChangeAdmin { new_admin: String },
}

/// The result payload of an alias claim.
#[derive(Clone, Debug, PartialEq)]
pub enum HandleAnswer {
    SetAlias { status: ResponseStatus },
}

/// A read-only query.
#[derive(Clone, Debug, PartialEq)]
pub enum QueryMsg {
    GetConfig {},
    CheckAlias { alias: String },
}

/// The publicly readable configuration.
#[derive(Clone, Debug, PartialEq)]
pub struct ConfigResponse {
    pub active: bool,
    pub fee: u128,
    pub decimals: u8,
}

/// Whether an alias is present in the registry.
#[derive(Clone, Debug, PartialEq)]
pub struct AliasCheckResponse {
    pub does_exist: bool,
}

/// Outcome marker carried in result payloads.
#[derive(Clone, Debug, PartialEq)]
pub enum ResponseStatus {
    Success,
    Failure,
}

/// The answer to a query.
#[derive(Clone, Debug, PartialEq)]
pub enum QueryAnswer {
    Config(ConfigResponse),
    AliasCheck(AliasCheckResponse),
}

} // verus!
