//! The module's persistent state: the singleton configuration, the
//! persisted generator seed, and the three prefixed store regions.

use vstd::prelude::*;
use crate::store::StoreMap;

verus! {

/// The singleton configuration record.
#[derive(Clone, Debug, PartialEq)]
pub struct Config {
    /// The administrator: fee recipient, sole caller of admin operations.
    pub admin: String,
    /// Whether transfers and alias claims are currently allowed.
    pub active: bool,
    /// Percentage of each routed transfer taken as fee.
    pub fee: u128,
    /// Decimal places of the fee percentage.
    pub fee_decimals: u8,
}

/// What the module reads of the host-provided call environment.
pub struct Env {
    pub block_height: u64,
    pub block_time: u64,
    /// The authenticated direct caller of the entry point.
    pub message_sender: String,
    /// This module's own callback credential.
    pub contract_code_hash: String,
}

/// A handle on everything the module persists.  The host serializes
/// calls and rolls a failing call's writes back in full, so an operation
/// owns this exclusively and leaves it unchanged whenever it fails.
pub struct State {
    /// The configuration; absent until initialization.
    pub config: Option<Config>,
    /// The persisted generator seed; absent until initialization.
    pub seed: Option<Vec<u8>>,
    /// Trusted token contract address -> callback credential.
    pub tokens: StoreMap,
    /// Alias -> owning account address.
    pub aliases: StoreMap,
    /// Account address -> its current custom alias.
    pub customs: StoreMap,
}

impl State {
    /// All three tables are well-formed.
    pub open spec fn wf(self) -> bool {
        self.tokens.wf() && self.aliases.wf() && self.customs.wf()
    }

    /// The seed's characters, if one is persisted.
    pub open spec fn seed_view(self) -> Option<Seq<u8>> {
        match self.seed {
            Some(s) => Some(s@),
            None => None,
        }
    }

    /// A fresh, uninitialized state.
    pub fn new() -> (r: State)
        ensures
            r.wf(),
            r.config is None,
            r.seed is None,
            r.tokens@ == Map::<Seq<char>, Seq<char>>::empty(),
            r.aliases@ == Map::<Seq<char>, Seq<char>>::empty(),
            r.customs@ == Map::<Seq<char>, Seq<char>>::empty(),
    {
        State {
            config: None,
            seed: None,
            tokens: StoreMap::new(),
            aliases: StoreMap::new(),
            customs: StoreMap::new(),
        }
    }
}

} // verus!
