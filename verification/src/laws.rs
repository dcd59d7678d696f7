//! Module-wide laws, stated over the same spec functions the entry
//! points' contracts use and proved once and for all.

use vstd::prelude::*;
use vstd::arithmetic::div_mod::lemma_div_pos_is_pos;
use vstd::arithmetic::mul::lemma_mul_nonnegative;
use vstd::arithmetic::power::{pow, lemma_pow_positive};
use crate::contract::{admin_outcome, alias_outcome, random_alias_of, send_outcome};
use crate::fee::{fee_ok, spec_fee_amount};
use crate::response::Error;
use crate::state::Config;
use crate::store::StoreMap;

verus! {

/// Alias uniqueness: a well-formed registry holds at most one entry per
/// alias string, so each alias resolves to at most one owner.
pub proof fn lemma_alias_entries_unique(t: StoreMap, i: int, j: int)
    requires
        t.wf(),
        0 <= i < t.entries@.len(),
        0 <= j < t.entries@.len(),
        t.entries@[i].key@ == t.entries@[j].key@,
    ensures
        i == j,
{
}

/// Alias uniqueness, operationally: claiming an alias that is already
/// present in the registry fails with the conflict error, whoever owns
/// it — even its own holder — and (by the alias-claim contract) leaves
/// the registry unchanged.
pub proof fn lemma_claim_taken_alias_fails(
    cfg: Config,
    aliases: Map<Seq<char>, Seq<char>>,
    customs: Map<Seq<char>, Seq<char>>,
    seed: Option<Seq<u8>>,
    height: u64,
    time: u64,
    env_sender: Seq<char>,
    a: Seq<char>,
    owner: Seq<char>,
)
    requires
        cfg.active,
        aliases.contains_key(a),
    ensures
        alias_outcome(
            Some(cfg),
            aliases,
            customs,
            seed,
            height,
            time,
            env_sender,
            Some(a),
            owner,
        ) matches Err(e) && e == Error::AliasTaken,
{
}

/// Replace-on-reassign: when an account holding custom alias `foo`
/// successfully claims a different custom alias `bar`, afterwards `bar`
/// resolves to the account, `foo` resolves to nothing, and the account's
/// custom-alias pointer names `bar`.
pub proof fn lemma_replace_on_reassign(
    cfg: Config,
    aliases: Map<Seq<char>, Seq<char>>,
    customs: Map<Seq<char>, Seq<char>>,
    seed: Option<Seq<u8>>,
    height: u64,
    time: u64,
    env_sender: Seq<char>,
    foo: Seq<char>,
    bar: Seq<char>,
    owner: Seq<char>,
)
    requires
        cfg.active,
        customs.contains_key(owner),
        customs[owner] == foo,
        !aliases.contains_key(bar),
        foo != bar,
    ensures
        alias_outcome(
            Some(cfg),
            aliases,
            customs,
            seed,
            height,
            time,
            env_sender,
            Some(bar),
            owner,
        ) matches Ok(o) && {
            &&& o.0.contains_key(bar) && o.0[bar] == owner
            &&& !o.0.contains_key(foo)
            &&& o.1.contains_key(owner) && o.1[owner] == bar
        },
{
}

/// Fee-split conservation: whenever the fee computation succeeds, the
/// fee plus the remainder give back the amount exactly, the fee is the
/// floored fixed-point percentage, and it lies between zero and the
/// amount.
pub proof fn lemma_fee_split_conservation(amount: u128, fee: u128, d: u8)
    requires
        fee_ok(amount, fee, d),
    ensures
        spec_fee_amount(amount, fee, d) + (amount - spec_fee_amount(amount, fee, d)) == amount,
        spec_fee_amount(amount, fee, d) == (amount * (fee * pow(10, d as nat))) / pow(
            100,
            d as nat,
        ),
        0 <= spec_fee_amount(amount, fee, d) <= amount,
{
    lemma_pow_positive(10, d as nat);
    lemma_pow_positive(100, d as nat);
    lemma_mul_nonnegative(fee as int, pow(10, d as nat));
    lemma_mul_nonnegative(amount as int, fee as int * pow(10, d as nat));
    lemma_div_pos_is_pos(amount as int * (fee as int * pow(10, d as nat)), pow(100, d as nat));
}

/// Unauthorized admin actions are rejected: a caller other than the
/// configured administrator is stopped by the admin gate, and (by the
/// admin operations' contracts) the configuration is left unchanged.
pub proof fn lemma_unauthorized_rejected(cfg: Config, sender: Seq<char>)
    requires
        sender != cfg.admin@,
    ensures
        admin_outcome(Some(cfg), sender) == Some(Error::Unauthorized),
{
}

/// A deposit notification from a caller with no token-registry entry is
/// rejected, and (by the routing contract) no transfer instruction is
/// emitted.
pub proof fn lemma_unregistered_token_rejected(
    cfg: Config,
    tokens: Map<Seq<char>, Seq<char>>,
    aliases: Map<Seq<char>, Seq<char>>,
    caller: Seq<char>,
    recipient: Seq<char>,
    amount: u128,
)
    requires
        cfg.active,
        !tokens.contains_key(caller),
    ensures
        send_outcome(Some(cfg), tokens, aliases, caller, recipient, amount) matches Err(e) && e
            == Error::TokenNotRegistered,
{
}

/// A disabled contract blocks both routing and alias claims, whatever
/// the rest of the input; queries are unaffected, as the query contract
/// states no activity check.
pub proof fn lemma_disabled_blocks(
    cfg: Config,
    tokens: Map<Seq<char>, Seq<char>>,
    aliases: Map<Seq<char>, Seq<char>>,
    customs: Map<Seq<char>, Seq<char>>,
    seed: Option<Seq<u8>>,
    height: u64,
    time: u64,
    env_sender: Seq<char>,
    alias: Option<Seq<char>>,
    owner: Seq<char>,
    recipient: Seq<char>,
    amount: u128,
)
    requires
        !cfg.active,
    ensures
        send_outcome(Some(cfg), tokens, aliases, env_sender, recipient, amount) matches Err(e)
            && e == Error::Disabled,
        alias_outcome(
            Some(cfg),
            aliases,
            customs,
            seed,
            height,
            time,
            env_sender,
            alias,
            owner,
        ) matches Err(e) && e == Error::Disabled,
{
}

/// Random-alias determinism: the derived alias is a function of the
/// persisted seed, the block height, the block time and the caller
/// identity alone — equal inputs give a byte-identical alias.  (That
/// differing inputs give differing aliases is a cryptographic property
/// of the generator and is not claimed here.)
pub proof fn lemma_random_alias_deterministic(
    s1: Seq<u8>,
    s2: Seq<u8>,
    h1: u64,
    h2: u64,
    t1: u64,
    t2: u64,
    snd1: Seq<char>,
    snd2: Seq<char>,
)
    requires
        s1 == s2,
        h1 == h2,
        t1 == t2,
        snd1 == snd2,
    ensures
        random_alias_of(s1, h1, t1, snd1) == random_alias_of(s2, h2, t2, snd2),
{
}

} // verus!
