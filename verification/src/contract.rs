//! The module's entry points: initialization, the deposit-notification
//! handler with its two sub-operations (routing funds to an alias, and
//! claiming an alias), the admin-gated configuration changes, and the
//! read-only query.
//!
//! Each operation's outcome — which error it fails with, on exactly
//! which inputs, and what it changes and emits on success — is written
//! down as a spec function and proved of the executable code.  A failing
//! operation leaves the state untouched, mirroring the host's
//! all-or-nothing rollback of a failing call.

use vstd::prelude::*;
use vstd::string::StringSliceAdditionalSpecFns;
use vstd::utf8::encode_utf8;
use crate::crypto::{base64_encode, prng_bytes, prng_of, seed_of, sha256};
use crate::encoding::{be64_of, hex_encode, hex_of, push_be64, push_bytes};
use crate::fee::{fee_ok, fee_split, spec_fee_amount};
use crate::msg::{ConfigResponse, HandleAnswer, HandleMsg, HandleReceiveMsg, InitMsg, QueryAnswer,
    QueryMsg, ResponseStatus, AliasCheckResponse};
use crate::response::{Error, Instruction, LogEntry, Response};
use crate::state::{Config, Env, State};

verus! {

/// The characters of an optional alias argument.
pub open spec fn opt_view(o: Option<String>) -> Option<Seq<char>> {
    match o {
        Some(s) => Some(s@),
        None => None,
    }
}

/// The entropy assembled for one generator call: block height and block
/// time in big-endian bytes, then the caller's address bytes, then the
/// extra entropy.
pub open spec fn entropy_of(height: u64, time: u64, sender: Seq<char>, extra: Seq<u8>) -> Seq<u8> {
    be64_of(height) + be64_of(time) + encode_utf8(sender) + extra
}

/// The alias derived for one random-alias claim: the hexadecimal
/// rendering of the generator's output, with the persisted seed used
/// both as the seed and as the extra entropy.
pub open spec fn random_alias_of(seed: Seq<u8>, height: u64, time: u64, sender: Seq<char>) -> Seq<
    char,
> {
    hex_of(prng_of(seed, entropy_of(height, time, sender, seed)))
}

/// The outcome of routing a deposit: either the first failing check's
/// error, or (fee, remainder, recipient address, callback credential,
/// admin address).
pub open spec fn send_outcome(
    cfg: Option<Config>,
    tokens: Map<Seq<char>, Seq<char>>,
    aliases: Map<Seq<char>, Seq<char>>,
    caller: Seq<char>,
    recipient: Seq<char>,
    amount: u128,
) -> Result<(int, int, Seq<char>, Seq<char>, Seq<char>), Error> {
    match cfg {
        None => Err(Error::NotInitialized),
        Some(c) => if !c.active {
            Err(Error::Disabled)
        } else if !tokens.contains_key(caller) {
            Err(Error::TokenNotRegistered)
        } else if !aliases.contains_key(recipient) {
            Err(Error::AliasNotFound)
        } else if !fee_ok(amount, c.fee, c.fee_decimals) {
            Err(Error::Arithmetic)
        } else {
            Ok(
                (
                    spec_fee_amount(amount, c.fee, c.fee_decimals),
                    amount - spec_fee_amount(amount, c.fee, c.fee_decimals),
                    aliases[recipient],
                    tokens[caller],
                    c.admin@,
                ),
            )
        },
    }
}

/// The outcome of an alias claim: either the first failing check's
/// error, or (new alias registry, new custom-alias pointers, the claimed
/// alias string).
pub open spec fn alias_outcome(
    cfg: Option<Config>,
    aliases: Map<Seq<char>, Seq<char>>,
    customs: Map<Seq<char>, Seq<char>>,
    seed: Option<Seq<u8>>,
    height: u64,
    time: u64,
    env_sender: Seq<char>,
    alias: Option<Seq<char>>,
    owner: Seq<char>,
) -> Result<(Map<Seq<char>, Seq<char>>, Map<Seq<char>, Seq<char>>, Seq<char>), Error> {
    match cfg {
        None => Err(Error::NotInitialized),
        Some(c) => if !c.active {
            Err(Error::Disabled)
        } else {
            match alias {
                Some(a) => if aliases.contains_key(a) {
                    Err(Error::AliasTaken)
                } else {
                    let na = if customs.contains_key(owner) {
                        aliases.insert(a, owner).remove(customs[owner])
                    } else {
                        aliases.insert(a, owner)
                    };
                    Ok((na, customs.insert(owner, a), a))
                },
                None => match seed {
                    None => Err(Error::NotInitialized),
                    Some(s) => {
                        let astr = random_alias_of(s, height, time, env_sender);
                        Ok((aliases.insert(astr, owner), customs, astr))
                    },
                },
            }
        },
    }
}

/// The admin gate: which error, if any, stops a configuration change by
/// `sender`.
pub open spec fn admin_outcome(cfg: Option<Config>, sender: Seq<char>) -> Option<Error> {
    match cfg {
        None => Some(Error::NotInitialized),
        Some(c) => if sender != c.admin@ {
            Some(Error::Unauthorized)
        } else {
            None
        },
    }
}

/// A successful routing response: exactly two transfer instructions to
/// the notifying token — the fee to the admin, the remainder to the
/// alias owner — and nothing else.
pub open spec fn transfer_response_shape(
    resp: Response,
    token: Seq<char>,
    hash: Seq<char>,
    admin: Seq<char>,
    owner: Seq<char>,
    fee_part: int,
    remaining: int,
) -> bool {
    &&& resp.messages@.len() == 2
    &&& (resp.messages@[0] matches Instruction::Transfer { token_addr, callback_hash, recipient, amount }
        && token_addr@ == token && callback_hash@ == hash && recipient@ == admin && amount
        == fee_part)
    &&& (resp.messages@[1] matches Instruction::Transfer { token_addr, callback_hash, recipient, amount }
        && token_addr@ == token && callback_hash@ == hash && recipient@ == owner && amount
        == remaining)
    &&& resp.log@.len() == 0
    &&& resp.data is None
}

/// A successful alias-claim response: no instructions, one log entry
/// naming the claimed alias, and a success payload.
pub open spec fn alias_response_shape(resp: Response, astr: Seq<char>) -> bool {
    &&& resp.messages@.len() == 0
    &&& resp.log@.len() == 1
    &&& resp.log@[0].key@ == "alias"@
    &&& resp.log@[0].value@ == astr
    &&& resp.data == Some(HandleAnswer::SetAlias { status: ResponseStatus::Success })
}

/// Full correctness of one routing call against `send_outcome`.
pub open spec fn send_spec(
    pre: State,
    env: Env,
    recipient: Seq<char>,
    amount: u128,
    r: Result<Response, Error>,
) -> bool {
    match send_outcome(
        pre.config,
        pre.tokens@,
        pre.aliases@,
        env.message_sender@,
        recipient,
        amount,
    ) {
        Err(e) => r matches Err(e2) && e2 == e,
        Ok(o) => r matches Ok(resp) && transfer_response_shape(
            resp,
            env.message_sender@,
            o.3,
            o.4,
            o.2,
            o.0,
            o.1,
        ),
    }
}

/// Full correctness of one alias claim against `alias_outcome`.
pub open spec fn alias_spec(
    pre: State,
    post: State,
    env: Env,
    alias: Option<Seq<char>>,
    owner: Seq<char>,
    r: Result<Response, Error>,
) -> bool {
    match alias_outcome(
        pre.config,
        pre.aliases@,
        pre.customs@,
        pre.seed_view(),
        env.block_height,
        env.block_time,
        env.message_sender@,
        alias,
        owner,
    ) {
        Err(e) => r matches Err(e2) && e2 == e && post == pre,
        Ok(o) => {
            &&& r matches Ok(resp) && alias_response_shape(resp, o.2)
            &&& post.aliases@ == o.0
            &&& post.customs@ == o.1
            &&& post.config == pre.config
            &&& post.seed == pre.seed
            &&& post.tokens == pre.tokens
        },
    }
}

/// Full correctness of one deposit notification.
pub open spec fn receive_spec(
    pre: State,
    post: State,
    env: Env,
    sender: Seq<char>,
    amount: u128,
    msg: Option<HandleReceiveMsg>,
    r: Result<Response, Error>,
) -> bool {
    match pre.config {
        None => r matches Err(e) && e == Error::NotInitialized && post == pre,
        Some(_) => match msg {
            None => r matches Err(e) && e == Error::MissingPayload && post == pre,
            Some(HandleReceiveMsg::ReceiveTokens { recipient }) => post == pre && send_spec(
                pre,
                env,
                recipient@,
                amount,
                r,
            ),
            Some(HandleReceiveMsg::SetAlias { alias }) => alias_spec(
                pre,
                post,
                env,
                opt_view(alias),
                sender,
                r,
            ),
        },
    }
}

/// Full correctness of one token registration.
pub open spec fn register_token_spec(
    pre: State,
    post: State,
    env: Env,
    addr: Seq<char>,
    hash: Seq<char>,
    r: Result<Response, Error>,
) -> bool {
    match admin_outcome(pre.config, env.message_sender@) {
        Some(e) => r matches Err(e2) && e2 == e && post == pre,
        None => {
            &&& r matches Ok(resp) && (resp.messages@.len() == 1 && (resp.messages@[0] matches
            Instruction::RegisterReceive { token_addr, callback_hash, own_hash }
                && token_addr@ == addr && callback_hash@ == hash && own_hash@
                == env.contract_code_hash@) && resp.log@.len() == 0 && resp.data is None)
            &&& post.tokens@ == pre.tokens@.insert(addr, hash)
            &&& post.config == pre.config
            &&& post.seed == pre.seed
            &&& post.aliases == pre.aliases
            &&& post.customs == pre.customs
        },
    }
}

/// Full correctness of one fee change.
pub open spec fn change_fee_spec(
    pre: State,
    post: State,
    env: Env,
    new_fee: u128,
    r: Result<Response, Error>,
) -> bool {
    match admin_outcome(pre.config, env.message_sender@) {
        Some(e) => r matches Err(e2) && e2 == e && post == pre,
        None => {
            &&& r matches Ok(resp) && resp.messages@.len() == 0 && resp.log@.len() == 0
                && resp.data is None
            &&& (post.config matches Some(nc) && pre.config matches Some(oc) && nc.admin
                == oc.admin && nc.active == oc.active && nc.fee == new_fee && nc.fee_decimals
                == oc.fee_decimals)
            &&& post.seed == pre.seed
            &&& post.tokens == pre.tokens
            &&& post.aliases == pre.aliases
            &&& post.customs == pre.customs
        },
    }
}

/// Full correctness of one admin change.
pub open spec fn change_admin_spec(
    pre: State,
    post: State,
    env: Env,
    new_admin: Seq<char>,
    r: Result<Response, Error>,
) -> bool {
    match admin_outcome(pre.config, env.message_sender@) {
        Some(e) => r matches Err(e2) && e2 == e && post == pre,
        None => {
            &&& r matches Ok(resp) && resp.messages@.len() == 0 && resp.log@.len() == 0
                && resp.data is None
            &&& (post.config matches Some(nc) && pre.config matches Some(oc) && nc.admin@
                == new_admin && nc.active == oc.active && nc.fee == oc.fee && nc.fee_decimals
                == oc.fee_decimals)
            &&& post.seed == pre.seed
            &&& post.tokens == pre.tokens
            &&& post.aliases == pre.aliases
            &&& post.customs == pre.customs
        },
    }
}

/// Full correctness of one query.
pub open spec fn query_spec(state: State, msg: QueryMsg, r: Result<QueryAnswer, Error>) -> bool {
    match msg {
        QueryMsg::GetConfig {  } => match state.config {
            None => r matches Err(e) && e == Error::NotInitialized,
            Some(c) => r matches Ok(a) && (a matches QueryAnswer::Config(cr) && cr.active
                == c.active && cr.fee == c.fee && cr.decimals == c.fee_decimals),
        },
        QueryMsg::CheckAlias { alias } => r matches Ok(a) && (a matches QueryAnswer::AliasCheck(ac)
            && ac.does_exist == state.aliases@.contains_key(alias@)),
    }
}

/// Initializes the module: records the configuration (with transfers
/// enabled), derives and persists the generator seed from the supplied
/// entropy, registers the well-known token, and emits one instruction
/// asking that token to deliver deposit notifications here.
pub fn init(state: &mut State, env: &Env, msg: InitMsg) -> (r: Result<Response, Error>)
    requires
        old(state).wf(),
    ensures
        final(state).wf(),
        r matches Ok(resp) && {
            &&& (final(state).config matches Some(c) && c.admin@ == msg.admin@ && c.active
                && c.fee == msg.fee && c.fee_decimals == msg.fee_decimals)
            &&& (final(state).seed matches Some(s) && s@ == seed_of(msg.entropy@))
            &&& final(state).tokens@ == old(state).tokens@.insert(msg.sscrt_addr@, msg.sscrt_hash@)
            &&& final(state).aliases == old(state).aliases
            &&& final(state).customs == old(state).customs
            &&& resp.messages@.len() == 1
            &&& (resp.messages@[0] matches Instruction::RegisterReceive {
                token_addr,
                callback_hash,
                own_hash,
            } && token_addr@ == msg.sscrt_addr@ && callback_hash@ == msg.sscrt_hash@ && own_hash@
                == env.contract_code_hash@)
            &&& resp.log@.len() == 0
            &&& resp.data is None
        },
{
    let b64 = base64_encode(msg.entropy.as_str());
    let seed = sha256(b64.as_str().as_bytes());
    state.config = Some(
        Config { admin: msg.admin, active: true, fee: msg.fee, fee_decimals: msg.fee_decimals },
    );
    state.seed = Some(seed);
    state.tokens.save(&msg.sscrt_addr, msg.sscrt_hash.clone());
    let mut messages: Vec<Instruction> = Vec::new();
    messages.push(
        Instruction::RegisterReceive {
            token_addr: msg.sscrt_addr,
            callback_hash: msg.sscrt_hash,
            own_hash: env.contract_code_hash.clone(),
        },
    );
    Ok(Response { messages, log: Vec::new(), data: None })
}

/// Dispatches an executable operation to its handler.
pub fn handle(state: &mut State, env: &Env, msg: HandleMsg) -> (r: Result<Response, Error>)
    requires
        old(state).wf(),
    ensures
        final(state).wf(),
        match msg {
            HandleMsg::Receive { sender, amount, msg: m, .. } => receive_spec(
                *old(state),
                *final(state),
                *env,
                sender@,
                amount,
                m,
                r,
            ),
            HandleMsg::RegisterToken { snip20_addr, snip20_hash } => register_token_spec(
                *old(state),
                *final(state),
                *env,
                snip20_addr@,
                snip20_hash@,
                r,
            ),
            HandleMsg::ChangeFee { new_fee } => change_fee_spec(
                *old(state),
                *final(state),
                *env,
                new_fee,
                r,
            ),
            HandleMsg::ChangeAdmin { new_admin } => change_admin_spec(
                *old(state),
                *final(state),
                *env,
                new_admin@,
                r,
            ),
        },
{
    match msg {
        HandleMsg::Receive { sender, from, amount, msg: m } => receive(
            state,
            env,
            sender,
            from,
            amount,
            m,
        ),
        HandleMsg::RegisterToken { snip20_addr, snip20_hash } => register_token(
            state,
            env,
            snip20_addr,
            snip20_hash,
        ),
        HandleMsg::ChangeFee { new_fee } => change_fee(state, env, new_fee),
        HandleMsg::ChangeAdmin { new_admin } => change_admin(state, env, new_admin),
    }
}

/// Handles a deposit notification.  Only the authenticated direct caller
/// of the entry point is trusted as the notifying token contract; the
/// mandatory payload selects the sub-operation.  Note that for an alias
/// claim the owner is the payload's sender field, which the token's own
/// transfer record does not independently verify.
pub fn receive(
    state: &mut State,
    env: &Env,
    sender: String,
    _from: String,
    amount: u128,
    msg: Option<HandleReceiveMsg>,
) -> (r: Result<Response, Error>)
    requires
        old(state).wf(),
    ensures
        final(state).wf(),
        receive_spec(*old(state), *final(state), *env, sender@, amount, msg, r),
{
    if state.config.is_none() {
        return Err(Error::NotInitialized);
    }
    match msg {
        None => Err(Error::MissingPayload),
        Some(HandleReceiveMsg::ReceiveTokens { recipient }) => send_funds(
            state,
            env,
            recipient,
            amount,
        ),
        Some(HandleReceiveMsg::SetAlias { alias }) => set_alias(state, env, alias, sender),
    }
}

/// Routes a deposited amount to the owner of `recipient`: checks the
/// contract is active, the notifying caller is a registered token, and
/// the alias resolves; splits the amount; and emits the two transfer
/// instructions (fee to the admin, remainder to the owner).
pub fn send_funds(state: &State, env: &Env, recipient: String, amount: u128) -> (r: Result<
    Response,
    Error,
>)
    requires
        state.wf(),
    ensures
        send_spec(*state, *env, recipient@, amount, r),
{
    let (active, fee, fee_decimals, admin) = match &state.config {
        None => {
            return Err(Error::NotInitialized);
        },
        Some(c) => (c.active, c.fee, c.fee_decimals, c.admin.clone()),
    };
    if !active {
        return Err(Error::Disabled);
    }
    let callback_code_hash = match state.tokens.may_load(&env.message_sender) {
        None => {
            return Err(Error::TokenNotRegistered);
        },
        Some(h) => h,
    };
    let addr = match state.aliases.may_load(&recipient) {
        None => {
            return Err(Error::AliasNotFound);
        },
        Some(a) => a,
    };
    let (fee_amount, remaining_amount) = match fee_split(amount, fee, fee_decimals) {
        Err(e) => {
            return Err(e);
        },
        Ok(p) => p,
    };
    let mut messages: Vec<Instruction> = Vec::new();
    messages.push(
        Instruction::Transfer {
            token_addr: env.message_sender.clone(),
            callback_hash: callback_code_hash.clone(),
            recipient: admin,
            amount: fee_amount,
        },
    );
    messages.push(
        Instruction::Transfer {
            token_addr: env.message_sender.clone(),
            callback_hash: callback_code_hash,
            recipient: addr,
            amount: remaining_amount,
        },
    );
    Ok(Response { messages, log: Vec::new(), data: None })
}

/// Claims an alias for `sender`.  A provided alias is claimed as the
/// account's custom alias: it must not be taken by anyone (not even by
/// re-claiming one's own), the account's custom-alias pointer is
/// updated, and the account's previous custom alias, if any, is removed
/// from the registry.  Without a provided alias, a fresh alias is
/// derived from the persisted seed and the call environment and added
/// unconditionally.
pub fn set_alias(state: &mut State, env: &Env, alias: Option<String>, sender: String) -> (r:
    Result<Response, Error>)
    requires
        old(state).wf(),
    ensures
        final(state).wf(),
        alias_spec(*old(state), *final(state), *env, opt_view(alias), sender@, r),
{
    let active = match &state.config {
        None => {
            return Err(Error::NotInitialized);
        },
        Some(c) => c.active,
    };
    if !active {
        return Err(Error::Disabled);
    }
    let alias_string: String;
    match alias {
        Some(a) => {
            if state.aliases.may_load(&a).is_some() {
                return Err(Error::AliasTaken);
            }
            let old_alias = state.customs.may_load(&sender);
            state.customs.save(&sender, a.clone());
            state.aliases.save(&a, sender.clone());
            if let Some(oa) = old_alias {
                state.aliases.remove(&oa);
            }
            alias_string = a;
        },
        None => {
            let rand = match &state.seed {
                None => {
                    return Err(Error::NotInitialized);
                },
                Some(seed) => new_entropy(env, seed.as_slice(), seed.as_slice()),
            };
            let astr = hex_encode(&rand);
            state.aliases.save(&astr, sender.clone());
            alias_string = astr;
        },
    }
    let mut log: Vec<LogEntry> = Vec::new();
    log.push(LogEntry { key: "alias".to_owned(), value: alias_string });
    Ok(
        Response {
            messages: Vec::new(),
            log,
            data: Some(HandleAnswer::SetAlias { status: ResponseStatus::Success }),
        },
    )
}

/// Registers a token contract (admin only): stores its callback
/// credential — overwriting any previous one — and emits one
/// instruction asking it to deliver deposit notifications here.
pub fn register_token(state: &mut State, env: &Env, snip20_addr: String, snip20_hash: String) -> (r:
    Result<Response, Error>)
    requires
        old(state).wf(),
    ensures
        final(state).wf(),
        register_token_spec(*old(state), *final(state), *env, snip20_addr@, snip20_hash@, r),
{
    match &state.config {
        None => {
            return Err(Error::NotInitialized);
        },
        Some(c) => {
            if !(env.message_sender == c.admin) {
                return Err(Error::Unauthorized);
            }
        },
    }
    state.tokens.save(&snip20_addr, snip20_hash.clone());
    let mut messages: Vec<Instruction> = Vec::new();
    messages.push(
        Instruction::RegisterReceive {
            token_addr: snip20_addr,
            callback_hash: snip20_hash,
            own_hash: env.contract_code_hash.clone(),
        },
    );
    Ok(Response { messages, log: Vec::new(), data: None })
}

/// Derives 32 bytes of entropy for a random alias: block height, block
/// time, the caller's address bytes and the extra entropy are fed,
/// together with `seed`, to the deterministic generator.
pub fn new_entropy(env: &Env, seed: &[u8], entropy: &[u8]) -> (r: Vec<u8>)
    ensures
        r@ == prng_of(
            seed@,
            entropy_of(env.block_height, env.block_time, env.message_sender@, entropy@),
        ),
        r@.len() == 32,
{
    let mut rng_entropy: Vec<u8> = Vec::new();
    push_be64(&mut rng_entropy, env.block_height);
    push_be64(&mut rng_entropy, env.block_time);
    push_bytes(&mut rng_entropy, env.message_sender.as_str().as_bytes());
    push_bytes(&mut rng_entropy, entropy);
    proof {
        assert(rng_entropy@ =~= entropy_of(
            env.block_height,
            env.block_time,
            env.message_sender@,
            entropy@,
        ));
    }
    prng_bytes(seed, rng_entropy.as_slice())
}

/// Changes the fee rate (admin only).
pub fn change_fee(state: &mut State, env: &Env, new_fee: u128) -> (r: Result<Response, Error>)
    requires
        old(state).wf(),
    ensures
        final(state).wf(),
        change_fee_spec(*old(state), *final(state), *env, new_fee, r),
{
    let (admin_ok, admin, active, fee_decimals) = match &state.config {
        None => {
            return Err(Error::NotInitialized);
        },
        Some(c) => (env.message_sender == c.admin, c.admin.clone(), c.active, c.fee_decimals),
    };
    if !admin_ok {
        return Err(Error::Unauthorized);
    }
    state.config = Some(Config { admin, active, fee: new_fee, fee_decimals });
    Ok(Response::empty())
}

/// Hands the administrator role to `new_admin` (admin only).
pub fn change_admin(state: &mut State, env: &Env, new_admin: String) -> (r: Result<Response, Error>)
    requires
        old(state).wf(),
    ensures
        final(state).wf(),
        change_admin_spec(*old(state), *final(state), *env, new_admin@, r),
{
    let (admin_ok, active, fee, fee_decimals) = match &state.config {
        None => {
            return Err(Error::NotInitialized);
        },
        Some(c) => (env.message_sender == c.admin, c.active, c.fee, c.fee_decimals),
    };
    if !admin_ok {
        return Err(Error::Unauthorized);
    }
    state.config = Some(Config { admin: new_admin, active, fee, fee_decimals });
    Ok(Response::empty())
}

/// Answers a read-only query; `GetConfig` is publicly readable and needs
/// no authorization.
pub fn query(state: &State, msg: QueryMsg) -> (r: Result<QueryAnswer, Error>)
    requires
        state.wf(),
    ensures
        query_spec(*state, msg, r),
{
    match msg {
        QueryMsg::GetConfig {  } => match query_config(state) {
            Ok(cr) => Ok(QueryAnswer::Config(cr)),
            Err(e) => Err(e),
        },
        QueryMsg::CheckAlias { alias } => {
            let found = state.aliases.may_load(&alias).is_some();
            Ok(QueryAnswer::AliasCheck(AliasCheckResponse { does_exist: found }))
        },
    }
}

/// Reads the publicly visible part of the configuration.
fn query_config(state: &State) -> (r: Result<ConfigResponse, Error>)
    ensures
        match state.config {
            None => r matches Err(e) && e == Error::NotInitialized,
            Some(c) => r matches Ok(cr) && cr.active == c.active && cr.fee == c.fee && cr.decimals
                == c.fee_decimals,
        },
{
    match &state.config {
        None => Err(Error::NotInitialized),
        Some(c) => Ok(ConfigResponse { active: c.active, fee: c.fee, decimals: c.fee_decimals }),
    }
}

} // verus!
