//! End-to-end behaviour of the routing module: initialization, alias
//! claims, deposit routing with the fee split, and the admin gate.

use alias_pay::contract::{change_admin, change_fee, handle, init, query, receive, register_token,
    send_funds, set_alias};
use alias_pay::msg::{AliasCheckResponse, HandleAnswer, HandleMsg, HandleReceiveMsg, InitMsg,
    QueryAnswer, QueryMsg, ResponseStatus};
use alias_pay::response::{Error, Instruction, Response};
use alias_pay::state::{Config, Env, State};

fn env(sender: &str) -> Env {
    Env {
        block_height: 12_345,
        block_time: 1_571_797_419,
        message_sender: sender.to_string(),
        contract_code_hash: "own_hash".to_string(),
    }
}

fn init_msg() -> InitMsg {
    InitMsg {
        admin: "admin".to_string(),
        fee: 5,
        fee_decimals: 2,
        sscrt_addr: "token".to_string(),
        sscrt_hash: "hT".to_string(),
        entropy: "supersecret".to_string(),
    }
}

fn fresh() -> State {
    let mut state = State::new();
    let r = init(&mut state, &env("admin"), init_msg());
    assert!(r.is_ok());
    state
}

#[test]
fn init_sets_config_seed_and_token() {
    let mut state = State::new();
    let resp = init(&mut state, &env("admin"), init_msg()).unwrap();

    let config = state.config.as_ref().unwrap();
    assert_eq!(config.admin, "admin");
    assert!(config.active);
    assert_eq!(config.fee, 5);
    assert_eq!(config.fee_decimals, 2);
    assert_eq!(state.seed.as_ref().unwrap().len(), 32);

    assert_eq!(resp.messages.len(), 1);
    match &resp.messages[0] {
        Instruction::RegisterReceive { token_addr, callback_hash, own_hash } => {
            assert_eq!(token_addr, "token");
            assert_eq!(callback_hash, "hT");
            assert_eq!(own_hash, "own_hash");
        }
        other => panic!("unexpected instruction {:?}", discriminant_name(other)),
    }
    assert!(resp.log.is_empty());
    assert!(resp.data.is_none());
}

fn discriminant_name(i: &Instruction) -> &'static str {
    match i {
        Instruction::RegisterReceive { .. } => "RegisterReceive",
        Instruction::Transfer { .. } => "Transfer",
    }
}

fn claim(state: &mut State, caller: &str, alias: Option<&str>, owner: &str) -> Result<Response, Error> {
    receive(
        state,
        &env(caller),
        owner.to_string(),
        owner.to_string(),
        0,
        Some(HandleReceiveMsg::SetAlias { alias: alias.map(|a| a.to_string()) }),
    )
}

fn deposit(state: &mut State, caller: &str, recipient: &str, amount: u128) -> Result<Response, Error> {
    receive(
        state,
        &env(caller),
        "payer".to_string(),
        "payer".to_string(),
        amount,
        Some(HandleReceiveMsg::ReceiveTokens { recipient: recipient.to_string() }),
    )
}

#[test]
fn full_flow_claim_then_route_with_five_percent_fee() {
    // A five-percent fee: rate 5 with two decimals gives
    // amount * (5 * 10^2) / 100^2 = amount / 20.
    let mut state = fresh();

    let resp = claim(&mut state, "token", Some("alice"), "alice_addr").unwrap();
    assert!(resp.messages.is_empty());
    assert_eq!(resp.log.len(), 1);
    assert_eq!(resp.log[0].key, "alias");
    assert_eq!(resp.log[0].value, "alice");
    match resp.data {
        Some(HandleAnswer::SetAlias { status: ResponseStatus::Success }) => {}
        _ => panic!("expected a success payload"),
    }

    let resp = deposit(&mut state, "token", "alice", 1000).unwrap();
    assert_eq!(resp.messages.len(), 2);
    match &resp.messages[0] {
        Instruction::Transfer { token_addr, callback_hash, recipient, amount } => {
            assert_eq!(token_addr, "token");
            assert_eq!(callback_hash, "hT");
            assert_eq!(recipient, "admin");
            assert_eq!(*amount, 50);
        }
        _ => panic!("expected a transfer to the admin"),
    }
    match &resp.messages[1] {
        Instruction::Transfer { token_addr, callback_hash, recipient, amount } => {
            assert_eq!(token_addr, "token");
            assert_eq!(callback_hash, "hT");
            assert_eq!(recipient, "alice_addr");
            assert_eq!(*amount, 950);
        }
        _ => panic!("expected a transfer to the alias owner"),
    }
    assert!(resp.log.is_empty());
    assert!(resp.data.is_none());
}

#[test]
fn claiming_a_taken_alias_fails_and_changes_nothing() {
    let mut state = fresh();
    claim(&mut state, "token", Some("alice"), "alice_addr").unwrap();

    // Nobody may take it over, not even its own holder.
    assert_eq!(claim(&mut state, "token", Some("alice"), "bob_addr"), Err(Error::AliasTaken));
    assert_eq!(claim(&mut state, "token", Some("alice"), "alice_addr"), Err(Error::AliasTaken));

    // The registry still routes to the original owner.
    let resp = deposit(&mut state, "token", "alice", 100).unwrap();
    match &resp.messages[1] {
        Instruction::Transfer { recipient, .. } => assert_eq!(recipient, "alice_addr"),
        _ => panic!("expected a transfer"),
    }
}

#[test]
fn replace_on_reassign_moves_the_custom_alias() {
    let mut state = fresh();
    claim(&mut state, "token", Some("foo"), "alice_addr").unwrap();
    claim(&mut state, "token", Some("bar"), "alice_addr").unwrap();

    // "bar" resolves to the account; "foo" resolves to nothing.
    match query(&state, QueryMsg::CheckAlias { alias: "bar".to_string() }).unwrap() {
        QueryAnswer::AliasCheck(AliasCheckResponse { does_exist }) => assert!(does_exist),
        _ => panic!("expected an alias check"),
    }
    match query(&state, QueryMsg::CheckAlias { alias: "foo".to_string() }).unwrap() {
        QueryAnswer::AliasCheck(AliasCheckResponse { does_exist }) => assert!(!does_exist),
        _ => panic!("expected an alias check"),
    }
    let resp = deposit(&mut state, "token", "bar", 100).unwrap();
    match &resp.messages[1] {
        Instruction::Transfer { recipient, .. } => assert_eq!(recipient, "alice_addr"),
        _ => panic!("expected a transfer"),
    }
    assert_eq!(deposit(&mut state, "token", "foo", 100), Err(Error::AliasNotFound));
}

#[test]
fn unregistered_token_deposit_is_rejected() {
    let mut state = fresh();
    claim(&mut state, "token", Some("alice"), "alice_addr").unwrap();
    assert_eq!(deposit(&mut state, "other_token", "alice", 100), Err(Error::TokenNotRegistered));
}

#[test]
fn missing_payload_is_rejected() {
    let mut state = fresh();
    let r = receive(&mut state, &env("token"), "a".to_string(), "a".to_string(), 5, None);
    assert_eq!(r, Err(Error::MissingPayload));
}

#[test]
fn uninitialized_module_rejects_calls() {
    let mut state = State::new();
    let r = receive(
        &mut state,
        &env("token"),
        "a".to_string(),
        "a".to_string(),
        5,
        Some(HandleReceiveMsg::ReceiveTokens { recipient: "alice".to_string() }),
    );
    assert_eq!(r, Err(Error::NotInitialized));
    assert_eq!(query(&state, QueryMsg::GetConfig {}), Err(Error::NotInitialized));
}

#[test]
fn disabled_contract_blocks_transfers_and_aliasing_but_not_queries() {
    let mut state = fresh();
    claim(&mut state, "token", Some("alice"), "alice_addr").unwrap();

    // The host would flip this flag through storage; the data model only
    // reads it.
    if let Some(config) = state.config.as_mut() {
        config.active = false;
    }

    assert_eq!(deposit(&mut state, "token", "alice", 100), Err(Error::Disabled));
    assert_eq!(claim(&mut state, "token", Some("bob"), "bob_addr"), Err(Error::Disabled));
    assert_eq!(claim(&mut state, "token", None, "bob_addr"), Err(Error::Disabled));

    match query(&state, QueryMsg::GetConfig {}).unwrap() {
        QueryAnswer::Config(c) => {
            assert!(!c.active);
            assert_eq!(c.fee, 5);
            assert_eq!(c.decimals, 2);
        }
        _ => panic!("expected the config"),
    }
}

#[test]
fn admin_gate_rejects_non_admin_callers() {
    let mut state = fresh();

    let r = register_token(&mut state, &env("mallory"), "t2".to_string(), "h2".to_string());
    assert_eq!(r, Err(Error::Unauthorized));
    let r = change_fee(&mut state, &env("mallory"), 10);
    assert_eq!(r, Err(Error::Unauthorized));
    let r = change_admin(&mut state, &env("mallory"), "mallory".to_string());
    assert_eq!(r, Err(Error::Unauthorized));

    // The configuration is untouched.
    let config = state.config.as_ref().unwrap();
    assert_eq!(config.admin, "admin");
    assert_eq!(config.fee, 5);

    // And the unregistered token still cannot notify deposits.
    let mut s2 = fresh();
    claim(&mut s2, "token", Some("alice"), "alice_addr").unwrap();
    assert_eq!(deposit(&mut s2, "t2", "alice", 100), Err(Error::TokenNotRegistered));
}

#[test]
fn admin_can_register_token_change_fee_and_admin() {
    let mut state = fresh();
    claim(&mut state, "token", Some("alice"), "alice_addr").unwrap();

    let resp = register_token(&mut state, &env("admin"), "t2".to_string(), "h2".to_string()).unwrap();
    assert_eq!(resp.messages.len(), 1);
    match &resp.messages[0] {
        Instruction::RegisterReceive { token_addr, callback_hash, own_hash } => {
            assert_eq!(token_addr, "t2");
            assert_eq!(callback_hash, "h2");
            assert_eq!(own_hash, "own_hash");
        }
        _ => panic!("expected a register-receive instruction"),
    }
    // The new token may now notify deposits, with its own credential.
    let resp = deposit(&mut state, "t2", "alice", 40).unwrap();
    match &resp.messages[0] {
        Instruction::Transfer { callback_hash, amount, .. } => {
            assert_eq!(callback_hash, "h2");
            assert_eq!(*amount, 2);
        }
        _ => panic!("expected a transfer"),
    }

    change_fee(&mut state, &env("admin"), 10).unwrap();
    assert_eq!(state.config.as_ref().unwrap().fee, 10);

    change_admin(&mut state, &env("admin"), "admin2".to_string()).unwrap();
    assert_eq!(state.config.as_ref().unwrap().admin, "admin2");
    // The old admin has lost the role.
    assert_eq!(change_fee(&mut state, &env("admin"), 1), Err(Error::Unauthorized));
    change_fee(&mut state, &env("admin2"), 1).unwrap();
    assert_eq!(state.config.as_ref().unwrap().fee, 1);
}

#[test]
fn re_registering_a_token_overwrites_its_credential() {
    let mut state = fresh();
    claim(&mut state, "token", Some("alice"), "alice_addr").unwrap();
    register_token(&mut state, &env("admin"), "token".to_string(), "hT2".to_string()).unwrap();
    let resp = deposit(&mut state, "token", "alice", 100).unwrap();
    match &resp.messages[0] {
        Instruction::Transfer { callback_hash, .. } => assert_eq!(callback_hash, "hT2"),
        _ => panic!("expected a transfer"),
    }
}

#[test]
fn handle_dispatches_like_the_direct_calls() {
    let mut state = fresh();
    let r = handle(
        &mut state,
        &env("token"),
        HandleMsg::Receive {
            sender: "alice_addr".to_string(),
            from: "alice_addr".to_string(),
            amount: 0,
            msg: Some(HandleReceiveMsg::SetAlias { alias: Some("alice".to_string()) }),
        },
    );
    assert!(r.is_ok());
    let r = handle(
        &mut state,
        &env("mallory"),
        HandleMsg::ChangeFee { new_fee: 7 },
    );
    assert_eq!(r, Err(Error::Unauthorized));
    let r = handle(
        &mut state,
        &env("token"),
        HandleMsg::Receive {
            sender: "payer".to_string(),
            from: "payer".to_string(),
            amount: 1000,
            msg: Some(HandleReceiveMsg::ReceiveTokens { recipient: "alice".to_string() }),
        },
    )
    .unwrap();
    assert_eq!(r.messages.len(), 2);
}

#[test]
fn set_alias_directly_mirrors_the_receive_path() {
    let mut state = fresh();
    let resp = set_alias(&mut state, &env("token"), Some("carol".to_string()), "carol_addr".to_string()).unwrap();
    assert_eq!(resp.log[0].value, "carol");
    let resp = send_funds(&state, &env("token"), "carol".to_string(), 20).unwrap();
    match &resp.messages[1] {
        Instruction::Transfer { recipient, amount, .. } => {
            assert_eq!(recipient, "carol_addr");
            assert_eq!(*amount, 19);
        }
        _ => panic!("expected a transfer"),
    }
}

#[test]
fn error_messages_are_descriptive() {
    assert_eq!(
        Error::Disabled.message(),
        "Contract is currently disabled"
    );
    assert_eq!(
        Error::TokenNotRegistered.message(),
        "This token is not registered with this contract. Please register it"
    );
    assert_eq!(
        Error::AliasNotFound.message(),
        "This alias is not linked to an address"
    );
    assert_eq!(Error::AliasTaken.message(), "This custom alias is unavailibe");
    assert_eq!(Error::MissingPayload.message(), "data should be given");
    assert_eq!(
        Error::Unauthorized.message(),
        "This function is only usable by the Admin"
    );
}

#[test]
fn config_is_required_before_admin_ops() {
    let mut state = State::new();
    assert_eq!(change_fee(&mut state, &env("admin"), 1), Err(Error::NotInitialized));
    assert_eq!(
        register_token(&mut state, &env("admin"), "t".to_string(), "h".to_string()),
        Err(Error::NotInitialized)
    );
    assert_eq!(
        change_admin(&mut state, &env("admin"), "a".to_string()),
        Err(Error::NotInitialized)
    );
}

#[test]
fn default_config_check() {
    // A state built by hand is accepted by the entry points just like an
    // initialized one.
    let mut state = State::new();
    state.config = Some(Config {
        admin: "root".to_string(),
        active: true,
        fee: 0,
        fee_decimals: 0,
    });
    let r = change_fee(&mut state, &env("root"), 3).unwrap();
    assert!(r.messages.is_empty() && r.log.is_empty() && r.data.is_none());
    assert_eq!(state.config.as_ref().unwrap().fee, 3);
}
