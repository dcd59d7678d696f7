//! The PRNG-derived alias path: determinism of the derivation given the
//! persisted seed and the call environment, the exact seed derivation,
//! and the hexadecimal rendering — cross-checked against the underlying
//! crypto crates called directly.

#![allow(deprecated)]

use alias_pay::contract::{init, query, receive};
use alias_pay::msg::{AliasCheckResponse, HandleReceiveMsg, InitMsg, QueryAnswer, QueryMsg};
use alias_pay::response::{Error, Response};
use alias_pay::state::{Env, State};
use secret_toolkit::crypto::{sha_256, ContractPrng};

fn env(sender: &str, height: u64, time: u64) -> Env {
    Env {
        block_height: height,
        block_time: time,
        message_sender: sender.to_string(),
        contract_code_hash: "own_hash".to_string(),
    }
}

fn init_with_entropy(entropy: &str) -> State {
    let mut state = State::new();
    let msg = InitMsg {
        admin: "admin".to_string(),
        fee: 5,
        fee_decimals: 2,
        sscrt_addr: "token".to_string(),
        sscrt_hash: "hT".to_string(),
        entropy: entropy.to_string(),
    };
    init(&mut state, &env("admin", 1, 1), msg).unwrap();
    state
}

fn random_claim(state: &mut State, e: &Env, owner: &str) -> Result<Response, Error> {
    receive(
        state,
        e,
        owner.to_string(),
        owner.to_string(),
        0,
        Some(HandleReceiveMsg::SetAlias { alias: None }),
    )
}

fn logged_alias(resp: &Response) -> String {
    assert_eq!(resp.log.len(), 1);
    assert_eq!(resp.log[0].key, "alias");
    resp.log[0].value.clone()
}

#[test]
fn seed_is_sha256_of_base64_of_entropy() {
    let state = init_with_entropy("supersecret");
    let expected = sha_256(base64::encode("supersecret").as_bytes());
    assert_eq!(state.seed.as_ref().unwrap().as_slice(), &expected);
    // In particular the seed is not the raw entropy handed back.
    assert_ne!(state.seed.as_ref().unwrap().as_slice(), b"supersecret" as &[u8]);
}

#[test]
fn empty_entropy_gives_the_well_known_empty_digest() {
    // base64("") is "", whose SHA-256 digest is fixed.
    let state = init_with_entropy("");
    let expected: [u8; 32] = [
        0xe3, 0xb0, 0xc4, 0x42, 0x98, 0xfc, 0x1c, 0x14, 0x9a, 0xfb, 0xf4, 0xc8, 0x99, 0x6f, 0xb9,
        0x24, 0x27, 0xae, 0x41, 0xe4, 0x64, 0x9b, 0x93, 0x4c, 0xa4, 0x95, 0x99, 0x1b, 0x78, 0x52,
        0xb8, 0x55,
    ];
    assert_eq!(state.seed.as_ref().unwrap().as_slice(), &expected);
}

#[test]
fn random_alias_matches_the_generator_called_directly() {
    let mut state = init_with_entropy("supersecret");
    let e = env("token", 12_345, 1_571_797_419);
    let resp = random_claim(&mut state, &e, "alice_addr").unwrap();
    let alias = logged_alias(&resp);

    // Recompute outside the library: entropy is block height and time in
    // big-endian bytes, the caller's address bytes, then the seed, which
    // also seeds the generator.
    let seed = state.seed.as_ref().unwrap().clone();
    let mut entropy: Vec<u8> = Vec::new();
    entropy.extend_from_slice(&12_345u64.to_be_bytes());
    entropy.extend_from_slice(&1_571_797_419u64.to_be_bytes());
    entropy.extend_from_slice("token".as_bytes());
    entropy.extend_from_slice(&seed);
    let bytes = ContractPrng::new(&seed, &entropy).rand_bytes();
    let mut expected = String::new();
    for b in bytes.iter() {
        expected.push_str(&format!("{:x}", b));
    }
    assert_eq!(alias, expected);
    // And not simply the seed or the entropy rendered in hex.
    let mut seed_hex = String::new();
    for b in seed.iter() {
        seed_hex.push_str(&format!("{:x}", b));
    }
    assert_ne!(alias, seed_hex);

    // The derived alias is registered to the claiming account.
    match query(&state, QueryMsg::CheckAlias { alias: alias.clone() }).unwrap() {
        QueryAnswer::AliasCheck(AliasCheckResponse { does_exist }) => assert!(does_exist),
        _ => panic!("expected an alias check"),
    }
}

#[test]
fn identical_inputs_give_an_identical_alias() {
    let mut s1 = init_with_entropy("supersecret");
    let mut s2 = init_with_entropy("supersecret");
    let e = env("token", 7, 99);
    let a1 = logged_alias(&random_claim(&mut s1, &e, "alice_addr").unwrap());
    let a2 = logged_alias(&random_claim(&mut s2, &e, "alice_addr").unwrap());
    assert_eq!(a1, a2);
}

#[test]
fn differing_any_input_changes_the_alias() {
    let base = env("token", 7, 99);
    let mut s = init_with_entropy("supersecret");
    let a_base = logged_alias(&random_claim(&mut s, &base, "a").unwrap());

    let mut s = init_with_entropy("supersecret");
    let a_height = logged_alias(&random_claim(&mut s, &env("token", 8, 99), "a").unwrap());
    assert_ne!(a_base, a_height);

    let mut s = init_with_entropy("supersecret");
    let a_time = logged_alias(&random_claim(&mut s, &env("token", 7, 100), "a").unwrap());
    assert_ne!(a_base, a_time);

    let mut s = init_with_entropy("supersecret");
    let a_sender = logged_alias(&random_claim(&mut s, &env("token2", 7, 99), "a").unwrap());
    assert_ne!(a_base, a_sender);

    let mut s = init_with_entropy("othersecret");
    let a_seed = logged_alias(&random_claim(&mut s, &base, "a").unwrap());
    assert_ne!(a_base, a_seed);
}

#[test]
fn random_aliases_are_additive_and_leave_custom_claims_alone() {
    let mut state = init_with_entropy("supersecret");
    // A custom claim first.
    receive(
        &mut state,
        &env("token", 7, 99),
        "alice_addr".to_string(),
        "alice_addr".to_string(),
        0,
        Some(HandleReceiveMsg::SetAlias { alias: Some("alice".to_string()) }),
    )
    .unwrap();
    // Two random claims at different heights: both resolve, and the
    // custom alias stays.
    let r1 = logged_alias(&random_claim(&mut state, &env("token", 8, 99), "alice_addr").unwrap());
    let r2 = logged_alias(&random_claim(&mut state, &env("token", 9, 99), "alice_addr").unwrap());
    assert_ne!(r1, r2);
    for alias in ["alice".to_string(), r1, r2] {
        match query(&state, QueryMsg::CheckAlias { alias }).unwrap() {
            QueryAnswer::AliasCheck(AliasCheckResponse { does_exist }) => assert!(does_exist),
            _ => panic!("expected an alias check"),
        }
    }
}

#[test]
fn random_claim_needs_a_seed() {
    // A state with a configuration but no persisted seed refuses the
    // random path.
    let mut state = init_with_entropy("supersecret");
    state.seed = None;
    let e = env("token", 7, 99);
    assert_eq!(random_claim(&mut state, &e, "a"), Err(Error::NotInitialized));
}
