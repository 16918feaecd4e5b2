use casper_types::account::AccountHash;
use casper_types::bytesrepr::ToBytes;
use casper_types::{crypto, PublicKey as CasperPublicKey, SecretKey};
use casper_x402::contract::{Address, Cep18X402, Error, Event, Revert};
use casper_x402::crypto::PublicKey;
use casper_x402::message::build_message;
use casper_x402::uint::U256;

const TOKEN_NAME: &str = "X402Token";
const TOKEN_SYMBOL: &str = "X402";
const TOKEN_DECIMALS: u8 = 6;
const INITIAL_SUPPLY: u64 = 10_000_000;
const BLOCK_TIME_MS: u64 = 1_000_000_000_000;

struct TestSetup {
    contract: Cep18X402,
    secret: SecretKey,
    public: CasperPublicKey,
    sender: Address,
    recipient: Address,
}

fn setup() -> TestSetup {
    let secret = SecretKey::ed25519_from_bytes([7u8; 32]).unwrap();
    let public = CasperPublicKey::from(&secret);
    let sender = Address::Account(AccountHash::from(&public).value());
    let recipient = Address::Account([42u8; 32]);
    let contract = Cep18X402::init(
        sender,
        TOKEN_SYMBOL.to_string(),
        TOKEN_NAME.to_string(),
        TOKEN_DECIMALS,
        U256::from_u64(INITIAL_SUPPLY),
    );
    TestSetup { contract, secret, public, sender, recipient }
}

fn make_nonce() -> Vec<u8> {
    vec![
        1, 2, 3, 4, 5, 6, 7, 8, 9, 10, 11, 12, 13, 14, 15, 16, 17, 18, 19, 20, 21, 22, 23, 24, 25,
        26, 27, 28, 29, 30, 31, 32,
    ]
}

fn library_key(public: &CasperPublicKey) -> PublicKey {
    PublicKey::from_bytes(&public.to_bytes().unwrap()).unwrap()
}

fn sign(setup: &TestSetup, message: &[u8]) -> Vec<u8> {
    crypto::sign(message, &setup.secret, &setup.public).to_bytes().unwrap()
}

fn signed_message(
    setup: &TestSetup,
    to: &Address,
    amount: &U256,
    valid_after: u64,
    valid_before: u64,
    nonce: &[u8],
) -> Vec<u8> {
    let message = build_message(
        &setup.sender.value(),
        &to.value(),
        amount,
        valid_after,
        valid_before,
        nonce,
    );
    sign(setup, &message)
}

#[test]
fn transfer_with_authorization_succeeds() {
    let mut s = setup();
    let amount = U256::from_u64(1_000);
    let nonce = make_nonce();
    let (valid_after, valid_before) = (0u64, u64::MAX);
    let from = s.sender;
    let to = s.recipient;
    let signature = signed_message(&s, &to, &amount, valid_after, valid_before, &nonce);
    let key = library_key(&s.public);
    let initial_balance = s.contract.balance_of(&from);

    let result = s.contract.transfer_with_authorization(
        from,
        to,
        amount,
        valid_after,
        valid_before,
        nonce,
        &key,
        &signature,
        BLOCK_TIME_MS,
    );
    assert_eq!(result, Ok(()));
    assert_eq!(s.contract.balance_of(&from), initial_balance.checked_sub(&amount).unwrap());
    assert_eq!(s.contract.balance_of(&to), amount);
}

#[test]
fn replay_attack_fails() {
    let mut s = setup();
    let amount = U256::from_u64(100);
    let nonce = make_nonce();
    let (valid_after, valid_before) = (0u64, u64::MAX);
    let from = s.sender;
    let to = s.recipient;
    let signature = signed_message(&s, &to, &amount, valid_after, valid_before, &nonce);
    let key = library_key(&s.public);

    // First call succeeds
    let first = s.contract.transfer_with_authorization(
        from,
        to,
        amount,
        valid_after,
        valid_before,
        nonce.clone(),
        &key,
        &signature,
        BLOCK_TIME_MS,
    );
    assert_eq!(first, Ok(()));

    // Second call with same nonce must fail
    let result = s.contract.transfer_with_authorization(
        from,
        to,
        amount,
        valid_after,
        valid_before,
        nonce,
        &key,
        &signature,
        BLOCK_TIME_MS,
    );
    assert!(result.is_err());
    assert_eq!(result, Err(Revert::X402(Error::NonceAlreadyUsed)));
}

#[test]
fn expired_authorization_fails() {
    let mut s = setup();
    let amount = U256::from_u64(100);
    let nonce = make_nonce();
    let (valid_after, valid_before) = (0u64, 0u64); // already expired
    let from = s.sender;
    let to = s.recipient;
    let signature = signed_message(&s, &to, &amount, valid_after, valid_before, &nonce);
    let key = library_key(&s.public);

    let result = s.contract.transfer_with_authorization(
        from,
        to,
        amount,
        valid_after,
        valid_before,
        nonce,
        &key,
        &signature,
        BLOCK_TIME_MS,
    );
    assert!(result.is_err());
    assert_eq!(result, Err(Revert::X402(Error::AuthorizationExpired)));
}

#[test]
fn wrong_signature_fails() {
    let mut s = setup();
    let amount = U256::from_u64(100);
    let nonce = make_nonce();
    let (valid_after, valid_before) = (0u64, u64::MAX);
    let from = s.sender;
    let to = s.recipient;
    // Sign a different message to get a wrong signature
    let bad_signature = sign(&s, b"this is not the right message");
    let key = library_key(&s.public);

    let result = s.contract.transfer_with_authorization(
        from,
        to,
        amount,
        valid_after,
        valid_before,
        nonce,
        &key,
        &bad_signature,
        BLOCK_TIME_MS,
    );
    assert!(result.is_err());
    assert_eq!(result, Err(Revert::X402(Error::InvalidSignature)));
}

#[test]
fn not_yet_valid_authorization_fails() {
    let mut s = setup();
    let amount = U256::from_u64(100);
    let nonce = make_nonce();
    // block time is 10^9 seconds; valid_after equal to it is still too early
    let (valid_after, valid_before) = (1_000_000_000u64, u64::MAX);
    let (from, to) = (s.sender, s.recipient);
    let signature = signed_message(&s, &to, &amount, valid_after, valid_before, &nonce);
    let key = library_key(&s.public);
    let result = s.contract.transfer_with_authorization(
        from, to, amount, valid_after, valid_before, nonce, &key, &signature, BLOCK_TIME_MS,
    );
    assert_eq!(result, Err(Revert::X402(Error::AuthorizationNotYetValid)));
    assert_eq!(s.contract.balance_of(&from), U256::from_u64(INITIAL_SUPPLY));
}

#[test]
fn key_of_another_account_fails() {
    let mut s = setup();
    let amount = U256::from_u64(100);
    let nonce = make_nonce();
    let (valid_after, valid_before) = (0u64, u64::MAX);
    let to = s.recipient;
    // authorization claims to come from the recipient, but is signed with the sender's key
    let message = build_message(&to.value(), &to.value(), &amount, valid_after, valid_before, &nonce);
    let signature = sign(&s, &message);
    let key = library_key(&s.public);
    let result = s.contract.transfer_with_authorization(
        to, to, amount, valid_after, valid_before, nonce, &key, &signature, BLOCK_TIME_MS,
    );
    assert_eq!(result, Err(Revert::X402(Error::InvalidPublicKey)));
}

#[test]
fn malformed_signature_fails() {
    let mut s = setup();
    let amount = U256::from_u64(100);
    let (from, to) = (s.sender, s.recipient);
    let key = library_key(&s.public);
    let result = s.contract.transfer_with_authorization(
        from, to, amount, 0, u64::MAX, make_nonce(), &key, &[9u8, 1, 2], BLOCK_TIME_MS,
    );
    assert_eq!(result, Err(Revert::CouldNotDeserializeSignature));
}

#[test]
fn amount_above_balance_fails() {
    let mut s = setup();
    let amount = U256::from_u64(INITIAL_SUPPLY + 1);
    let nonce = make_nonce();
    let (from, to) = (s.sender, s.recipient);
    let signature = signed_message(&s, &to, &amount, 0, u64::MAX, &nonce);
    let key = library_key(&s.public);
    let result = s.contract.transfer_with_authorization(
        from, to, amount, 0, u64::MAX, nonce.clone(), &key, &signature, BLOCK_TIME_MS,
    );
    assert_eq!(result, Err(Revert::InsufficientBalance));
    // the nonce stays free after a reverted call
    assert!(!s.contract.is_nonce_used(&from, &nonce));
}

#[test]
fn init_mints_to_caller_and_emits_event() {
    let s = setup();
    assert_eq!(s.contract.total_supply(), U256::from_u64(INITIAL_SUPPLY));
    assert_eq!(s.contract.balance_of(&s.sender), U256::from_u64(INITIAL_SUPPLY));
    assert_eq!(s.contract.balance_of(&s.recipient), U256::zero());
    assert_eq!(s.contract.name(), TOKEN_NAME);
    assert_eq!(s.contract.symbol(), TOKEN_SYMBOL);
    assert_eq!(s.contract.decimals(), TOKEN_DECIMALS);
    assert_eq!(Error::NonceAlreadyUsed.code(), 1);
    assert_eq!(Error::Debug.code(), 999);
}

#[test]
fn successful_transfer_emits_event_and_uses_nonce() {
    let mut s = setup();
    let amount = U256::from_u64(5);
    let nonce = vec![1u8, 2, 3];
    let (from, to) = (s.sender, s.recipient);
    let signature = signed_message(&s, &to, &amount, 10, u64::MAX, &nonce);
    let key = library_key(&s.public);
    let result = s.contract.transfer_with_authorization(
        from, to, amount, 10, u64::MAX, nonce.clone(), &key, &signature, BLOCK_TIME_MS,
    );
    assert_eq!(result, Ok(()));
    assert!(s.contract.is_nonce_used(&from, &nonce));
    match s.contract.emitted_events().last() {
        Some(Event::TransferWithAuthorization(e)) => {
            assert_eq!(e.from, from);
            assert_eq!(e.to, to);
            assert_eq!(e.amount, amount);
            assert_eq!(e.nonce, nonce);
        }
        _ => panic!("missing event"),
    }
}

#[test]
fn transfers_conserve_tokens() {
    let mut s = setup();
    let (from, to) = (s.sender, s.recipient);
    let key = library_key(&s.public);
    let third = Address::Account([9u8; 32]);
    for (i, amount) in [300u64, 0, 1].into_iter().enumerate() {
        let amount = U256::from_u64(amount);
        let nonce = vec![i as u8; 32];
        let signature = signed_message(&s, &to, &amount, 0, u64::MAX, &nonce);
        let result = s.contract.transfer_with_authorization(
            from, to, amount, 0, u64::MAX, nonce, &key, &signature, BLOCK_TIME_MS,
        );
        assert_eq!(result, Ok(()));
        let total = s
            .contract
            .balance_of(&from)
            .checked_add(&s.contract.balance_of(&to))
            .unwrap();
        assert_eq!(total, U256::from_u64(INITIAL_SUPPLY));
        assert_eq!(s.contract.balance_of(&third), U256::zero());
        assert_eq!(s.contract.total_supply(), U256::from_u64(INITIAL_SUPPLY));
    }
    assert_eq!(s.contract.balance_of(&to), U256::from_u64(301));
}

#[test]
fn transfer_to_oneself_changes_no_balance() {
    let mut s = setup();
    let from = s.sender;
    let amount = U256::from_u64(1_000);
    let nonce = make_nonce();
    let signature = signed_message(&s, &from, &amount, 0, u64::MAX, &nonce);
    let key = library_key(&s.public);
    let result = s.contract.transfer_with_authorization(
        from, from, amount, 0, u64::MAX, nonce.clone(), &key, &signature, BLOCK_TIME_MS,
    );
    assert_eq!(result, Ok(()));
    assert_eq!(s.contract.balance_of(&from), U256::from_u64(INITIAL_SUPPLY));
    assert!(s.contract.is_nonce_used(&from, &nonce));
}

#[test]
fn contract_payer_is_refused_as_key_holder() {
    let mut s = setup();
    let hash = s.sender.value();
    let from = Address::Contract(hash);
    let to = s.recipient;
    let amount = U256::from_u64(1);
    let nonce = make_nonce();
    let message = build_message(&hash, &to.value(), &amount, 0, u64::MAX, &nonce);
    let signature = sign(&s, &message);
    let key = library_key(&s.public);
    let result = s.contract.transfer_with_authorization(
        from, to, amount, 0, u64::MAX, nonce, &key, &signature, BLOCK_TIME_MS,
    );
    assert_eq!(result, Err(Revert::X402(Error::InvalidPublicKey)));
}

#[test]
fn replay_with_padded_nonce_fails() {
    let mut s = setup();
    let amount = U256::from_u64(100);
    let nonce = make_nonce();
    let (from, to) = (s.sender, s.recipient);
    let signature = signed_message(&s, &to, &amount, 0, u64::MAX, &nonce);
    let key = library_key(&s.public);
    let first = s.contract.transfer_with_authorization(
        from, to, amount, 0, u64::MAX, nonce.clone(), &key, &signature, BLOCK_TIME_MS,
    );
    assert_eq!(first, Ok(()));
    // A longer nonce is cut to the same 32 bytes, so the signature is the same.
    let mut longer = nonce.clone();
    longer.push(0xff);
    assert!(s.contract.is_nonce_used(&from, &longer));
    let second = s.contract.transfer_with_authorization(
        from, to, amount, 0, u64::MAX, longer, &key, &signature, BLOCK_TIME_MS,
    );
    assert_eq!(second, Err(Revert::X402(Error::NonceAlreadyUsed)));
    assert_eq!(s.contract.balance_of(&to), amount);
}

#[test]
fn short_nonce_and_its_zero_padding_are_one_nonce() {
    let mut s = setup();
    let amount = U256::from_u64(1);
    let (from, to) = (s.sender, s.recipient);
    let short = vec![5u8, 6];
    let signature = signed_message(&s, &to, &amount, 0, u64::MAX, &short);
    let key = library_key(&s.public);
    let first = s.contract.transfer_with_authorization(
        from, to, amount, 0, u64::MAX, short, &key, &signature, BLOCK_TIME_MS,
    );
    assert_eq!(first, Ok(()));
    let mut padded = vec![5u8, 6];
    padded.resize(32, 0);
    assert!(s.contract.is_nonce_used(&from, &padded));
    assert!(!s.contract.is_nonce_used(&to, &padded));
}

#[test]
fn cep18_transfer_and_events() {
    let mut s = setup();
    let (owner, other) = (s.sender, s.recipient);
    assert_eq!(
        s.contract.transfer(owner, owner, U256::from_u64(1)),
        Err(Revert::CannotTargetSelfUser)
    );
    assert_eq!(
        s.contract.transfer(other, owner, U256::from_u64(1)),
        Err(Revert::InsufficientBalance)
    );
    assert_eq!(s.contract.transfer(owner, other, U256::from_u64(70)), Ok(()));
    assert_eq!(s.contract.balance_of(&other), U256::from_u64(70));
    assert_eq!(s.contract.balance_of(&owner), U256::from_u64(INITIAL_SUPPLY - 70));
    match s.contract.emitted_events().last() {
        Some(Event::Transfer { sender, recipient, amount }) => {
            assert_eq!((*sender, *recipient, *amount), (owner, other, U256::from_u64(70)));
        }
        _ => panic!("missing event"),
    }
}

#[test]
fn cep18_allowances() {
    let mut s = setup();
    let (owner, spender) = (s.sender, s.recipient);
    let third = Address::Account([9u8; 32]);
    assert_eq!(s.contract.allowance(&owner, &spender), U256::zero());
    assert_eq!(
        s.contract.approve(owner, owner, U256::from_u64(5)),
        Err(Revert::CannotTargetSelfUser)
    );
    assert_eq!(s.contract.approve(owner, spender, U256::from_u64(50)), Ok(()));
    assert_eq!(s.contract.allowance(&owner, &spender), U256::from_u64(50));
    assert_eq!(s.contract.increase_allowance(owner, spender, U256::from_u64(10)), Ok(()));
    assert_eq!(s.contract.allowance(&owner, &spender), U256::from_u64(60));
    match s.contract.emitted_events().last() {
        Some(Event::IncreaseAllowance { allowance, inc_by, .. }) => {
            assert_eq!((*allowance, *inc_by), (U256::from_u64(50), U256::from_u64(10)));
        }
        _ => panic!("missing event"),
    }
    s.contract.decrease_allowance(owner, spender, U256::from_u64(100));
    assert_eq!(s.contract.allowance(&owner, &spender), U256::zero());
    assert_eq!(s.contract.increase_allowance(owner, spender, U256::max_value()), Ok(()));
    assert_eq!(s.contract.increase_allowance(owner, spender, U256::from_u64(1)), Ok(()));
    assert_eq!(s.contract.allowance(&owner, &spender), U256::max_value());
    s.contract.decrease_allowance(owner, spender, U256::max_value());
    assert_eq!(s.contract.approve(owner, spender, U256::from_u64(40)), Ok(()));

    // transfer_from spends the allowance.
    assert_eq!(
        s.contract.transfer_from(spender, owner, owner, U256::from_u64(1)),
        Err(Revert::CannotTargetSelfUser)
    );
    assert_eq!(s.contract.transfer_from(spender, owner, third, U256::zero()), Ok(()));
    assert_eq!(
        s.contract.transfer_from(spender, owner, third, U256::from_u64(41)),
        Err(Revert::InsufficientAllowance)
    );
    assert_eq!(s.contract.transfer_from(spender, owner, third, U256::from_u64(15)), Ok(()));
    assert_eq!(s.contract.allowance(&owner, &spender), U256::from_u64(25));
    assert_eq!(s.contract.balance_of(&third), U256::from_u64(15));
    match s.contract.emitted_events().last() {
        Some(Event::TransferFrom { spender: sp, owner: o, recipient, amount }) => {
            assert_eq!((*sp, *o, *recipient, *amount), (spender, owner, third, U256::from_u64(15)));
        }
        _ => panic!("missing event"),
    }
    // A spender whose owner lacks the balance is refused and nothing changes.
    assert_eq!(s.contract.approve(third, spender, U256::from_u64(100)), Ok(()));
    assert_eq!(
        s.contract.transfer_from(spender, third, owner, U256::from_u64(16)),
        Err(Revert::InsufficientBalance)
    );
    assert_eq!(s.contract.allowance(&third, &spender), U256::from_u64(100));
}

#[test]
fn used_nonce_survives_other_operations() {
    let mut s = setup();
    let amount = U256::from_u64(100);
    let nonce = make_nonce();
    let (from, to) = (s.sender, s.recipient);
    let signature = signed_message(&s, &to, &amount, 0, u64::MAX, &nonce);
    let key = library_key(&s.public);
    let first = s.contract.transfer_with_authorization(
        from, to, amount, 0, u64::MAX, nonce.clone(), &key, &signature, BLOCK_TIME_MS,
    );
    assert_eq!(first, Ok(()));
    assert!(s.contract.is_nonce_used(&from, &nonce));

    let other = Address::Account([9u8; 32]);
    assert_eq!(s.contract.approve(from, other, U256::from_u64(50)), Ok(()));
    assert_eq!(s.contract.increase_allowance(from, other, U256::from_u64(5)), Ok(()));
    s.contract.decrease_allowance(from, other, U256::from_u64(1));
    assert_eq!(s.contract.transfer(from, other, U256::from_u64(10)), Ok(()));
    assert_eq!(s.contract.transfer_from(other, from, to, U256::from_u64(20)), Ok(()));
    assert_eq!(s.contract.transfer(from, from, U256::from_u64(1)), Err(Revert::CannotTargetSelfUser));
    assert!(s.contract.is_nonce_used(&from, &nonce));

    let replay = s.contract.transfer_with_authorization(
        from, to, amount, 0, u64::MAX, nonce, &key, &signature, BLOCK_TIME_MS,
    );
    assert_eq!(replay, Err(Revert::X402(Error::NonceAlreadyUsed)));
}
