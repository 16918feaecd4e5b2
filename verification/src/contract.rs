//! The CEP-18 token extended with `transfer_with_authorization`: gasless transfers that
//! the payer authorizes off-chain by signing the pre-image of [`crate::message`].
use vstd::prelude::*;
use crate::bytes::{bytes32_eq, bytes_eq};
use crate::crypto::{
    PublicKey, SignatureCheck, public_key_account_hash, signature_parses, signature_verifies,
    verify_signature,
};
use crate::message::{build_message, pad_nonce, padded_nonce, preimage};
use crate::uint::{U256, lemma_u256_bound, u256_modulus};

verus! {

/// A Casper address: an account hash or a contract package hash.
#[derive(Clone, Copy, Debug, PartialEq, Eq)]
pub enum Address {
    Account([u8; 32]),
    Contract([u8; 32]),
}

impl Address {
    /// The 32 hash bytes.
    pub open spec fn hash(self) -> Seq<u8> {
        match self {
            Address::Account(h) => h@,
            Address::Contract(h) => h@,
        }
    }

    /// The 32 hash bytes.
    pub fn value(&self) -> (r: [u8; 32])
        ensures
            r@ == self.hash(),
    {
        match self {
            Address::Account(h) => *h,
            Address::Contract(h) => *h,
        }
    }

    /// Whether two addresses are the same.
    pub fn same_as(&self, other: &Address) -> (r: bool)
        ensures
            r == (*self == *other),
    {
        match (self, other) {
            (Address::Account(a), Address::Account(b)) => bytes32_eq(a, b),
            (Address::Contract(a), Address::Contract(b)) => bytes32_eq(a, b),
            _ => false,
        }
    }
}

/// Errors raised by the authorization checks.
#[derive(Clone, Copy, Debug, PartialEq, Eq)]
pub enum Error {
    NonceAlreadyUsed,
    AuthorizationExpired,
    AuthorizationNotYetValid,
    InvalidSignature,
    InvalidFromAddress,
    InvalidPublicKey,
    Debug,
}

impl Error {
    /// The numeric error code reported on chain.
    pub fn code(&self) -> (r: u16)
        ensures
            r == match *self {
                Error::NonceAlreadyUsed => 1u16,
                Error::AuthorizationExpired => 2,
                Error::AuthorizationNotYetValid => 3,
                Error::InvalidSignature => 4,
                Error::InvalidFromAddress => 5,
                Error::InvalidPublicKey => 6,
                Error::Debug => 999,
            },
    {
        match self {
            Error::NonceAlreadyUsed => 1,
            Error::AuthorizationExpired => 2,
            Error::AuthorizationNotYetValid => 3,
            Error::InvalidSignature => 4,
            Error::InvalidFromAddress => 5,
            Error::InvalidPublicKey => 6,
            Error::Debug => 999,
        }
    }
}

/// Why a call is reverted (and all its effects discarded).
#[derive(Clone, Copy, Debug, PartialEq, Eq)]
pub enum Revert {
    /// One of the authorization checks failed.
    X402(Error),
    /// The payer's balance is below the amount (CEP-18 error 60001).
    InsufficientBalance,
    /// The signature bytes do not deserialize (execution error 118).
    CouldNotDeserializeSignature,
    /// The spender's allowance is below the amount (CEP-18 error 60002).
    InsufficientAllowance,
    /// The owner and the other party of the call are the same (CEP-18 error 60003).
    CannotTargetSelfUser,
}

/// Event emitted by a successful authorized transfer.
#[derive(Clone, Debug)]
pub struct TransferWithAuthorization {
    pub from: Address,
    pub to: Address,
    pub amount: U256,
    pub nonce: Vec<u8>,
}

/// Events emitted by the contract.
#[derive(Clone, Debug)]
pub enum Event {
    /// Tokens created for `recipient` at initialization.
    Mint { recipient: Address, amount: U256 },
    /// An authorized transfer took place.
    TransferWithAuthorization(TransferWithAuthorization),
    /// `owner` set `spender`'s allowance to `allowance`.
    SetAllowance { owner: Address, spender: Address, allowance: U256 },
    /// `owner` raised `spender`'s allowance by `inc_by`; `allowance` is its value before.
    IncreaseAllowance { owner: Address, spender: Address, allowance: U256, inc_by: U256 },
    /// `owner` lowered `spender`'s allowance by `decr_by`; `allowance` is its value before.
    DecreaseAllowance { owner: Address, spender: Address, allowance: U256, decr_by: U256 },
    /// `sender` moved `amount` to `recipient`.
    Transfer { sender: Address, recipient: Address, amount: U256 },
    /// `spender` moved `amount` from `owner` to `recipient`.
    TransferFrom { spender: Address, owner: Address, recipient: Address, amount: U256 },
}

/// Allowance recorded for `spender` on `owner`'s tokens: the latest entry, or zero.
pub open spec fn allowance_in(log: Seq<(Address, Address, U256)>, owner: Address, spender: Address) -> nat
    decreases log.len(),
{
    if log.len() == 0 {
        0
    } else if log.last().0 == owner && log.last().1 == spender {
        log.last().2@
    } else {
        allowance_in(log.drop_last(), owner, spender)
    }
}

/// Balance recorded for `a` in a ledger: the latest entry for `a`, or zero.
pub open spec fn balance_in(log: Seq<(Address, U256)>, a: Address) -> nat
    decreases log.len(),
{
    if log.len() == 0 {
        0
    } else if log.last().0 == a {
        log.last().1@
    } else {
        balance_in(log.drop_last(), a)
    }
}

/// Whether no address has two entries in a ledger.
pub open spec fn keys_distinct(log: Seq<(Address, U256)>) -> bool {
    forall|i: int, j: int| 0 <= i < j < log.len() ==> log[i].0 != log[j].0
}

/// The sum of the balances in a ledger.
pub open spec fn total_in(log: Seq<(Address, U256)>) -> nat
    decreases log.len(),
{
    if log.len() == 0 {
        0
    } else {
        total_in(log.drop_last()) + log.last().1@
    }
}

proof fn lemma_balance_at(log: Seq<(Address, U256)>, i: int)
    requires
        keys_distinct(log),
        0 <= i < log.len(),
    ensures
        balance_in(log, log[i].0) == log[i].1@,
    decreases log.len(),
{
    if i < log.len() - 1 {
        assert(log.drop_last()[i] == log[i]);
        lemma_balance_at(log.drop_last(), i);
    }
}

proof fn lemma_balance_absent(log: Seq<(Address, U256)>, a: Address)
    requires
        forall|i: int| 0 <= i < log.len() ==> log[i].0 != a,
    ensures
        balance_in(log, a) == 0,
    decreases log.len(),
{
    if log.len() > 0 {
        lemma_balance_absent(log.drop_last(), a);
    }
}

proof fn lemma_balance_update(log: Seq<(Address, U256)>, i: int, v: U256, b: Address)
    requires
        keys_distinct(log),
        0 <= i < log.len(),
    ensures
        keys_distinct(log.update(i, (log[i].0, v))),
        balance_in(log.update(i, (log[i].0, v)), b) == (if b == log[i].0 {
            v@
        } else {
            balance_in(log, b)
        }),
        total_in(log.update(i, (log[i].0, v))) + log[i].1@ == total_in(log) + v@,
    decreases log.len(),
{
    let log2 = log.update(i, (log[i].0, v));
    if i == log.len() - 1 {
        assert(log2.drop_last() =~= log.drop_last());
    } else {
        let d = log.drop_last();
        assert(log2.drop_last() =~= d.update(i, (d[i].0, v)));
        lemma_balance_update(d, i, v, b);
        if b == log[i].0 {
            assert(log.last().0 != b);
        }
    }
}

proof fn lemma_balance_push(log: Seq<(Address, U256)>, a: Address, v: U256)
    requires
        keys_distinct(log),
        forall|i: int| 0 <= i < log.len() ==> log[i].0 != a,
    ensures
        keys_distinct(log.push((a, v))),
        total_in(log.push((a, v))) == total_in(log) + v@,
{
    assert(log.push((a, v)).drop_last() =~= log);
}

proof fn lemma_balances_within_total(log: Seq<(Address, U256)>, a: Address, b: Address)
    requires
        keys_distinct(log),
    ensures
        balance_in(log, a) <= total_in(log),
        a != b ==> balance_in(log, a) + balance_in(log, b) <= total_in(log),
    decreases log.len(),
{
    if log.len() > 0 {
        let d = log.drop_last();
        lemma_balances_within_total(d, a, b);
        if log.last().0 == a {
            lemma_balances_within_total(d, b, b);
        } else if log.last().0 == b {
            lemma_balances_within_total(d, a, a);
        }
    }
}

/// The token state.
pub struct Cep18X402 {
    name: String,
    symbol: String,
    decimals: u8,
    total_supply: U256,
    balances: Vec<(Address, U256)>,
    used_nonces: Vec<(Address, Vec<u8>)>,
    allowances: Vec<(Address, Address, U256)>,
    events: Vec<Event>,
}

/// The authorization checks of `transfer_with_authorization`, in order; the first that fails
/// decides the revert.
pub open spec fn authorization_checks(
    c: Cep18X402,
    from: Address,
    to: Address,
    amount: nat,
    valid_after: u64,
    valid_before: u64,
    nonce: Seq<u8>,
    public_key: Seq<u8>,
    signature: Seq<u8>,
    block_time_ms: u64,
) -> Result<(), Revert> {
    let now_secs = block_time_ms / 1000;
    if c.nonce_used(from, pad_nonce(nonce)) {
        Err(Revert::X402(Error::NonceAlreadyUsed))
    } else if now_secs <= valid_after {
        Err(Revert::X402(Error::AuthorizationNotYetValid))
    } else if now_secs >= valid_before {
        Err(Revert::X402(Error::AuthorizationExpired))
    } else if public_key_account_hash(public_key) != Some(from.hash()) || !(from is Account) {
        Err(Revert::X402(Error::InvalidPublicKey))
    } else if !signature_parses(signature) {
        Err(Revert::CouldNotDeserializeSignature)
    } else if !signature_verifies(
        preimage(from.hash(), to.hash(), amount, valid_after, valid_before, nonce),
        signature,
        public_key,
    ) {
        Err(Revert::X402(Error::InvalidSignature))
    } else {
        Ok(())
    }
}

/// Whether the token can move `amount` from `from` to `to`.
pub open spec fn transfer_outcome(c: Cep18X402, from: Address, to: Address, amount: nat) -> Result<
    (),
    Revert,
> {
    if amount > c.balance(from) {
        Err(Revert::InsufficientBalance)
    } else {
        Ok(())
    }
}

/// What `transfer_with_authorization` answers, given the state and its arguments.
pub open spec fn authorization_outcome(
    c: Cep18X402,
    from: Address,
    to: Address,
    amount: nat,
    valid_after: u64,
    valid_before: u64,
    nonce: Seq<u8>,
    public_key: Seq<u8>,
    signature: Seq<u8>,
    block_time_ms: u64,
) -> Result<(), Revert> {
    let checks = authorization_checks(
        c,
        from,
        to,
        amount,
        valid_after,
        valid_before,
        nonce,
        public_key,
        signature,
        block_time_ms,
    );
    if checks is Err {
        checks
    } else {
        transfer_outcome(c, from, to, amount)
    }
}

/// Balances after moving `amount` from `from` to `to`.
pub open spec fn moved_balance(c: Cep18X402, from: Address, to: Address, amount: nat, a: Address) -> nat {
    if from == to || (a != from && a != to) {
        c.balance(a)
    } else if a == from {
        (c.balance(a) - amount) as nat
    } else {
        c.balance(a) + amount
    }
}

impl Cep18X402 {
    /// The ledger holds one entry per address, and the balances sum to the total supply.
    pub closed spec fn wf(self) -> bool {
        keys_distinct(self.balances@) && total_in(self.balances@) == self.total_supply@
    }

    /// The allowance of `spender` on `owner`'s tokens.
    pub closed spec fn spec_allowance(self, owner: Address, spender: Address) -> nat {
        allowance_in(self.allowances@, owner, spender)
    }

    /// The metadata, supply and used nonces are those of `other`.
    pub closed spec fn same_settings(self, other: Cep18X402) -> bool {
        &&& self.name == other.name
        &&& self.symbol == other.symbol
        &&& self.decimals == other.decimals
        &&& self.total_supply == other.total_supply
        &&& self.used_nonces == other.used_nonces
    }

    /// The sum of all balances.
    pub closed spec fn total_balance(self) -> nat {
        total_in(self.balances@)
    }

    /// Balance of `a`.
    pub closed spec fn balance(self, a: Address) -> nat {
        balance_in(self.balances@, a)
    }

    /// Whether `nonce` was already used by `owner`.
    pub closed spec fn nonce_used(self, owner: Address, nonce: Seq<u8>) -> bool {
        exists|i: int|
            0 <= i < self.used_nonces@.len() && #[trigger] self.used_nonces@[i].0 == owner
                && self.used_nonces@[i].1@ == nonce
    }

    /// Emitted events, oldest first.
    pub closed spec fn events(self) -> Seq<Event> {
        self.events@
    }

    pub closed spec fn spec_total_supply(self) -> nat {
        self.total_supply@
    }

    pub closed spec fn spec_name(self) -> Seq<char> {
        self.name@
    }

    pub closed spec fn spec_symbol(self) -> Seq<char> {
        self.symbol@
    }

    pub closed spec fn spec_decimals(self) -> u8 {
        self.decimals
    }

    /// Creates the token: metadata, the initial supply, all of it owned by `caller`.
    pub fn init(caller: Address, symbol: String, name: String, decimals: u8, initial_supply: U256) -> (c:
        Cep18X402)
        ensures
            c.wf(),
            c.spec_symbol() == symbol@,
            c.spec_name() == name@,
            c.spec_decimals() == decimals,
            c.spec_total_supply() == initial_supply@,
            c.balance(caller) == initial_supply@,
            forall|a: Address| a != caller ==> c.balance(a) == 0,
            forall|a: Address, n: Seq<u8>| !c.nonce_used(a, n),
            forall|o: Address, sp: Address| c.spec_allowance(o, sp) == 0,
            initial_supply@ == 0 ==> c.events().len() == 0,
            initial_supply@ != 0 ==> (c.events().len() == 1 && (c.events()[0] matches Event::Mint {
                recipient,
                amount,
            } && recipient == caller && amount@ == initial_supply@)),
    {
        let mut balances: Vec<(Address, U256)> = Vec::new();
        let mut events: Vec<Event> = Vec::new();
        if !initial_supply.is_zero() {
            balances.push((caller, initial_supply));
            events.push(Event::Mint { recipient: caller, amount: initial_supply });
        }
        let c = Cep18X402 {
            name,
            symbol,
            decimals,
            total_supply: initial_supply,
            balances,
            used_nonces: Vec::new(),
            allowances: Vec::new(),
            events,
        };
        proof {
            assert forall|a: Address| a != caller implies c.balance(a) == 0 by {
                if c.balances@.len() > 0 {
                    assert(c.balances@.drop_last().len() == 0);
                    assert(balance_in(c.balances@.drop_last(), a) == 0);
                }
            }
            if c.balances@.len() > 0 {
                assert(c.balances@.drop_last().len() == 0);
                assert(total_in(c.balances@.drop_last()) == 0);
            }
        }
        c
    }

    /// Emitted events, oldest first.
    pub fn emitted_events(&self) -> (r: &[Event])
        ensures
            r@ == self.events(),
    {
        self.events.as_slice()
    }

    /// Name of the token.
    pub fn name(&self) -> (r: String)
        ensures
            r@ == self.spec_name(),
    {
        self.name.clone()
    }

    /// Symbol of the token.
    pub fn symbol(&self) -> (r: String)
        ensures
            r@ == self.spec_symbol(),
    {
        self.symbol.clone()
    }

    /// Number of decimals.
    pub fn decimals(&self) -> (r: u8)
        ensures
            r == self.spec_decimals(),
    {
        self.decimals
    }

    /// Total supply.
    pub fn total_supply(&self) -> (r: U256)
        ensures
            r@ == self.spec_total_supply(),
    {
        self.total_supply
    }

    /// Balance of `address`.
    pub fn balance_of(&self, address: &Address) -> (r: U256)
        ensures
            r@ == self.balance(*address),
    {
        let mut i: usize = self.balances.len();
        assert(self.balances@.take(i as int) =~= self.balances@);
        while i > 0
            invariant
                i <= self.balances@.len(),
                balance_in(self.balances@, *address) == balance_in(
                    self.balances@.take(i as int),
                    *address,
                ),
            decreases i,
        {
            let entry = &self.balances[i - 1];
            assert(self.balances@.take(i as int).last() == self.balances@[i - 1]);
            if entry.0.same_as(address) {
                return entry.1;
            }
            assert(self.balances@.take(i as int).drop_last() =~= self.balances@.take(i - 1));
            i = i - 1;
        }
        U256::zero()
    }

    /// Whether `owner` already used `nonce` in the form it is signed in (cut or zero-padded
    /// to 32 bytes), so that nonces signing the same pre-image count as one.
    pub fn is_nonce_used(&self, owner: &Address, nonce: &[u8]) -> (r: bool)
        ensures
            r == self.nonce_used(*owner, pad_nonce(nonce@)),
    {
        let signed = padded_nonce(nonce);
        let mut i: usize = 0;
        while i < self.used_nonces.len()
            invariant
                i <= self.used_nonces@.len(),
                signed@ == pad_nonce(nonce@),
                forall|k: int|
                    0 <= k < i ==> !(#[trigger] self.used_nonces@[k].0 == *owner
                        && self.used_nonces@[k].1@ == signed@),
            decreases self.used_nonces@.len() - i,
        {
            let entry = &self.used_nonces[i];
            if entry.0.same_as(owner) && bytes_eq(entry.1.as_slice(), signed.as_slice()) {
                assert(self.used_nonces@[i as int].0 == *owner && self.used_nonces@[i as int].1@
                    == pad_nonce(nonce@));
                return true;
            }
            i = i + 1;
        }
        false
    }

    fn set_balance(&mut self, a: Address, v: U256)
        requires
            keys_distinct(old(self).balances@),
        ensures
            keys_distinct(final(self).balances@),
            final(self).balance(a) == v@,
            forall|b: Address| b != a ==> final(self).balance(b) == old(self).balance(b),
            total_in(final(self).balances@) + old(self).balance(a) == total_in(old(self).balances@)
                + v@,
            final(self).used_nonces == old(self).used_nonces,
            final(self).allowances == old(self).allowances,
            final(self).events == old(self).events,
            final(self).name == old(self).name,
            final(self).symbol == old(self).symbol,
            final(self).decimals == old(self).decimals,
            final(self).total_supply == old(self).total_supply,
    {
        let mut i: usize = 0;
        while i < self.balances.len()
            invariant
                i <= self.balances@.len(),
                *self == *old(self),
                keys_distinct(old(self).balances@),
                forall|k: int| 0 <= k < i ==> self.balances@[k].0 != a,
            decreases self.balances@.len() - i,
        {
            if self.balances[i].0.same_as(&a) {
                proof {
                    lemma_balance_at(self.balances@, i as int);
                    assert forall|b: Address| true implies #[trigger] balance_in(
                        self.balances@.update(i as int, (a, v)),
                        b,
                    ) == (if b == a {
                        v@
                    } else {
                        balance_in(self.balances@, b)
                    }) by {
                        lemma_balance_update(self.balances@, i as int, v, b);
                    }
                    lemma_balance_update(self.balances@, i as int, v, a);
                }
                self.balances.set(i, (a, v));
                return;
            }
            i = i + 1;
        }
        proof {
            lemma_balance_absent(self.balances@, a);
            lemma_balance_push(self.balances@, a, v);
        }
        self.balances.push((a, v));
        proof {
            assert(self.balances@.drop_last() =~= old(self).balances@);
        }
    }

    fn check_authorization(
        &self,
        from: &Address,
        to: &Address,
        amount: &U256,
        valid_after: u64,
        valid_before: u64,
        nonce: &[u8],
        public_key: &PublicKey,
        signature: &[u8],
        block_time_ms: u64,
    ) -> (r: Result<(), Revert>)
        ensures
            r == authorization_checks(
                *self,
                *from,
                *to,
                amount@,
                valid_after,
                valid_before,
                nonce@,
                public_key.view(),
                signature@,
                block_time_ms,
            ),
    {
        // Replay protection
        if self.is_nonce_used(from, nonce) {
            return Err(Revert::X402(Error::NonceAlreadyUsed));
        }
        // The block time is in milliseconds
        let now_secs = block_time_ms / 1000;
        // Validity window
        if now_secs <= valid_after {
            return Err(Revert::X402(Error::AuthorizationNotYetValid));
        }
        if now_secs >= valid_before {
            return Err(Revert::X402(Error::AuthorizationExpired));
        }
        // The public key must be the payer's
        let h = public_key.account_hash();
        let derived = Address::Account(h);
        if !derived.same_as(from) {
            proof {
                if let Address::Account(f) = *from {
                    if h@ == f@ {
                        assert(h =~= f);
                    }
                }
            }
            return Err(Revert::X402(Error::InvalidPublicKey));
        }
        // The signature must cover the pre-image
        let from_hash = from.value();
        let to_hash = to.value();
        let message = build_message(&from_hash, &to_hash, amount, valid_after, valid_before, nonce);
        match verify_signature(message.as_slice(), signature, public_key) {
            SignatureCheck::Malformed(_) => Err(Revert::CouldNotDeserializeSignature),
            SignatureCheck::Invalid(_) => Err(Revert::X402(Error::InvalidSignature)),
            SignatureCheck::Valid => Ok(()),
        }
    }

    /// Moves `amount` from `from` to `to`.
    fn raw_transfer(&mut self, from: &Address, to: &Address, amount: &U256) -> (r: Result<(), Revert>)
        requires
            old(self).wf(),
        ensures
            final(self).wf(),
            r == transfer_outcome(*old(self), *from, *to, amount@),
            r is Err ==> *final(self) == *old(self),
            r is Ok ==> forall|a: Address| final(self).balance(a) == moved_balance(*old(self), *from, *to, amount@, a),
            final(self).used_nonces == old(self).used_nonces,
            final(self).allowances == old(self).allowances,
            final(self).events == old(self).events,
            final(self).name == old(self).name,
            final(self).symbol == old(self).symbol,
            final(self).decimals == old(self).decimals,
            final(self).total_supply == old(self).total_supply,
    {
        let from_balance = self.balance_of(from);
        if from_balance.lt(amount) {
            return Err(Revert::InsufficientBalance);
        }
        if !amount.is_zero() && !from.same_as(to) {
            let to_balance = self.balance_of(to);
            proof {
                // The balances sum to the supply, so the payee's balance cannot overflow.
                lemma_balances_within_total(self.balances@, *from, *to);
                lemma_u256_bound(self.total_supply);
            }
            let new_to = match to_balance.checked_add(amount) {
                Some(v) => v,
                None => {
                    proof {
                        assert(false);
                    }
                    return Err(Revert::InsufficientBalance);
                },
            };
            let new_from = match from_balance.checked_sub(amount) {
                Some(v) => v,
                None => {
                    return Err(Revert::InsufficientBalance);
                },
            };
            self.set_balance(*from, new_from);
            self.set_balance(*to, new_to);
        }
        Ok(())
    }

    /// Records that `owner` used `nonce`.
    fn mark_nonce_used(&mut self, owner: Address, nonce: &[u8])
        ensures
            forall|a: Address, n: Seq<u8>|
                final(self).nonce_used(a, n) <==> (old(self).nonce_used(a, n) || (a == owner && n
                    == pad_nonce(nonce@))),
            forall|a: Address| final(self).balance(a) == old(self).balance(a),
            final(self).balances == old(self).balances,
            final(self).allowances == old(self).allowances,
            final(self).events == old(self).events,
            final(self).name == old(self).name,
            final(self).symbol == old(self).symbol,
            final(self).decimals == old(self).decimals,
            final(self).total_supply == old(self).total_supply,
    {
        self.used_nonces.push((owner, padded_nonce(nonce)));
        proof {
            assert forall|a: Address, n: Seq<u8>|
                self.nonce_used(a, n) <==> (old(self).nonce_used(a, n) || (a == owner && n
                    == pad_nonce(nonce@))) by {
                if old(self).nonce_used(a, n) {
                    let i = choose|i: int|
                        0 <= i < old(self).used_nonces@.len() && #[trigger] old(
                            self,
                        ).used_nonces@[i].0 == a && old(self).used_nonces@[i].1@ == n;
                    assert(self.used_nonces@[i] == old(self).used_nonces@[i]);
                }
                if a == owner && n == pad_nonce(nonce@) {
                    let last = (self.used_nonces@.len() - 1) as int;
                    assert(self.used_nonces@[last].0 == a);
                }
                if self.nonce_used(a, n) {
                    let i = choose|i: int|
                        0 <= i < self.used_nonces@.len() && #[trigger] self.used_nonces@[i].0 == a
                            && self.used_nonces@[i].1@ == n;
                    if i < old(self).used_nonces@.len() {
                        assert(old(self).used_nonces@[i] == self.used_nonces@[i]);
                    }
                }
            }
        }
    }

    /// Transfers `amount` from `from` to `to` on the strength of `signature`, a signature by
    /// `public_key` over the pre-image of the transfer. `block_time_ms` is the block time in
    /// milliseconds. A reverted call changes nothing.
    pub fn transfer_with_authorization(
        &mut self,
        from: Address,
        to: Address,
        amount: U256,
        valid_after: u64,
        valid_before: u64,
        nonce: Vec<u8>,
        public_key: &PublicKey,
        signature: &[u8],
        block_time_ms: u64,
    ) -> (r: Result<(), Revert>)
        requires
            old(self).wf(),
        ensures
            final(self).wf(),
            keeps_used_nonces(*old(self), *final(self)),
            r is Ok && from != to ==> final(self).balance(from) == old(self).balance(from) - amount@
                && final(self).balance(to) == old(self).balance(to) + amount@ && forall|a: Address|
                a != from && a != to ==> #[trigger] final(self).balance(a) == old(self).balance(a),
            r == authorization_outcome(
                *old(self),
                from,
                to,
                amount@,
                valid_after,
                valid_before,
                nonce@,
                public_key.view(),
                signature@,
                block_time_ms,
            ),
            r is Err ==> *final(self) == *old(self),
            r is Ok ==> {
                &&& forall|a: Address, n: Seq<u8>|
                    final(self).nonce_used(a, n) <==> (old(self).nonce_used(a, n) || (a == from
                        && n == pad_nonce(nonce@)))
                &&& forall|a: Address|
                    final(self).balance(a) == moved_balance(*old(self), from, to, amount@, a)
                &&& forall|o: Address, sp: Address|
                    final(self).spec_allowance(o, sp) == old(self).spec_allowance(o, sp)
                &&& final(self).spec_total_supply() == old(self).spec_total_supply()
                &&& final(self).spec_name() == old(self).spec_name()
                &&& final(self).spec_symbol() == old(self).spec_symbol()
                &&& final(self).spec_decimals() == old(self).spec_decimals()
                &&& final(self).events().len() == old(self).events().len() + 1
                &&& final(self).events().drop_last() == old(self).events()
                &&& (final(self).events().last() matches Event::TransferWithAuthorization(e) && e.from
                    == from && e.to == to && e.amount@ == amount@ && e.nonce@ == nonce@)
            },
    {
        self.check_authorization(
            &from,
            &to,
            &amount,
            valid_after,
            valid_before,
            nonce.as_slice(),
            public_key,
            signature,
            block_time_ms,
        )?;
        let ghost checked = *self;
        assert(checked == *old(self));
        self.raw_transfer(&from, &to, &amount)?;
        let ghost after_transfer = *self;
        proof {
            assert forall|a: Address, n: Seq<u8>|
                after_transfer.nonce_used(a, n) == old(self).nonce_used(a, n) by {}
        }
        self.mark_nonce_used(from, nonce.as_slice());
        let ghost mid = *self;
        let ghost nonce_view = nonce@;
        self.events.push(
            Event::TransferWithAuthorization(
                TransferWithAuthorization { from, to, amount, nonce },
            ),
        );
        proof {
            assert(self.used_nonces == mid.used_nonces);
            assert(self.balances == mid.balances);
            assert forall|a: Address, n: Seq<u8>|
                self.nonce_used(a, n) <==> (old(self).nonce_used(a, n) || (a == from && n
                    == pad_nonce(nonce_view))) by {
                assert(self.nonce_used(a, n) == mid.nonce_used(a, n));
                assert(after_transfer.nonce_used(a, n) == old(self).nonce_used(a, n));
            }
            assert forall|a: Address|
                self.balance(a) == moved_balance(*old(self), from, to, amount@, a) by {
                assert(self.balance(a) == mid.balance(a));
                assert(mid.balance(a) == after_transfer.balance(a));
            }
            assert(self.events@.drop_last() =~= mid.events@);
            assert(self.events@.last() matches Event::TransferWithAuthorization(e) && e.nonce@ == nonce_view);
        }
        Ok(())
    }

    fn set_allowance(&mut self, owner: Address, spender: Address, amount: U256)
        ensures
            forall|o: Address, sp: Address|
                final(self).spec_allowance(o, sp) == (if o == owner && sp == spender {
                    amount@
                } else {
                    old(self).spec_allowance(o, sp)
                }),
            final(self).balances == old(self).balances,
            final(self).used_nonces == old(self).used_nonces,
            final(self).events == old(self).events,
            final(self).name == old(self).name,
            final(self).symbol == old(self).symbol,
            final(self).decimals == old(self).decimals,
            final(self).total_supply == old(self).total_supply,
    {
        self.allowances.push((owner, spender, amount));
        proof {
            assert(self.allowances@.drop_last() =~= old(self).allowances@);
        }
    }

    /// The allowance of `spender` on `owner`'s tokens.
    pub fn allowance(&self, owner: &Address, spender: &Address) -> (r: U256)
        ensures
            r@ == self.spec_allowance(*owner, *spender),
    {
        let mut i: usize = self.allowances.len();
        assert(self.allowances@.take(i as int) =~= self.allowances@);
        while i > 0
            invariant
                i <= self.allowances@.len(),
                allowance_in(self.allowances@, *owner, *spender) == allowance_in(
                    self.allowances@.take(i as int),
                    *owner,
                    *spender,
                ),
            decreases i,
        {
            let entry = &self.allowances[i - 1];
            assert(self.allowances@.take(i as int).last() == self.allowances@[i - 1]);
            if entry.0.same_as(owner) && entry.1.same_as(spender) {
                return entry.2;
            }
            assert(self.allowances@.take(i as int).drop_last() =~= self.allowances@.take(i - 1));
            i = i - 1;
        }
        U256::zero()
    }

    /// `caller` lets `spender` spend `amount` of its tokens; refused when they are the same.
    pub fn approve(&mut self, caller: Address, spender: Address, amount: U256) -> (r: Result<(), Revert>)
        requires
            old(self).wf(),
        ensures
            final(self).wf(),
            keeps_used_nonces(*old(self), *final(self)),
            caller == spender <==> r == Err::<(), Revert>(Revert::CannotTargetSelfUser),
            r is Err ==> *final(self) == *old(self),
            r is Ok ==> {
                &&& forall|o: Address, sp: Address|
                    final(self).spec_allowance(o, sp) == (if o == caller && sp == spender {
                        amount@
                    } else {
                        old(self).spec_allowance(o, sp)
                    })
                &&& forall|a: Address| final(self).balance(a) == old(self).balance(a)
                &&& final(self).same_settings(*old(self))
                &&& final(self).events() == old(self).events().push(
                    Event::SetAllowance { owner: caller, spender, allowance: amount },
                )
            },
    {
        if caller.same_as(&spender) {
            return Err(Revert::CannotTargetSelfUser);
        }
        self.events.push(Event::SetAllowance { owner: caller, spender, allowance: amount });
        self.set_allowance(caller, spender, amount);
        Ok(())
    }

    /// `caller` raises `spender`'s allowance by `inc_by`, up to `2^256 - 1`; refused when
    /// they are the same.
    pub fn increase_allowance(&mut self, caller: Address, spender: Address, inc_by: U256) -> (r:
        Result<(), Revert>)
        requires
            old(self).wf(),
        ensures
            final(self).wf(),
            keeps_used_nonces(*old(self), *final(self)),
            caller == spender <==> r == Err::<(), Revert>(Revert::CannotTargetSelfUser),
            r is Err ==> *final(self) == *old(self),
            r is Ok ==> {
                let before = old(self).spec_allowance(caller, spender);
                &&& forall|o: Address, sp: Address|
                    final(self).spec_allowance(o, sp) == (if o == caller && sp == spender {
                        if before + inc_by@ < u256_modulus() {
                            before + inc_by@
                        } else {
                            (u256_modulus() - 1) as nat
                        }
                    } else {
                        old(self).spec_allowance(o, sp)
                    })
                &&& forall|a: Address| final(self).balance(a) == old(self).balance(a)
                &&& final(self).same_settings(*old(self))
                &&& final(self).events().drop_last() == old(self).events()
                &&& final(self).events().last() matches Event::IncreaseAllowance {
                    owner,
                    spender: sp,
                    allowance,
                    inc_by: by,
                } && owner == caller && sp == spender && allowance@ == before && by == inc_by
            },
    {
        if caller.same_as(&spender) {
            return Err(Revert::CannotTargetSelfUser);
        }
        let before = self.allowance(&caller, &spender);
        let after = before.saturating_add(&inc_by);
        self.events.push(
            Event::IncreaseAllowance { owner: caller, spender, allowance: before, inc_by },
        );
        self.set_allowance(caller, spender, after);
        proof {
            assert(self.events@.drop_last() =~= old(self).events@);
        }
        Ok(())
    }

    /// `caller` lowers `spender`'s allowance by `decr_by`, down to zero.
    pub fn decrease_allowance(&mut self, caller: Address, spender: Address, decr_by: U256)
        requires
            old(self).wf(),
        ensures
            final(self).wf(),
            keeps_used_nonces(*old(self), *final(self)),
            ({
                let before = old(self).spec_allowance(caller, spender);
                &&& forall|o: Address, sp: Address|
                    final(self).spec_allowance(o, sp) == (if o == caller && sp == spender {
                        if before >= decr_by@ {
                            (before - decr_by@) as nat
                        } else {
                            0
                        }
                    } else {
                        old(self).spec_allowance(o, sp)
                    })
                &&& forall|a: Address| final(self).balance(a) == old(self).balance(a)
                &&& final(self).same_settings(*old(self))
                &&& final(self).events().drop_last() == old(self).events()
                &&& final(self).events().last() matches Event::DecreaseAllowance {
                    owner,
                    spender: sp,
                    allowance,
                    decr_by: by,
                } && owner == caller && sp == spender && allowance@ == before && by == decr_by
            }),
    {
        let before = self.allowance(&caller, &spender);
        let after = before.saturating_sub(&decr_by);
        self.events.push(
            Event::DecreaseAllowance { owner: caller, spender, allowance: before, decr_by },
        );
        self.set_allowance(caller, spender, after);
        proof {
            assert(self.events@.drop_last() =~= old(self).events@);
        }
    }

    /// `caller` moves `amount` of its tokens to `recipient`; refused when they are the same or
    /// the balance is short.
    pub fn transfer(&mut self, caller: Address, recipient: Address, amount: U256) -> (r: Result<
        (),
        Revert,
    >)
        requires
            old(self).wf(),
        ensures
            final(self).wf(),
            keeps_used_nonces(*old(self), *final(self)),
            r is Ok && caller != recipient ==> final(self).balance(caller) == old(self).balance(caller) - amount@
                && final(self).balance(recipient) == old(self).balance(recipient) + amount@ && forall|a: Address|
                a != caller && a != recipient ==> #[trigger] final(self).balance(a) == old(self).balance(a),
            r == (if caller == recipient {
                Err(Revert::CannotTargetSelfUser)
            } else {
                transfer_outcome(*old(self), caller, recipient, amount@)
            }),
            caller != recipient ==> (r is Ok <==> amount@ <= old(self).balance(caller)),
            r is Err ==> *final(self) == *old(self),
            r is Ok ==> {
                &&& forall|a: Address|
                    final(self).balance(a) == moved_balance(*old(self), caller, recipient, amount@, a)
                &&& forall|o: Address, sp: Address|
                    final(self).spec_allowance(o, sp) == old(self).spec_allowance(o, sp)
                &&& final(self).same_settings(*old(self))
                &&& final(self).events() == old(self).events().push(
                    Event::Transfer { sender: caller, recipient, amount },
                )
            },
    {
        if caller.same_as(&recipient) {
            return Err(Revert::CannotTargetSelfUser);
        }
        let ghost before = *self;
        assert(before == *old(self));
        let moved_ok = self.raw_transfer(&caller, &recipient, &amount);
        if moved_ok.is_err() {
            return moved_ok;
        }
        let ghost moved = *self;
        self.events.push(Event::Transfer { sender: caller, recipient, amount });
        proof {
            assert(self.used_nonces == old(self).used_nonces);
            assert forall|a: Address| self.balance(a) == moved.balance(a) by {}
            assert forall|o: Address, sp: Address| self.spec_allowance(o, sp) == moved.spec_allowance(o, sp) by {}
            assert forall|a: Address|
                self.balance(a) == moved_balance(*old(self), caller, recipient, amount@, a) by {
                assert(self.balance(a) == moved.balance(a));
                assert(moved.balance(a) == moved_balance(before, caller, recipient, amount@, a));
            }
        }
        Ok(())
    }

    /// `caller` moves `amount` of `owner`'s tokens to `recipient`, spending its allowance;
    /// refused when `owner` and `recipient` are the same, the allowance or the balance is
    /// short. A zero amount does nothing.
    pub fn transfer_from(
        &mut self,
        caller: Address,
        owner: Address,
        recipient: Address,
        amount: U256,
    ) -> (r: Result<(), Revert>)
        requires
            old(self).wf(),
        ensures
            final(self).wf(),
            keeps_used_nonces(*old(self), *final(self)),
            r is Ok && owner != recipient ==> final(self).balance(owner) == old(self).balance(owner) - amount@
                && final(self).balance(recipient) == old(self).balance(recipient) + amount@ && forall|a: Address|
                a != owner && a != recipient ==> #[trigger] final(self).balance(a) == old(self).balance(a),
            r == (if owner == recipient {
                Err(Revert::CannotTargetSelfUser)
            } else if amount@ == 0 {
                Ok(())
            } else if old(self).spec_allowance(owner, caller) < amount@ {
                Err(Revert::InsufficientAllowance)
            } else {
                transfer_outcome(*old(self), owner, recipient, amount@)
            }),
            owner != recipient && amount@ != 0 && amount@ <= old(self).spec_allowance(owner, caller)
                ==> (r is Ok <==> amount@ <= old(self).balance(owner)),
            r is Err || amount@ == 0 ==> *final(self) == *old(self),
            r is Ok && amount@ != 0 ==> {
                &&& forall|a: Address|
                    final(self).balance(a) == moved_balance(*old(self), owner, recipient, amount@, a)
                &&& forall|o: Address, sp: Address|
                    final(self).spec_allowance(o, sp) == (if o == owner && sp == caller {
                        (old(self).spec_allowance(o, sp) - amount@) as nat
                    } else {
                        old(self).spec_allowance(o, sp)
                    })
                &&& final(self).same_settings(*old(self))
                &&& final(self).events() == old(self).events().push(
                    Event::TransferFrom { spender: caller, owner, recipient, amount },
                )
            },
    {
        if owner.same_as(&recipient) {
            return Err(Revert::CannotTargetSelfUser);
        }
        if amount.is_zero() {
            return Ok(());
        }
        let allowance = self.allowance(&owner, &caller);
        let remaining = match allowance.checked_sub(&amount) {
            Some(v) => v,
            None => {
                return Err(Revert::InsufficientAllowance);
            },
        };
        let ghost before = *self;
        assert(before == *old(self));
        let moved_ok = self.raw_transfer(&owner, &recipient, &amount);
        if moved_ok.is_err() {
            return moved_ok;
        }
        let ghost moved = *self;
        self.events.push(Event::TransferFrom { spender: caller, owner, recipient, amount });
        self.set_allowance(owner, caller, remaining);
        proof {
            assert forall|a: Address|
                self.balance(a) == moved_balance(*old(self), owner, recipient, amount@, a) by {
                assert(self.balance(a) == moved.balance(a));
                assert(moved.balance(a) == moved_balance(before, owner, recipient, amount@, a));
            }
        }
        Ok(())
    }
}

/// Whether every nonce that `before` marks used is still marked used in `after`.
pub open spec fn keeps_used_nonces(before: Cep18X402, after: Cep18X402) -> bool {
    forall|a: Address, n: Seq<u8>| #[trigger] before.nonce_used(a, n) ==> after.nonce_used(a, n)
}

/// A used nonce stays used: every operation keeps the marks of the state before it, so over
/// any run of operations from `c1` to `c3` through `c2` they are kept, and a nonce used in
/// `c1` is still used in `c3`.
pub proof fn law_used_nonce_stays_used(
    c1: Cep18X402,
    c2: Cep18X402,
    c3: Cep18X402,
    owner: Address,
    nonce: Seq<u8>,
)
    requires
        keeps_used_nonces(c1, c2),
        keeps_used_nonces(c2, c3),
    ensures
        keeps_used_nonces(c1, c3),
        c1.nonce_used(owner, nonce) ==> c3.nonce_used(owner, nonce),
{
}

/// Replay protection: a signed pre-image authorizes at most one transfer. Once a transfer
/// from `from` with nonce `nonce1` went through, every later authorization of `from` whose
/// nonce signs the same way (the same nonce cut or zero-padded to 32 bytes) is refused with
/// `NonceAlreadyUsed`, whatever its other arguments and whenever it comes.
pub proof fn law_used_nonce_is_refused(
    c: Cep18X402,
    from: Address,
    nonce1: Seq<u8>,
    to: Address,
    amount: nat,
    valid_after: u64,
    valid_before: u64,
    nonce2: Seq<u8>,
    public_key: Seq<u8>,
    signature: Seq<u8>,
    block_time_ms: u64,
)
    requires
        c.nonce_used(from, pad_nonce(nonce1)),
        pad_nonce(nonce2) == pad_nonce(nonce1),
    ensures
        authorization_outcome(
            c,
            from,
            to,
            amount,
            valid_after,
            valid_before,
            nonce2,
            public_key,
            signature,
            block_time_ms,
        ) == Err::<(), Revert>(Revert::X402(Error::NonceAlreadyUsed)),
{
}

/// Replaying a signed message is refused: after a transfer with `nonce1` succeeded, another
/// transfer from the same payer whose pre-image is the same is refused with `NonceAlreadyUsed`.
pub proof fn law_replayed_message_is_refused(
    c: Cep18X402,
    from: Address,
    to1: Address,
    amount1: nat,
    valid_after1: u64,
    valid_before1: u64,
    nonce1: Seq<u8>,
    to2: Address,
    amount2: nat,
    valid_after2: u64,
    valid_before2: u64,
    nonce2: Seq<u8>,
    public_key: Seq<u8>,
    signature: Seq<u8>,
    block_time_ms: u64,
)
    requires
        c.nonce_used(from, pad_nonce(nonce1)),
        amount1 < u256_modulus(),
        amount2 < u256_modulus(),
        preimage(from.hash(), to2.hash(), amount2, valid_after2, valid_before2, nonce2) == preimage(
            from.hash(),
            to1.hash(),
            amount1,
            valid_after1,
            valid_before1,
            nonce1,
        ),
    ensures
        authorization_outcome(
            c,
            from,
            to2,
            amount2,
            valid_after2,
            valid_before2,
            nonce2,
            public_key,
            signature,
            block_time_ms,
        ) == Err::<(), Revert>(Revert::X402(Error::NonceAlreadyUsed)),
{
    crate::message::law_preimage_determines_transfer(
        from.hash(),
        to2.hash(),
        amount2,
        valid_after2,
        valid_before2,
        nonce2,
        from.hash(),
        to1.hash(),
        amount1,
        valid_after1,
        valid_before1,
        nonce1,
    );
}

/// An accepted transfer was authorized: its nonce was fresh, the block time (in seconds) lay
/// strictly inside the validity window, the public key is the payer's account key, the
/// signature verifies over the transfer's pre-image, and the payer held the amount.
pub proof fn law_accepted_transfer_is_authorized(
    c: Cep18X402,
    from: Address,
    to: Address,
    amount: nat,
    valid_after: u64,
    valid_before: u64,
    nonce: Seq<u8>,
    public_key: Seq<u8>,
    signature: Seq<u8>,
    block_time_ms: u64,
)
    requires
        authorization_outcome(
            c,
            from,
            to,
            amount,
            valid_after,
            valid_before,
            nonce,
            public_key,
            signature,
            block_time_ms,
        ) is Ok,
    ensures
        !c.nonce_used(from, pad_nonce(nonce)),
        valid_after < block_time_ms / 1000 < valid_before,
        from is Account,
        public_key_account_hash(public_key) == Some(from.hash()),
        signature_parses(signature),
        signature_verifies(
            preimage(from.hash(), to.hash(), amount, valid_after, valid_before, nonce),
            signature,
            public_key,
        ),
        amount <= c.balance(from),
{
}

/// An authorization that passes every check goes through: when the nonce is fresh, the block
/// time in seconds (`block_time_ms / 1000`) lies strictly inside the validity window, `from`
/// is an account whose key is `public_key`, the signature is well formed and verifies over the
/// transfer's pre-image, and `from` holds the amount, `transfer_with_authorization` succeeds.
pub proof fn law_valid_authorization_is_accepted(
    c: Cep18X402,
    from: Address,
    to: Address,
    amount: nat,
    valid_after: u64,
    valid_before: u64,
    nonce: Seq<u8>,
    public_key: Seq<u8>,
    signature: Seq<u8>,
    block_time_ms: u64,
)
    requires
        !c.nonce_used(from, pad_nonce(nonce)),
        valid_after < block_time_ms / 1000 < valid_before,
        from is Account,
        public_key_account_hash(public_key) == Some(from.hash()),
        signature_parses(signature),
        signature_verifies(
            preimage(from.hash(), to.hash(), amount, valid_after, valid_before, nonce),
            signature,
            public_key,
        ),
        amount <= c.balance(from),
    ensures
        authorization_outcome(
            c,
            from,
            to,
            amount,
            valid_after,
            valid_before,
            nonce,
            public_key,
            signature,
            block_time_ms,
        ) == Ok::<(), Revert>(()),
{
}

/// The validity window is read in seconds of block time: with a fresh nonce, an authorization
/// is refused as not yet valid exactly when `block_time_ms / 1000 <= valid_after`, and as
/// expired exactly when `valid_after < block_time_ms / 1000` and
/// `block_time_ms / 1000 >= valid_before`; a block time in seconds inside the window is
/// refused for neither.
pub proof fn law_window_is_in_seconds(
    c: Cep18X402,
    from: Address,
    to: Address,
    amount: nat,
    valid_after: u64,
    valid_before: u64,
    nonce: Seq<u8>,
    public_key: Seq<u8>,
    signature: Seq<u8>,
    block_time_ms: u64,
)
    requires
        !c.nonce_used(from, pad_nonce(nonce)),
    ensures
        ({
            let r = authorization_outcome(
                c,
                from,
                to,
                amount,
                valid_after,
                valid_before,
                nonce,
                public_key,
                signature,
                block_time_ms,
            );
            &&& (r == Err::<(), Revert>(Revert::X402(Error::AuthorizationNotYetValid)))
                <==> block_time_ms / 1000 <= valid_after
            &&& (r == Err::<(), Revert>(Revert::X402(Error::AuthorizationExpired))) <==> (
            valid_after < block_time_ms / 1000 && block_time_ms / 1000 >= valid_before)
        }),
{
}

/// A token transfer is decided by the payer's balance alone: moving `amount` from `from` to
/// `to` succeeds exactly when `from` holds at least `amount`, and otherwise is refused with
/// `InsufficientBalance`, whatever the other balances.
pub proof fn law_transfer_needs_only_the_amount(c: Cep18X402, from: Address, to: Address, amount: nat)
    ensures
        transfer_outcome(c, from, to, amount) is Ok <==> amount <= c.balance(from),
        transfer_outcome(c, from, to, amount) is Err ==> transfer_outcome(c, from, to, amount)
            == Err::<(), Revert>(Revert::InsufficientBalance),
{
}

/// The token's supply is all there is: in a well-formed state the balances sum to the total
/// supply, so no balance, nor any two balances together, exceed it, and a payee's balance
/// can never overflow.
pub proof fn law_balances_sum_to_supply(c: Cep18X402, a: Address, b: Address)
    requires
        c.wf(),
    ensures
        c.total_balance() == c.spec_total_supply(),
        c.spec_total_supply() < u256_modulus(),
        c.balance(a) <= c.spec_total_supply(),
        a != b ==> c.balance(a) + c.balance(b) <= c.spec_total_supply(),
{
    lemma_balances_within_total(c.balances@, a, b);
    lemma_u256_bound(c.total_supply);
}

/// A transfer moves tokens without creating or destroying any: the payer loses the amount,
/// the payee gains it, every other balance stays, and a transfer to oneself changes nothing.
pub proof fn law_transfer_conserves_tokens(c: Cep18X402, from: Address, to: Address, amount: nat)
    requires
        transfer_outcome(c, from, to, amount) is Ok,
    ensures
        moved_balance(c, from, to, amount, from) + moved_balance(c, from, to, amount, to) == (if from
            == to {
            2 * c.balance(from)
        } else {
            c.balance(from) + c.balance(to)
        }),
        from != to ==> moved_balance(c, from, to, amount, from) == c.balance(from) - amount,
        from != to ==> moved_balance(c, from, to, amount, to) == c.balance(to) + amount,
        forall|a: Address| a != from && a != to ==> moved_balance(c, from, to, amount, a) == c.balance(a),
        from == to ==> forall|a: Address| moved_balance(c, from, to, amount, a) == c.balance(a),
{
}

} // verus!
