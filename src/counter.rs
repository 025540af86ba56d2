//! The contract: a persistent 256-bit counter and a token address.
use vstd::prelude::*;
use crate::abi::{
    balance_of_calldata, balance_response_value, encode_balance_of, encode_transfer,
    transfer_calldata, transfer_response_ok, CallKind, ExternalCall,
};
use crate::address::Address;
use vstd::arithmetic::div_mod::{lemma_mul_mod_noop_right, lemma_small_mod};
use crate::uint::{from_be_bytes, lemma_value_bounded, modulus, wrapping_add, wrapping_mul, U256};

verus! {

/// What a `Counter` holds, as mathematical values.
pub struct CounterView {
    pub number: nat,
    pub token: Seq<u8>,
}

impl CounterView {
    /// The values a contract can hold: a number below 2^256 and a 20-byte
    /// address.
    pub open spec fn wf(self) -> bool {
        self.number < modulus() && self.token.len() == 20
    }

    /// The state of a newly created contract.
    pub open spec fn initial() -> CounterView {
        CounterView { number: 0, token: Address::spec_zero() }
    }

    /// The state after `set_number(v)`.
    pub open spec fn after_set(self, v: nat) -> CounterView {
        CounterView { number: v, token: self.token }
    }

    /// The state after `set_address(a)`.
    pub open spec fn after_set_address(self, a: Seq<u8>) -> CounterView {
        CounterView { number: self.number, token: a }
    }

    /// The state after `add_number(k)`: `k + number`, wrapping.
    pub open spec fn after_add(self, k: nat) -> CounterView {
        CounterView { number: (k + self.number) % modulus(), token: self.token }
    }

    /// The state after `mul_number(m)`: `m * number`, wrapping.
    pub open spec fn after_mul(self, m: nat) -> CounterView {
        CounterView { number: (m * self.number) % modulus(), token: self.token }
    }

    /// The state after `increment()`: `number + 1`, wrapping.
    pub open spec fn after_increment(self) -> CounterView {
        CounterView { number: (self.number + 1) % modulus(), token: self.token }
    }

    /// The state after `add_from_msg_value()` on an invocation that carries
    /// the value `v`: `number + v`, wrapping.
    pub open spec fn after_deposit(self, v: nat) -> CounterView {
        CounterView { number: (self.number + v) % modulus(), token: self.token }
    }
}

/// The contract's state: one number and the address of a token contract.
#[derive(Debug)]
pub struct Counter {
    number: U256,
    token: Address,
}

impl View for Counter {
    type V = CounterView;

    closed spec fn view(&self) -> CounterView {
        CounterView { number: self.number@, token: self.token@ }
    }
}

impl Counter {
    /// Every contract state is well formed.
    pub proof fn lemma_wf(&self)
        ensures
            self@.wf(),
    {
        lemma_value_bounded(self.number);
    }

    /// A new contract: the number is zero and the token address is the zero
    /// address.
    pub fn new() -> (c: Counter)
        ensures
            c@ == CounterView::initial(),
    {
        Counter { number: U256::zero(), token: Address::zero() }
    }

    /// The stored number.
    pub fn number(&self) -> (r: U256)
        ensures
            r@ == self@.number,
    {
        self.number
    }

    /// The stored token address.
    pub fn token(&self) -> (r: Address)
        ensures
            r@ == self@.token,
    {
        self.token
    }

    /// Stores `new_number`, whatever was stored before.
    pub fn set_number(&mut self, new_number: U256)
        ensures
            final(self)@ == old(self)@.after_set(new_number@),
    {
        self.number = new_number;
    }

    /// Stores `token` as the address of the token contract.
    pub fn set_address(&mut self, token: Address)
        ensures
            final(self)@ == old(self)@.after_set_address(token@),
    {
        self.token = token;
    }

    /// The read-only call that asks the token contract for the balance of
    /// `owner`.
    pub fn balance_of_call(&self, owner: &Address) -> (r: ExternalCall)
        ensures
            r.target@ == self@.token,
            r.kind == CallKind::ReadOnly,
            r.calldata@ == balance_of_calldata(owner@),
    {
        ExternalCall {
            target: self.token,
            kind: CallKind::ReadOnly,
            calldata: encode_balance_of(owner),
        }
    }

    /// The balance that the response to a `balance_of_call` reports: its
    /// 32-byte word read big-endian. A failed call, and a response that is
    /// not exactly 32 bytes long, give zero.
    pub fn balance_of(response: &Result<Vec<u8>, Vec<u8>>) -> (r: U256)
        ensures
            r@ == balance_response_value(*response),
    {
        match response {
            Ok(data) => {
                if data.len() == 32 {
                    let mut word = [0u8; 32];
                    let mut i: usize = 0;
                    while i < 32
                        invariant
                            i <= 32,
                            data@.len() == 32,
                            forall|k: int| 0 <= k < i ==> word@[k] == data@[k],
                        decreases 32 - i,
                    {
                        word[i] = data[i];
                        i += 1;
                    }
                    assert(word@ =~= data@);
                    from_be_bytes(word)
                } else {
                    U256::zero()
                }
            },
            Err(_) => U256::zero(),
        }
    }

    /// The state-changing call that asks the token contract to move `amount`
    /// to `recipient`.
    pub fn transfer_call(&self, recipient: &Address, amount: U256) -> (r: ExternalCall)
        ensures
            r.target@ == self@.token,
            r.kind == CallKind::StateMutating,
            r.calldata@ == transfer_calldata(recipient@, amount@),
    {
        ExternalCall {
            target: self.token,
            kind: CallKind::StateMutating,
            calldata: encode_transfer(recipient, amount),
        }
    }

    /// Whether the response to a `transfer_call` reports success: true
    /// exactly when the call succeeded and the first byte of its response
    /// is 1; a failed call, an empty response or any other first byte give
    /// false.
    pub fn transfer(response: &Result<Vec<u8>, Vec<u8>>) -> (r: bool)
        ensures
            r == transfer_response_ok(*response),
            r <==> (response is Ok && response->Ok_0@.len() > 0 && response->Ok_0@[0] == 1u8),
    {
        match response {
            Ok(data) => data.len() > 0 && data[0] == 1u8,
            Err(_) => false,
        }
    }

    /// Stores `new_number * number`, modulo 2^256.
    pub fn mul_number(&mut self, new_number: U256)
        ensures
            final(self)@ == old(self)@.after_mul(new_number@),
    {
        self.number = wrapping_mul(new_number, self.number);
    }

    /// Stores `new_number + number`, modulo 2^256.
    pub fn add_number(&mut self, new_number: U256)
        ensures
            final(self)@ == old(self)@.after_add(new_number@),
    {
        self.number = wrapping_add(new_number, self.number);
    }

    /// Stores `number + 1`, modulo 2^256.
    pub fn increment(&mut self)
        ensures
            final(self)@ == old(self)@.after_increment(),
    {
        let number = self.number;
        self.set_number(wrapping_add(number, U256::from_u64(1)));
    }

    /// Stores `number + msg_value`, modulo 2^256, where `msg_value` is the
    /// value attached to the current invocation.
    pub fn add_from_msg_value(&mut self, msg_value: U256)
        ensures
            final(self)@ == old(self)@.after_deposit(msg_value@),
    {
        let number = self.number;
        self.set_number(wrapping_add(number, msg_value));
    }
}

/// Incrementing is adding one: from every state, `increment()` and
/// `add_number(1)` lead to the same state, whose number is `n + 1` modulo
/// 2^256.
pub proof fn increment_is_add_one(s: CounterView)
    ensures
        s.after_increment() == s.after_add(1),
        s.after_increment().number == (s.number + 1) % modulus(),
{
}

/// `add_number(k)` followed by `mul_number(m)` stores `(n + k) * m` modulo
/// 2^256, where `n` is the number stored before.
pub proof fn add_then_mul(s: CounterView, k: nat, m: nat)
    ensures
        s.after_add(k).after_mul(m).number == ((s.number + k) * m) % modulus(),
{
    lemma_mul_mod_noop_right(m as int, (k + s.number) as int, modulus() as int);
    assert(m * (k + s.number) == (s.number + k) * m) by (nonlinear_arith);
}

/// `set_number(v)` stores `v` whatever was stored before, and doing it twice
/// leaves the same state as doing it once.
pub proof fn set_number_overwrites(s: CounterView, v: nat)
    ensures
        s.after_set(v).number == v,
        s.after_set(v).token == s.token,
        s.after_set(v).after_set(v) == s.after_set(v),
{
}

/// `add_from_msg_value()` on an invocation carrying `v` adds exactly `v`,
/// modulo 2^256, as `add_number(v)` does; with `v == 0` the state stays as
/// it was.
pub proof fn deposit_adds_value(s: CounterView, v: nat)
    requires
        s.wf(),
    ensures
        s.after_deposit(v).number == (s.number + v) % modulus(),
        s.after_deposit(v) == s.after_add(v),
        s.after_deposit(0) == s,
{
    lemma_small_mod(s.number, modulus());
}

/// A balance query reads as zero both when the call failed and when the
/// response is not one 32-byte word. The latter covers a contract whose token
/// address was never set: it queries the zero address, which holds no code
/// and answers with an empty response.
pub proof fn balance_zero_on_failure(response: Result<Vec<u8>, Vec<u8>>)
    requires
        response is Err || response->Ok_0@.len() != 32,
    ensures
        balance_response_value(response) == 0,
        CounterView::initial().token == Address::spec_zero(),
{
}

} // verus!
