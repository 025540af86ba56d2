//! The token calls: how their arguments are encoded and how the raw
//! responses are read.
use vstd::prelude::*;
use crate::address::Address;
use crate::uint::{be_bytes, be_value, to_be_bytes, U256};

verus! {

/// Whether an outgoing call may change the state of its target.
#[derive(Clone, Copy, Debug, PartialEq, Eq, Structural)]
pub enum CallKind {
    /// A static call: the target's state stays as it is.
    ReadOnly,
    /// An ordinary call: the target may change its state.
    StateMutating,
}

/// A call for the host to make: target, kind and encoded arguments.
#[derive(Debug)]
pub struct ExternalCall {
    pub target: Address,
    pub kind: CallKind,
    pub calldata: Vec<u8>,
}

/// The selector of `balanceOf(address)`.
pub open spec fn balance_of_selector() -> Seq<u8> {
    seq![0x70u8, 0xa0u8, 0x82u8, 0x31u8]
}

/// The selector of `transfer(address,uint256)`.
pub open spec fn transfer_selector() -> Seq<u8> {
    seq![0xa9u8, 0x05u8, 0x9cu8, 0xbbu8]
}

/// An address as one 32-byte argument word: twelve zero bytes, then the address.
pub open spec fn address_word(a: Seq<u8>) -> Seq<u8> {
    Seq::new(12, |i: int| 0u8) + a
}

/// The call data of `balanceOf(owner)`.
pub open spec fn balance_of_calldata(owner: Seq<u8>) -> Seq<u8> {
    balance_of_selector() + address_word(owner)
}

/// The call data of `transfer(recipient, amount)`.
pub open spec fn transfer_calldata(recipient: Seq<u8>, amount: nat) -> Seq<u8> {
    transfer_selector() + address_word(recipient) + be_bytes(amount, 32)
}

/// The balance that a response to `balanceOf` reports: the 32-byte word
/// read big-endian, or zero when the call failed or the response is not
/// exactly 32 bytes long.
pub open spec fn balance_response_value(response: Result<Vec<u8>, Vec<u8>>) -> nat {
    match response {
        Ok(data) => if data@.len() == 32 {
            be_value(data@)
        } else {
            0
        },
        Err(_) => 0,
    }
}

/// Whether a response to `transfer` reports success: the call succeeded and
/// the first byte of its response is 1.
pub open spec fn transfer_response_ok(response: Result<Vec<u8>, Vec<u8>>) -> bool {
    match response {
        Ok(data) => data@.len() > 0 && data@[0] == 1u8,
        Err(_) => false,
    }
}

fn push_address_word(out: &mut Vec<u8>, a: &Address)
    ensures
        final(out)@ == old(out)@ + address_word(a@),
{
    let ghost start = out@;
    let mut i: usize = 0;
    while i < 12
        invariant
            i <= 12,
            out@ == start + Seq::new(i as nat, |k: int| 0u8),
        decreases 12 - i,
    {
        out.push(0u8);
        i += 1;
        assert(out@ =~= start + Seq::new(i as nat, |k: int| 0u8));
    }
    let mut j: usize = 0;
    while j < 20
        invariant
            j <= 20,
            out@ == start + Seq::new(12, |k: int| 0u8) + a@.subrange(0, j as int),
        decreases 20 - j,
    {
        out.push(a.0[j]);
        j += 1;
        assert(out@ =~= start + Seq::new(12, |k: int| 0u8) + a@.subrange(0, j as int));
    }
    assert(a@.subrange(0, 20) =~= a@);
    assert(out@ =~= old(out)@ + address_word(a@));
}

/// The call data of `balanceOf(owner)`.
pub fn encode_balance_of(owner: &Address) -> (r: Vec<u8>)
    ensures
        r@ == balance_of_calldata(owner@),
{
    let mut out: Vec<u8> = Vec::new();
    out.push(0x70u8);
    out.push(0xa0u8);
    out.push(0x82u8);
    out.push(0x31u8);
    assert(out@ =~= balance_of_selector());
    push_address_word(&mut out, owner);
    out
}

/// The call data of `transfer(recipient, amount)`.
pub fn encode_transfer(recipient: &Address, amount: U256) -> (r: Vec<u8>)
    ensures
        r@ == transfer_calldata(recipient@, amount@),
{
    let mut out: Vec<u8> = Vec::new();
    out.push(0xa9u8);
    out.push(0x05u8);
    out.push(0x9cu8);
    out.push(0xbbu8);
    assert(out@ =~= transfer_selector());
    push_address_word(&mut out, recipient);
    let ghost head = out@;
    let word = to_be_bytes(amount);
    let mut i: usize = 0;
    while i < 32
        invariant
            i <= 32,
            word@.len() == 32,
            out@ == head + word@.subrange(0, i as int),
        decreases 32 - i,
    {
        out.push(word[i]);
        i += 1;
        assert(out@ =~= head + word@.subrange(0, i as int));
    }
    assert(word@.subrange(0, 32) =~= word@);
    out
}

} // verus!
