use test_won::abi::CallKind;
use test_won::address::Address;
use test_won::counter::Counter;
use test_won::uint::U256;

fn max_u256() -> U256 {
    U256 { l0: u64::MAX, l1: u64::MAX, l2: u64::MAX, l3: u64::MAX }
}

fn word(bytes: &[u8]) -> Vec<u8> {
    let mut w = vec![0u8; 32 - bytes.len()];
    w.extend_from_slice(bytes);
    w
}

#[test]
fn test_counter() {
    let mut contract = Counter::new();

    assert_eq!(U256::zero(), contract.number());

    contract.increment();
    assert_eq!(U256::from_u64(1), contract.number());

    contract.add_number(U256::from_u64(3));
    assert_eq!(U256::from_u64(4), contract.number());

    contract.mul_number(U256::from_u64(2));
    assert_eq!(U256::from_u64(8), contract.number());

    contract.set_number(U256::from_u64(100));
    assert_eq!(U256::from_u64(100), contract.number());

    contract.add_from_msg_value(U256::from_u64(2));
    assert_eq!(U256::from_u64(102), contract.number());
}

#[test]
fn new_contract_is_zeroed() {
    let contract = Counter::new();
    assert_eq!(contract.number(), U256::zero());
    assert_eq!(contract.token(), Address::zero());
    assert_eq!(contract.token(), Address([0u8; 20]));
}

#[test]
fn increment_equals_add_one() {
    let mut a = Counter::new();
    let mut b = Counter::new();
    a.set_number(U256::from_u64(41));
    b.set_number(U256::from_u64(41));
    a.increment();
    b.add_number(U256::from_u64(1));
    assert_eq!(a.number(), b.number());
    assert_eq!(a.number(), U256::from_u64(42));
}

#[test]
fn increment_carries_into_next_limb() {
    let mut c = Counter::new();
    c.set_number(U256::from_u64(u64::MAX));
    c.increment();
    assert_eq!(c.number(), U256 { l0: 0, l1: 1, l2: 0, l3: 0 });
}

#[test]
fn increment_wraps_at_max() {
    let mut c = Counter::new();
    c.set_number(max_u256());
    c.increment();
    assert_eq!(c.number(), U256::zero());
}

#[test]
fn add_then_mul_composes() {
    let mut c = Counter::new();
    c.set_number(U256::from_u64(5));
    c.add_number(U256::from_u64(7));
    c.mul_number(U256::from_u64(3));
    assert_eq!(c.number(), U256::from_u64(36));
}

#[test]
fn add_number_wraps() {
    let mut c = Counter::new();
    c.set_number(max_u256());
    c.add_number(U256::from_u64(3));
    assert_eq!(c.number(), U256::from_u64(2));
}

#[test]
fn mul_number_wraps() {
    let mut c = Counter::new();
    // 2^255 * 2 == 2^256, which wraps to zero.
    c.set_number(U256 { l0: 0, l1: 0, l2: 0, l3: 1u64 << 63 });
    c.mul_number(U256::from_u64(2));
    assert_eq!(c.number(), U256::zero());
    // (2^64 + 1) * (2^64 - 1) == 2^128 - 1.
    c.set_number(U256 { l0: 1, l1: 1, l2: 0, l3: 0 });
    c.mul_number(U256::from_u64(u64::MAX));
    assert_eq!(c.number(), U256 { l0: u64::MAX, l1: u64::MAX, l2: 0, l3: 0 });
}

#[test]
fn set_number_overwrites_and_is_idempotent() {
    let mut c = Counter::new();
    c.set_number(U256::from_u64(9));
    c.set_number(U256::from_u64(77));
    assert_eq!(c.number(), U256::from_u64(77));
    c.set_number(U256::from_u64(77));
    assert_eq!(c.number(), U256::from_u64(77));
}

#[test]
fn add_from_msg_value_zero_is_noop() {
    let mut c = Counter::new();
    c.set_number(U256::from_u64(13));
    c.add_from_msg_value(U256::zero());
    assert_eq!(c.number(), U256::from_u64(13));
    c.add_from_msg_value(U256::from_u64(7));
    assert_eq!(c.number(), U256::from_u64(20));
}

#[test]
fn set_address_keeps_number() {
    let mut c = Counter::new();
    c.set_number(U256::from_u64(5));
    c.set_address(Address([7u8; 20]));
    assert_eq!(c.token(), Address([7u8; 20]));
    assert_ne!(c.token(), Address::zero());
    assert_eq!(c.number(), U256::from_u64(5));
}

#[test]
fn balance_of_call_encodes_query() {
    let mut c = Counter::new();
    let fresh = c.balance_of_call(&Address([0xabu8; 20]));
    assert_eq!(fresh.target, Address::zero());
    c.set_address(Address([0x11u8; 20]));
    let call = c.balance_of_call(&Address([0xabu8; 20]));
    assert_eq!(call.target, Address([0x11u8; 20]));
    assert_eq!(call.kind, CallKind::ReadOnly);
    let mut expected = vec![0x70u8, 0xa0, 0x82, 0x31];
    expected.extend_from_slice(&[0u8; 12]);
    expected.extend_from_slice(&[0xabu8; 20]);
    assert_eq!(call.calldata, expected);
}

#[test]
fn balance_of_reads_word() {
    let response: Result<Vec<u8>, Vec<u8>> = Ok(word(&[0x01, 0x02]));
    assert_eq!(Counter::balance_of(&response), U256::from_u64(258));
    let mut high = vec![0u8; 32];
    high[0] = 0x80;
    high[31] = 0x05;
    let response: Result<Vec<u8>, Vec<u8>> = Ok(high);
    assert_eq!(
        Counter::balance_of(&response),
        U256 { l0: 5, l1: 0, l2: 0, l3: 0x8000_0000_0000_0000 }
    );
}

#[test]
fn balance_of_failed_call_is_zero() {
    let response: Result<Vec<u8>, Vec<u8>> = Err(vec![1, 2, 3]);
    assert_eq!(Counter::balance_of(&response), U256::zero());
}

#[test]
fn balance_of_empty_response_is_zero() {
    let response: Result<Vec<u8>, Vec<u8>> = Ok(Vec::new());
    assert_eq!(Counter::balance_of(&response), U256::zero());
}

#[test]
fn balance_of_wrong_length_is_zero() {
    let response: Result<Vec<u8>, Vec<u8>> = Ok(vec![0xffu8; 31]);
    assert_eq!(Counter::balance_of(&response), U256::zero());
    let response: Result<Vec<u8>, Vec<u8>> = Ok(vec![0xffu8; 33]);
    assert_eq!(Counter::balance_of(&response), U256::zero());
}

#[test]
fn transfer_call_encodes_arguments() {
    let mut c = Counter::new();
    c.set_address(Address([0x22u8; 20]));
    let amount = U256 { l0: 0x0102, l1: 0, l2: 0, l3: 0xff00_0000_0000_0000 };
    let call = c.transfer_call(&Address([0x33u8; 20]), amount);
    assert_eq!(call.target, Address([0x22u8; 20]));
    assert_eq!(call.kind, CallKind::StateMutating);
    let mut expected = vec![0xa9u8, 0x05, 0x9c, 0xbb];
    expected.extend_from_slice(&[0u8; 12]);
    expected.extend_from_slice(&[0x33u8; 20]);
    let mut amount_word = vec![0u8; 32];
    amount_word[0] = 0xff;
    amount_word[30] = 0x01;
    amount_word[31] = 0x02;
    expected.extend_from_slice(&amount_word);
    assert_eq!(call.calldata.len(), 68);
    assert_eq!(call.calldata, expected);
}

#[test]
fn transfer_true_on_leading_one() {
    let response: Result<Vec<u8>, Vec<u8>> = Ok(vec![1u8]);
    assert!(Counter::transfer(&response));
    let response: Result<Vec<u8>, Vec<u8>> = Ok(vec![1u8, 0, 0]);
    assert!(Counter::transfer(&response));
}

#[test]
fn transfer_false_otherwise() {
    let failed: Result<Vec<u8>, Vec<u8>> = Err(vec![1u8]);
    assert!(!Counter::transfer(&failed));
    let empty: Result<Vec<u8>, Vec<u8>> = Ok(Vec::new());
    assert!(!Counter::transfer(&empty));
    let zero: Result<Vec<u8>, Vec<u8>> = Ok(vec![0u8]);
    assert!(!Counter::transfer(&zero));
    let two: Result<Vec<u8>, Vec<u8>> = Ok(vec![2u8]);
    assert!(!Counter::transfer(&two));
    // A 32-byte boolean word puts its 1 in the last byte, not the first.
    let abi_true: Result<Vec<u8>, Vec<u8>> = Ok(word(&[1u8]));
    assert!(!Counter::transfer(&abi_true));
}

#[test]
fn address_equality_compares_bytes() {
    let mut bytes = [0u8; 20];
    bytes[19] = 1;
    assert_ne!(Address(bytes), Address::zero());
    assert_eq!(Address(bytes), Address(bytes));
}
