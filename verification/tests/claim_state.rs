use claim_curve::runtime::ProgramFailure;
use claim_curve::state::{ClaimAmounts, StateAccount};

fn state(next_height: u8, next_value: u64, last_slot: u64) -> StateAccount {
    StateAccount {
        discriminator: 0,
        bump: 254,
        prev_height: next_height,
        last_height: next_height.saturating_sub(1),
        next_height,
        last_value: 7,
        next_value,
        last_slot,
    }
}

#[test]
fn claim_at_height_zero_is_free() {
    let s = state(0, 0, 1_000);
    let (n, a) = s.claim_outcome(5_000, 3).unwrap();
    assert_eq!(n.last_value, StateAccount::RESET);
    assert_eq!(n.last_height, 0);
    assert_eq!(n.next_value, StateAccount::INIT_VALUE);
    assert_eq!(n.next_height, 1);
    assert_eq!(n.prev_height, 1);
    assert_eq!(n.last_slot, 5_000);
    assert_eq!(a, ClaimAmounts { transfer_amount: 1, pool_amount: 0 });
}

#[test]
fn timely_claim_doubles_the_price() {
    let s = state(1, 1_000_000, 100);
    let (n, a) = s.claim_outcome(399, 1).unwrap();
    assert_eq!(n.last_value, 1_000_000);
    assert_eq!(n.next_value, 2_000_000);
    assert_eq!(n.last_height, 1);
    assert_eq!(n.next_height, 2);
    assert_eq!(n.prev_height, 2);
    assert_eq!(a, ClaimAmounts { transfer_amount: 1, pool_amount: 0 });
}

#[test]
fn timely_claim_of_a_small_price_quadruples_it() {
    let s = state(3, 5, 0);
    let (n, _) = s.claim_outcome(10, 1).unwrap();
    assert_eq!(n.last_value, 5);
    assert_eq!(n.next_value, 20);
    assert_eq!(n.next_height, 4);
}

#[test]
fn waiting_claim_halves_and_lowers_the_height() {
    // three waiting steps of 300 slots below a height of 5
    let s = state(5, 1_000_000, 0);
    let (n, a) = s.claim_outcome(900, 1).unwrap();
    assert_eq!(n.last_value, 125_000 + 125_000 * 3 / 100);
    assert_eq!(n.last_height, 2);
    assert_eq!(n.next_height, 3);
    assert_eq!(n.next_value, 250_000);
    assert_eq!(a, ClaimAmounts { transfer_amount: 1, pool_amount: 2 });
}

#[test]
fn waiting_claim_below_height_zero_is_free() {
    // five waiting steps above a height of 2
    let s = state(2, 1_000_000, 0);
    let (n, a) = s.claim_outcome(1_500, 10).unwrap();
    assert_eq!(n.last_value, 0);
    assert_eq!(n.last_height, 0);
    assert_eq!(n.next_height, 1);
    assert_eq!(n.next_value, 250_000 + 250_000 * 5 / 100);
    assert_eq!(a, ClaimAmounts { transfer_amount: 5, pool_amount: 0 });
}

#[test]
fn waiting_claim_splits_depth_between_claimer_and_pool() {
    let s = state(20, 1 << 40, 0);
    let (n, a) = s.claim_outcome(300 * 7 + 299, 4).unwrap();
    assert_eq!(a.transfer_amount + a.pool_amount, 7);
    assert_eq!(a, ClaimAmounts { transfer_amount: 4, pool_amount: 3 });
    assert_eq!(n.next_height, n.last_height + 1);
    assert_eq!(n.last_height, 13);
}

#[test]
fn claim_before_the_last_slot_has_no_outcome() {
    let s = state(1, 100, 1_000);
    assert_eq!(s.claim_outcome(999, 1), None);
}

#[test]
fn claim_beyond_height_255_has_no_outcome() {
    let s = state(255, 100, 0);
    assert_eq!(s.claim_outcome(1, 1), None);
}

#[test]
fn claim_beyond_u64_price_has_no_outcome() {
    let s = state(1, u64::MAX / 2 + 1, 0);
    assert_eq!(s.claim_outcome(1, 1), None);
}

#[test]
fn claim_below_the_offset_has_no_outcome() {
    // a small price of 0 halved twice is 0, below the offset of 1
    let s = state(3, 0, 0);
    assert_eq!(s.claim_outcome(300, 1), None);
}

#[test]
fn claim_with_a_shift_of_64_has_no_outcome() {
    // a small price halves twice per step: 32 steps shift by 64
    let s = state(100, 8, 0);
    assert_eq!(s.claim_outcome(300 * 32, 1), None);
    assert!(s.claim_outcome(300 * 31, 1).is_none());
}

#[test]
fn claim_keeps_the_state_when_the_clock_is_unavailable() {
    // off-chain the Clock sysvar is not available
    let mut s = state(4, 1_000, 0);
    let before = s;
    let r = s.claim(1);
    assert_eq!(r, Err(ProgramFailure::Runtime(17u64 << 32)));
    assert_eq!(s, before);
}

#[test]
fn state_bytes_layout() {
    let s = StateAccount {
        discriminator: 0,
        bump: 251,
        prev_height: 3,
        last_height: 2,
        next_height: 3,
        last_value: 0x0102030405060708,
        next_value: 5,
        last_slot: u64::MAX,
    };
    let bytes = s.serialize();
    assert_eq!(bytes.len(), StateAccount::LEN);
    let expected = borsh::to_vec(&(0u8, 251u8, 3u8, 2u8, 3u8, 0x0102030405060708u64, 5u64, u64::MAX)).unwrap();
    assert_eq!(bytes, expected);
    assert_eq!(&bytes[5..13], &[8, 7, 6, 5, 4, 3, 2, 1]);
}

#[test]
fn state_bytes_roundtrip() {
    let s = state(9, 123_456_789, 42);
    let bytes = s.serialize();
    assert_eq!(StateAccount::try_from_slice(&bytes), Ok(s));
}

#[test]
fn state_bytes_of_wrong_length_are_refused() {
    let bytes = state(9, 1, 2).serialize();
    assert_eq!(StateAccount::try_from_slice(&bytes[..28]), Err(ProgramFailure::BorshIoError));
    let mut longer = bytes.clone();
    longer.push(0);
    assert_eq!(StateAccount::try_from_slice(&longer), Err(ProgramFailure::BorshIoError));
}

#[test]
fn state_constants() {
    assert_eq!(StateAccount::LEN, 29);
    assert_eq!(StateAccount::TARGET, 300);
    assert_eq!(StateAccount::DISCRIMINATOR, 0);
    assert_eq!(StateAccount::DEFUALT_AMOUNT, 1);
}

#[test]
fn very_long_wait_resets_to_height_zero_for_free() {
    // 257 waiting steps at height 5
    let s = state(5, 1_000_000, 0);
    let (n, a) = s.claim_outcome(300 * 257, 1).unwrap();
    assert_eq!(n.last_height, 0);
    assert_eq!(n.last_value, 0);
    assert_eq!(n.next_height, 1);
    assert_eq!(n.next_value, 31_250 + 31_250 * 257 / 100);
    assert_eq!(a, ClaimAmounts { transfer_amount: 1, pool_amount: 256 });
}

#[test]
fn wait_equal_to_the_height_is_free() {
    let s = state(3, 1_000_000, 0);
    let (n, _) = s.claim_outcome(900, 1).unwrap();
    assert_eq!(n.last_height, 0);
    assert_eq!(n.last_value, 0);
    assert_eq!(n.next_value, 125_000 + 125_000 * 3 / 100);
}
