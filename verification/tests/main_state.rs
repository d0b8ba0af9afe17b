use claim_curve::main_program::state::StateAccount;
use claim_curve::runtime::ProgramFailure;

fn state(next_height: u8, next_value: u64, last_slot: u64) -> StateAccount {
    StateAccount {
        discriminator: 0,
        bump: 253,
        prev_height: next_height,
        last_height: next_height.saturating_sub(1),
        next_height,
        accummulated_depth: 10,
        last_value: 0,
        next_value,
        last_slot,
        total_contributions: 1_000,
        total_claimed: 2_000_000_000,
    }
}

#[test]
fn depth_curve_values() {
    let table: [(u64, u8); 16] = [
        (0, 0), (5, 0), (6, 1), (8, 1), (9, 1), (12, 1), (13, 2), (20, 3),
        (21, 5), (68, 20), (69, 21), (132, 52), (133, 53), (143, 63), (144, 64), (1_000_000, 64),
    ];
    for (count, depth) in table {
        assert_eq!(StateAccount::get_depth(count), depth, "count {}", count);
    }
}

#[test]
fn depth_curve_never_falls() {
    let mut previous = 0u8;
    for count in 0..400u64 {
        let depth = StateAccount::get_depth(count);
        assert!(depth >= previous);
        assert!(depth <= 64);
        previous = depth;
    }
}

#[test]
fn update_at_height_zero_is_free() {
    let s = state(0, 0, 1_000);
    let (n, out) = s.update_outcome(1_000 + 150 * 7).unwrap();
    assert_eq!(out, (0, StateAccount::CLAIM_MINT, 7 * StateAccount::CLAIM_MINT));
    assert_eq!(n.next_value, StateAccount::INIT_VALUE);
    assert_eq!(n.next_height, 1);
    assert_eq!(n.last_height, 0);
    assert_eq!(n.accummulated_depth, 11);
    assert_eq!(n.total_claimed, 3_000_000_000);
    assert_eq!(n.total_contributions, 1_000);
    assert_eq!(n.last_slot, 1_000 + 150 * 7);
}

#[test]
fn timely_update_doubles_the_price() {
    let s = state(2, 1_000, 0);
    let (n, out) = s.update_outcome(150 * 5 + 149).unwrap();
    assert_eq!(out, (1_000, StateAccount::CLAIM_MINT, 5 * StateAccount::CLAIM_MINT));
    assert_eq!(n.last_value, 1_000);
    assert_eq!(n.next_value, 2_000);
    assert_eq!(n.last_height, 2);
    assert_eq!(n.next_height, 3);
    assert_eq!(n.prev_height, 3);
    assert_eq!(n.total_contributions, 2_000);
    assert_eq!(n.accummulated_depth, 10);
}

#[test]
fn timely_update_of_a_small_price_quadruples_it() {
    let s = state(2, 3, 0);
    let (n, _) = s.update_outcome(0).unwrap();
    assert_eq!(n.next_value, 12);
}

#[test]
fn waiting_update_halves_and_lowers_the_height() {
    // 21 steps reach a depth of 5
    let s = state(10, 1_000_000, 0);
    let (n, out) = s.update_outcome(150 * 21).unwrap();
    assert_eq!(out, (32_812, StateAccount::CLAIM_MINT, 21 * StateAccount::CLAIM_MINT));
    assert_eq!(n.last_height, 5);
    assert_eq!(n.next_height, 6);
    assert_eq!(n.next_value, 62_500);
    assert_eq!(n.accummulated_depth, 15);
    assert_eq!(n.total_contributions, 1_000 + 32_812);
}

#[test]
fn waiting_update_below_height_zero_is_free() {
    let s = state(3, 1_000_000, 0);
    let (n, out) = s.update_outcome(150 * 21).unwrap();
    assert_eq!(out.0, 0);
    assert_eq!(n.last_height, 0);
    assert_eq!(n.next_height, 1);
    assert_eq!(n.next_value, 125_000 + 125_000 * 3 / 100);
}

#[test]
fn waiting_update_of_a_price_up_to_100_takes_the_offset() {
    let s = state(5, 100, 0);
    let (n, out) = s.update_outcome(150 * 9).unwrap();
    assert_eq!(out.0, 49);
    assert_eq!(n.next_value, 98);
    assert_eq!(n.last_height, 4);
}

#[test]
fn update_out_of_range_has_no_outcome() {
    assert_eq!(state(1, 10, 500).update_outcome(499), None);
    let too_long = 150 * (u64::MAX / 1_000_000_000 + 1);
    assert_eq!(state(1, 10, 0).update_outcome(too_long), None);
    // a depth of 64 above height 64 would shift by 64
    assert_eq!(state(70, 1 << 50, 0).update_outcome(150 * 144), None);
    let mut full = state(1, 10, 0);
    full.accummulated_depth = u16::MAX;
    assert_eq!(full.update_outcome(150 * 6), None);
    let mut claimed = state(1, 10, 0);
    claimed.total_claimed = u64::MAX - 1;
    assert_eq!(claimed.update_outcome(0), None);
    assert_eq!(state(1, u64::MAX / 2 + 1, 0).update_outcome(0), None);
    assert_eq!(state(255, 1, 0).update_outcome(0), None);
}

#[test]
fn update_keeps_the_state_when_the_clock_is_unavailable() {
    let mut s = state(2, 1_000, 0);
    let before = s;
    assert_eq!(s.update(), Err(ProgramFailure::Runtime(17u64 << 32)));
    assert_eq!(s, before);
}

#[test]
fn main_state_bytes_layout() {
    let s = state(4, 0x1122334455667788, 99);
    let bytes = s.serialize();
    assert_eq!(bytes.len(), StateAccount::LEN);
    assert_eq!(bytes.len(), 47);
    let expected = borsh::to_vec(&(
        s.discriminator,
        s.bump,
        s.prev_height,
        s.last_height,
        s.next_height,
        s.accummulated_depth,
        s.last_value,
        s.next_value,
        s.last_slot,
        s.total_contributions,
        s.total_claimed,
    ))
    .unwrap();
    assert_eq!(bytes, expected);
    assert_eq!(StateAccount::try_from_slice(&bytes), Ok(s));
    assert_eq!(StateAccount::try_from_slice(&bytes[1..]), Err(ProgramFailure::BorshIoError));
}

#[test]
fn main_state_constants() {
    assert_eq!(StateAccount::TARGET, 150);
    assert_eq!(StateAccount::CLAIM_MINT, 1_000_000_000);
}

#[test]
fn update_that_reaches_height_zero_is_free() {
    // ten steps reach a depth of 1 at height 1
    let s = state(1, 1_000_000, 0);
    let (n, out) = s.update_outcome(1_500).unwrap();
    assert_eq!(out.0, 0);
    assert_eq!(n.last_height, 0);
    assert_eq!(n.last_value, 0);
    assert_eq!(n.next_height, 1);
    assert_eq!(n.next_value, 505_000);
    assert_eq!(out.2, 10 * StateAccount::CLAIM_MINT);
}

#[test]
fn update_at_height_64_after_64_levels_has_no_outcome() {
    // the height reaches 0 but halving 64 times would shift by 64
    let s = state(64, 1_000_000, 0);
    assert_eq!(s.update_outcome(150 * 144), None);
}
