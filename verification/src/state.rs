//! The claim account of the single-crate program: its byte layout and the
//! rule by which a claim moves the price and the height.
use vstd::prelude::*;
use vstd::arithmetic::power2::pow2;
use vstd::bytes::{spec_u64_from_le_bytes, spec_u64_to_le_bytes, u64_from_le_bytes, u64_to_le_bytes};
use crate::runtime::ProgramFailure;
use crate::outside::current_slot;

verus! {

/// The claim state stored in the program's state account.
#[derive(Debug, Clone, Copy, PartialEq, Eq, Structural)]
pub struct StateAccount {
    pub discriminator: u8,
    pub bump: u8,
    pub prev_height: u8,
    pub last_height: u8,
    pub next_height: u8,
    pub last_value: u64,
    pub next_value: u64,
    pub last_slot: u64,
}

/// What a claim hands out besides the new state: the claimed tokens and the
/// ones that go to the pool for the waiting time.
#[derive(Debug, Clone, Copy, PartialEq, Eq, Structural)]
pub struct ClaimAmounts {
    pub transfer_amount: u64,
    pub pool_amount: u64,
}

/// How many whole waiting steps lie between the last claim and `slot`.
pub open spec fn claim_depth(s: StateAccount, slot: u64) -> u64 {
    ((slot - s.last_slot) / (StateAccount::TARGET as int)) as u64
}

/// The state after a claim that leaves `value` as the current price and
/// `height` as the current height.
pub open spec fn claimed_state(
    s: StateAccount,
    slot: u64,
    current_value: u64,
    current_height: u8,
    next_value: u64,
    next_height: u8,
) -> StateAccount {
    StateAccount {
        discriminator: s.discriminator,
        bump: s.bump,
        prev_height: next_height,
        last_height: current_height,
        next_height,
        last_value: current_value,
        next_value,
        last_slot: slot,
    }
}

/// Tokens handed out and pooled when `depth` waiting steps passed and
/// `amount` were asked for.
pub open spec fn waiting_amounts(depth: u64, amount: u64) -> ClaimAmounts {
    let transfer_amount = if amount > depth { depth } else { amount };
    ClaimAmounts { transfer_amount, pool_amount: (depth - transfer_amount) as u64 }
}

/// The outcome of a claim of `amount` at `slot`, or `None` where one of its
/// arithmetic steps leaves the range of its type (a slot before the last
/// claim, a product or a sum beyond `u64::MAX` or `u8::MAX`, a shift by 64 or
/// more, or a price below the offset).
///
/// A price of at most 10 counts as small: it grows four-fold, halves twice
/// per waiting step and loses an offset of 1; otherwise it doubles, halves
/// once per step and has no offset.
pub open spec fn claim_step(s: StateAccount, slot: u64, amount: u64) -> Option<(StateAccount, ClaimAmounts)> {
    if slot < s.last_slot {
        None
    } else {
        let depth = claim_depth(s, slot);
        let small = s.next_value <= 10;
        let multiplier: int = if small { 4 } else { 2 };
        let scale: int = if small { 2 } else { 1 };
        let off_set: int = if small { 1 } else { 0 };
        if s.next_height == 0 {
            Some((
                claimed_state(s, slot, StateAccount::RESET, s.next_height, StateAccount::INIT_VALUE, 1),
                ClaimAmounts { transfer_amount: StateAccount::DEFUALT_AMOUNT, pool_amount: 0 },
            ))
        } else if depth == 0 {
            if s.next_value * multiplier > u64::MAX || s.next_height + 1 > u8::MAX {
                None
            } else {
                Some((
                    claimed_state(
                        s,
                        slot,
                        s.next_value,
                        s.next_height,
                        (s.next_value * multiplier) as u64,
                        (s.next_height + 1) as u8,
                    ),
                    ClaimAmounts { transfer_amount: 1, pool_amount: 0 },
                ))
            }
        } else if s.next_height > depth {
            // the height falls by `depth` and the price halves `depth * scale`
            // times
            let shift = depth * scale;
            if shift >= 64 || (s.next_value >> (shift as u64)) < off_set {
                None
            } else {
                let value = (s.next_value >> (shift as u64)) - off_set;
                let current_value = value + value * depth / 100;
                let current_height = s.next_height - depth;
                if value * depth > u64::MAX || current_value > u64::MAX || value * 2 > u64::MAX {
                    None
                } else {
                    Some((
                        claimed_state(
                            s,
                            slot,
                            current_value as u64,
                            current_height as u8,
                            (value * 2) as u64,
                            (current_height + 1) as u8,
                        ),
                        waiting_amounts(depth, amount),
                    ))
                }
            }
        } else {
            // the height reaches 0 and the price halves once per unit of height
            let shift = s.next_height * scale;
            if shift > u8::MAX || shift >= 64 || (s.next_value >> (shift as u64)) < off_set {
                None
            } else {
                let value = (s.next_value >> (shift as u64)) - off_set;
                let next_value = value + value * depth / 100;
                if value * depth > u64::MAX || next_value > u64::MAX {
                    None
                } else {
                    Some((
                        claimed_state(s, slot, 0, 0, next_value as u64, 1),
                        waiting_amounts(depth, amount),
                    ))
                }
            }
        }
    }
}

/// The bytes of a state account: five single bytes, then three
/// little-endian `u64`s.
pub open spec fn state_bytes(s: StateAccount) -> Seq<u8> {
    seq![s.discriminator, s.bump, s.prev_height, s.last_height, s.next_height]
        + spec_u64_to_le_bytes(s.last_value) + spec_u64_to_le_bytes(s.next_value)
        + spec_u64_to_le_bytes(s.last_slot)
}

/// The state account that `b` holds, if it has the length of one.
pub open spec fn state_from_bytes(b: Seq<u8>) -> Option<StateAccount> {
    if b.len() == 29 {
        Some(StateAccount {
            discriminator: b[0],
            bump: b[1],
            prev_height: b[2],
            last_height: b[3],
            next_height: b[4],
            last_value: spec_u64_from_le_bytes(b.subrange(5, 13)),
            next_value: spec_u64_from_le_bytes(b.subrange(13, 21)),
            last_slot: spec_u64_from_le_bytes(b.subrange(21, 29)),
        })
    } else {
        None
    }
}

/// Two `u64`s multiply within `u128`.
pub proof fn lemma_product_fits(a: u64, b: u64)
    ensures
        (a as int) * (b as int) <= u128::MAX,
        0 <= (a as int) * (b as int),
{
    assert((a as int) * (b as int) <= u128::MAX) by (nonlinear_arith)
        requires
            a <= u64::MAX,
            b <= u64::MAX,
    ;
    assert(0 <= (a as int) * (b as int)) by (nonlinear_arith);
}

impl StateAccount {
    pub const LEN: usize = 1 * 5 + 8 * 3;

    pub const DISCRIMINATOR: usize = 0;

    pub const TARGET: usize = 60 * 1000 * 2 / 400;

    pub const RESET: u64 = 0;

    pub const DEFUALT_AMOUNT: u64 = 1;

    pub const INIT_VALUE: u64 = 1_000_000;

    /// The outcome of a claim of `amount` at `slot`, computed without
    /// changing `self`; `None` where `claim_step` has none.
    pub fn claim_outcome(&self, slot: u64, amount: u64) -> (r: Option<(StateAccount, ClaimAmounts)>)
        ensures
            r == claim_step(*self, slot, amount),
    {
        if slot < self.last_slot {
            return None;
        }
        let distance = slot - self.last_slot;
        let depth: u64 = distance / (StateAccount::TARGET as u64);
        let small = self.next_value <= 10;
        let multiplier: u64 = if small { 4 } else { 2 };
        let scale: u8 = if small { 2 } else { 1 };
        let off_set: u64 = if small { 1 } else { 0 };
        assert(depth == claim_depth(*self, slot));
        if self.next_height == 0 {
            let next = StateAccount {
                discriminator: self.discriminator,
                bump: self.bump,
                prev_height: 1,
                last_height: self.next_height,
                next_height: 1,
                last_value: 0,
                next_value: 1_000_000,
                last_slot: slot,
            };
            Some((next, ClaimAmounts { transfer_amount: 1, pool_amount: 0 }))
        } else if depth == 0 {
            let wide = self.next_value as u128 * multiplier as u128;
            if wide > u64::MAX as u128 || self.next_height == u8::MAX {
                return None;
            }
            let next_value = self.next_value * multiplier;
            let next_height = self.next_height + 1;
            let next = StateAccount {
                discriminator: self.discriminator,
                bump: self.bump,
                prev_height: next_height,
                last_height: self.next_height,
                next_height,
                last_value: self.next_value,
                next_value,
                last_slot: slot,
            };
            Some((next, ClaimAmounts { transfer_amount: 1, pool_amount: 0 }))
        } else if self.next_height as u64 > depth {
            assert(StateAccount::TARGET == 300);
            assert(depth <= u64::MAX / 300);
            let shift: u64 = if small { depth * 2 } else { depth };
            if shift >= 64 {
                return None;
            }
            let shifted = self.next_value >> shift;
            if shifted < off_set {
                return None;
            }
            let value = shifted - off_set;
            proof { lemma_product_fits(value, depth); }
            let product = value as u128 * depth as u128;
            if product > u64::MAX as u128 || value > u64::MAX / 2 {
                return None;
            }
            let grown = value as u128 + product / 100;
            if grown > u64::MAX as u128 {
                return None;
            }
            let current_value = value + value * depth / 100;
            let current_height = self.next_height - depth as u8;
            let next_height = current_height + 1;
            let next_value = value * 2;
            let transfer_amount = if amount > depth { depth } else { amount };
            let pool_amount = depth - transfer_amount;
            let next = StateAccount {
                discriminator: self.discriminator,
                bump: self.bump,
                prev_height: next_height,
                last_height: current_height,
                next_height,
                last_value: current_value,
                next_value,
                last_slot: slot,
            };
            Some((next, ClaimAmounts { transfer_amount, pool_amount }))
        } else {
            let wide_shift: u16 = self.next_height as u16 * scale as u16;
            if wide_shift > u8::MAX as u16 || wide_shift >= 64 {
                return None;
            }
            let shift: u8 = self.next_height * scale;
            let shifted = self.next_value >> shift;
            if shifted < off_set {
                return None;
            }
            let value = shifted - off_set;
            proof { lemma_product_fits(value, depth); }
            let product = value as u128 * depth as u128;
            if product > u64::MAX as u128 {
                return None;
            }
            let grown = value as u128 + product / 100;
            if grown > u64::MAX as u128 {
                return None;
            }
            let next_value = value + value * depth / 100;
            let transfer_amount = if amount > depth { depth } else { amount };
            let pool_amount = depth - transfer_amount;
            let next = StateAccount {
                discriminator: self.discriminator,
                bump: self.bump,
                prev_height: 1,
                last_height: 0,
                next_height: 1,
                last_value: 0,
                next_value,
                last_slot: slot,
            };
            Some((next, ClaimAmounts { transfer_amount, pool_amount }))
        }
    }

    /// Claims `amount` at the slot that the `Clock` sysvar reports. On
    /// success the state becomes what `claim_step` gives for that slot, and
    /// records that slot as `last_slot`; where
    /// the clock cannot be read, its error comes back, and where the rules
    /// leave the range of their types, `ArithmeticOverflow`; in both cases the
    /// state is unchanged.
    pub fn claim(&mut self, amount: u64) -> (r: Result<(), ProgramFailure>)
        ensures
            r is Ok ==> exists|slot: u64|
                #[trigger] claim_step(*old(self), slot, amount) is Some
                    && claim_step(*old(self), slot, amount).unwrap().0 == *final(self),
            r is Ok ==> claim_step(*old(self), final(self).last_slot, amount) is Some
                && claim_step(*old(self), final(self).last_slot, amount).unwrap().0 == *final(self),
            r is Err ==> *final(self) == *old(self),
            r == Err::<(), ProgramFailure>(ProgramFailure::ArithmeticOverflow) ==> exists|slot: u64|
                #[trigger] claim_step(*old(self), slot, amount) is None,
            r is Err ==> (r == Err::<(), ProgramFailure>(ProgramFailure::ArithmeticOverflow)
                || r matches Err(ProgramFailure::Runtime(_))),
    {
        let slot = match current_slot() {
            Ok(slot) => slot,
            Err(code) => return Err(ProgramFailure::Runtime(code)),
        };
        match self.claim_outcome(slot, amount) {
            Some((next, amounts)) => {
                *self = next;
                Ok(())
            },
            None => Err(ProgramFailure::ArithmeticOverflow),
        }
    }

    /// The account's bytes, in the layout `state_bytes`.
    pub fn serialize(&self) -> (r: Vec<u8>)
        ensures
            r@ == state_bytes(*self),
            r@.len() == Self::LEN,
    {
        proof {
            vstd::bytes::lemma_auto_spec_u64_to_from_le_bytes();
        }
        let mut out: Vec<u8> = Vec::new();
        out.push(self.discriminator);
        out.push(self.bump);
        out.push(self.prev_height);
        out.push(self.last_height);
        out.push(self.next_height);
        let mut a = u64_to_le_bytes(self.last_value);
        out.append(&mut a);
        let mut b = u64_to_le_bytes(self.next_value);
        out.append(&mut b);
        let mut c = u64_to_le_bytes(self.last_slot);
        out.append(&mut c);
        assert(out@ =~= state_bytes(*self));
        out
    }

    /// Reads a state account from exactly `LEN` bytes; any other length is a
    /// `BorshIoError`.
    pub fn try_from_slice(data: &[u8]) -> (r: Result<StateAccount, ProgramFailure>)
        ensures
            match state_from_bytes(data@) {
                Some(s) => r == Ok::<StateAccount, ProgramFailure>(s),
                None => r == Err::<StateAccount, ProgramFailure>(ProgramFailure::BorshIoError),
            },
    {
        if data.len() != 29 {
            return Err(ProgramFailure::BorshIoError);
        }
        let last_value = u64_from_le_bytes(vstd::slice::slice_subrange(data, 5, 13));
        let next_value = u64_from_le_bytes(vstd::slice::slice_subrange(data, 13, 21));
        let last_slot = u64_from_le_bytes(vstd::slice::slice_subrange(data, 21, 29));
        Ok(StateAccount {
            discriminator: data[0],
            bump: data[1],
            prev_height: data[2],
            last_height: data[3],
            next_height: data[4],
            last_value,
            next_value,
            last_slot,
        })
    }
}

/// Reading back the bytes of a state account gives that account, and the
/// bytes have the account's length.
pub proof fn lemma_state_bytes_roundtrip(s: StateAccount)
    ensures
        state_bytes(s).len() == StateAccount::LEN,
        state_from_bytes(state_bytes(s)) == Some(s),
{
    vstd::bytes::lemma_auto_spec_u64_to_from_le_bytes();
    let b = state_bytes(s);
    assert(b.subrange(5, 13) =~= spec_u64_to_le_bytes(s.last_value));
    assert(b.subrange(13, 21) =~= spec_u64_to_le_bytes(s.next_value));
    assert(b.subrange(21, 29) =~= spec_u64_to_le_bytes(s.last_slot));
}

/// Every byte string that reads as a state account is that account's own
/// bytes: the layout has a single encoding for each account.
pub proof fn lemma_state_bytes_canonical(b: Seq<u8>)
    requires
        state_from_bytes(b) is Some,
    ensures
        state_bytes(state_from_bytes(b).unwrap()) == b,
{
    vstd::bytes::lemma_auto_spec_u64_to_from_le_bytes();
    let s = state_from_bytes(b).unwrap();
    assert(spec_u64_to_le_bytes(s.last_value) == b.subrange(5, 13));
    assert(spec_u64_to_le_bytes(s.next_value) == b.subrange(13, 21));
    assert(spec_u64_to_le_bytes(s.last_slot) == b.subrange(21, 29));
    assert(state_bytes(s) =~= b);
}

/// Whatever branch a claim takes, afterwards the next height is one above the
/// height just claimed at, the previous height records the next height, the
/// slot is the claim's slot, and the discriminator and bump are kept.
pub proof fn lemma_claim_keeps_heights(s: StateAccount, slot: u64, amount: u64)
    requires
        claim_step(s, slot, amount) is Some,
    ensures
        ({
            let n = claim_step(s, slot, amount).unwrap().0;
            &&& n.next_height == n.last_height + 1
            &&& n.prev_height == n.next_height
            &&& n.next_height >= 1
            &&& n.last_slot == slot
            &&& n.discriminator == s.discriminator
            &&& n.bump == s.bump
        }),
{
}

/// At height 0 a claim is free and always possible from the last claim's slot
/// on: the claimed price is 0, the next price is the initial one and the
/// height becomes 1.
pub proof fn lemma_claim_at_height_zero(s: StateAccount, slot: u64, amount: u64)
    requires
        s.next_height == 0,
        slot >= s.last_slot,
    ensures
        claim_step(s, slot, amount) is Some,
        claim_step(s, slot, amount).unwrap().0.last_value == StateAccount::RESET,
        claim_step(s, slot, amount).unwrap().0.next_value == StateAccount::INIT_VALUE,
        claim_step(s, slot, amount).unwrap().0.next_height == 1,
        claim_step(s, slot, amount).unwrap().1.transfer_amount == StateAccount::DEFUALT_AMOUNT,
{
}

/// A claim within one waiting step of the last one, above height 0, pays the
/// announced price, doubles it (four-fold while it is at most 10) and raises
/// the height by one.
pub proof fn lemma_timely_claim_doubles(s: StateAccount, slot: u64, amount: u64)
    requires
        s.next_height > 0,
        slot >= s.last_slot,
        slot - s.last_slot < 300,
        claim_step(s, slot, amount) is Some,
    ensures
        ({
            let n = claim_step(s, slot, amount).unwrap().0;
            &&& n.last_value == s.next_value
            &&& n.next_value == (if s.next_value <= 10 { 4 * s.next_value } else { 2 * s.next_value })
            &&& n.last_height == s.next_height
            &&& n.next_height == s.next_height + 1
        }),
{
    assert(StateAccount::TARGET == 300);
    assert(claim_depth(s, slot) == 0);
}

/// After a wait of at least one step, the claim hands out at most what was
/// asked for, and what it does not hand out of the waiting steps goes to the
/// pool: the two add up to the number of steps.
pub proof fn lemma_waiting_claim_splits_depth(s: StateAccount, slot: u64, amount: u64)
    requires
        s.next_height > 0,
        slot >= s.last_slot + 300,
        claim_step(s, slot, amount) is Some,
    ensures
        ({
            let a = claim_step(s, slot, amount).unwrap().1;
            &&& a.transfer_amount <= amount
            &&& a.transfer_amount + a.pool_amount == claim_depth(s, slot)
        }),
{
    lemma_waited_one_step(s, slot);
}

/// A claim after a wait lowers the height by the number of waiting steps, or
/// to 0 where it had fewer, and the next height is one above that.
pub proof fn lemma_waiting_claim_lowers_height(s: StateAccount, slot: u64, amount: u64)
    requires
        s.next_height > 0,
        slot >= s.last_slot + 300,
        claim_step(s, slot, amount) is Some,
    ensures
        ({
            let n = claim_step(s, slot, amount).unwrap().0;
            let depth = claim_depth(s, slot);
            &&& s.next_height > depth ==> n.last_height == s.next_height - depth
            &&& s.next_height <= depth ==> n.last_height == 0 && n.last_value == 0
        }),
{
    lemma_waited_one_step(s, slot);
}

/// A slot at least one step after the last claim is a depth of at least 1.
proof fn lemma_waited_one_step(s: StateAccount, slot: u64)
    requires
        slot >= s.last_slot + 300,
    ensures
        claim_depth(s, slot) >= 1,
{
    assert(StateAccount::TARGET == 300);
    let d = slot - s.last_slot;
    assert(d / 300 >= 1) by (nonlinear_arith)
        requires
            d >= 300,
    ;
}

/// A claim that lands at height 0 costs nothing.
pub proof fn lemma_claim_free_at_height_zero(s: StateAccount, slot: u64, amount: u64)
    requires
        claim_step(s, slot, amount) is Some,
        claim_step(s, slot, amount).unwrap().0.last_height == 0,
    ensures
        claim_step(s, slot, amount).unwrap().0.last_value == 0,
{
}

/// A claim after `d` whole waiting steps of 300 slots (at least one, fewer
/// than the height) at a price above 10 halves the announced price once per
/// step, to `next_value / 2^d`, charges that plus `d` percent of it, lowers
/// the height by `d`, announces twice the halved price for the next claim and
/// records the claim's slot: the longer the wait, the lower the price.
pub proof fn lemma_waiting_claim_halves_price(s: StateAccount, slot: u64, amount: u64)
    requires
        s.next_value > 10,
        slot >= s.last_slot + 300,
        s.next_height > (slot - s.last_slot) / 300,
        claim_step(s, slot, amount) is Some,
    ensures
        ({
            let n = claim_step(s, slot, amount).unwrap().0;
            let d = ((slot - s.last_slot) / 300) as nat;
            let v = s.next_value as nat / pow2(d);
            &&& n.last_value == v + v * d / 100
            &&& n.next_value == 2 * v
            &&& n.last_height == s.next_height - d
            &&& n.next_height == s.next_height - d + 1
            &&& n.last_slot == slot
        }),
{
    lemma_waited_one_step(s, slot);
    assert(StateAccount::TARGET == 300);
    let depth = claim_depth(s, slot);
    assert(depth < 64);
    vstd::bits::lemma_u64_shr_is_div(s.next_value, depth);
}

} // verus!
