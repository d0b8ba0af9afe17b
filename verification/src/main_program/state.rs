//! The claim account of the claim program: its byte layout, the waiting depth
//! curve, and the update that a claim makes.
use vstd::prelude::*;
use vstd::bytes::{
    spec_u16_from_le_bytes, spec_u16_to_le_bytes, spec_u64_from_le_bytes, spec_u64_to_le_bytes,
    u16_from_le_bytes, u16_to_le_bytes, u64_from_le_bytes, u64_to_le_bytes,
};
use crate::runtime::ProgramFailure;
use crate::outside::current_slot;
use crate::state::lemma_product_fits;

verus! {

/// The claim state stored in the claim program's state account.
#[derive(Debug, Clone, Copy, PartialEq, Eq, Structural)]
pub struct StateAccount {
    pub discriminator: u8,
    pub bump: u8,
    pub prev_height: u8,
    pub last_height: u8,
    pub next_height: u8,
    pub accummulated_depth: u16,
    pub last_value: u64,
    pub next_value: u64,
    pub last_slot: u64,
    pub total_contributions: u64,
    pub total_claimed: u64,
}

/// How far the height falls after `count` waiting steps: nothing up to 5,
/// then slowly, then faster, reaching 64 at 144 steps and staying there.
pub open spec fn depth_curve(count: u64) -> u8 {
    if count >= 144 {
        64
    } else if count >= 133 {
        ((count - 133) + 53) as u8
    } else if count >= 69 {
        ((count - 69) / 2 + 21) as u8
    } else if count >= 21 {
        ((count - 21) / 3 + 5) as u8
    } else if count >= 9 {
        ((count - 9) / 4 + 1) as u8
    } else if count > 5 {
        1
    } else {
        0
    }
}

/// Whole waiting steps of 150 slots between the last claim and `slot`.
pub open spec fn waiting_count(s: StateAccount, slot: u64) -> u64 {
    ((slot - s.last_slot) / (StateAccount::TARGET as int)) as u64
}

/// The state after an update that claims at `current_height` for
/// `current_value`, with the height fallen by `depth`.
pub open spec fn updated_state(
    s: StateAccount,
    slot: u64,
    depth: u8,
    current_value: u64,
    current_height: u8,
    next_value: u64,
    next_height: u8,
) -> StateAccount {
    StateAccount {
        discriminator: s.discriminator,
        bump: s.bump,
        prev_height: next_height,
        last_height: current_height,
        next_height,
        accummulated_depth: (s.accummulated_depth + depth) as u16,
        last_value: current_value,
        next_value,
        last_slot: slot,
        total_contributions: (s.total_contributions + current_value) as u64,
        total_claimed: (s.total_claimed + StateAccount::CLAIM_MINT) as u64,
    }
}

/// Whether the running totals can take one more update.
pub open spec fn totals_fit(s: StateAccount, depth: u8, current_value: int) -> bool {
    &&& s.accummulated_depth + depth <= u16::MAX
    &&& s.total_claimed + StateAccount::CLAIM_MINT <= u64::MAX
    &&& s.total_contributions + current_value <= u64::MAX
}

/// The outcome of an update at `slot`: the new state and the triple
/// (price paid, tokens claimed, tokens minted to the pool); `None` where one
/// of its arithmetic steps leaves the range of its type.
///
/// A price of at most 10 grows four-fold, otherwise two-fold; a price of at
/// most 100 loses an offset of 1 when it halves.
pub open spec fn update_step(s: StateAccount, slot: u64) -> Option<(StateAccount, (u64, u64, u64))> {
    if slot < s.last_slot {
        None
    } else {
        let count = waiting_count(s, slot);
        let depth = depth_curve(count);
        let multiplier: int = if s.next_value <= 10 { 4 } else { 2 };
        let off_set: int = if s.next_value <= 100 { 1 } else { 0 };
        let pool_mint = count * StateAccount::CLAIM_MINT;
        if pool_mint > u64::MAX {
            None
        } else if s.next_height == 0 {
            if !totals_fit(s, depth, 0) {
                None
            } else {
                Some((
                    updated_state(s, slot, depth, StateAccount::RESET, s.next_height, StateAccount::INIT_VALUE, 1),
                    (0, StateAccount::CLAIM_MINT, pool_mint as u64),
                ))
            }
        } else if depth == 0 {
            if s.next_value * multiplier > u64::MAX || s.next_height + 1 > u8::MAX
                || !totals_fit(s, depth, s.next_value as int) {
                None
            } else {
                Some((
                    updated_state(
                        s,
                        slot,
                        depth,
                        s.next_value,
                        s.next_height,
                        (s.next_value * multiplier) as u64,
                        (s.next_height + 1) as u8,
                    ),
                    (s.next_value, StateAccount::CLAIM_MINT, pool_mint as u64),
                ))
            }
        } else if s.next_height > depth {
            // the height falls by `depth` and the price halves `depth` times
            if depth >= 64 || (s.next_value >> (depth as u64)) < off_set {
                None
            } else {
                let value = (s.next_value >> (depth as u64)) - off_set;
                let current_value = value + value * depth / 100;
                let current_height = s.next_height - depth;
                if value * depth > u64::MAX || current_value > u64::MAX || value * 2 > u64::MAX
                    || current_height + 1 > u8::MAX || !totals_fit(s, depth, current_value) {
                    None
                } else {
                    Some((
                        updated_state(
                            s,
                            slot,
                            depth,
                            current_value as u64,
                            current_height as u8,
                            (value * 2) as u64,
                            (current_height + 1) as u8,
                        ),
                        (current_value as u64, StateAccount::CLAIM_MINT, pool_mint as u64),
                    ))
                }
            }
        } else {
            // the height reaches 0, the claim is free, and the price halves
            // once per unit of height
            if s.next_height >= 64 || (s.next_value >> (s.next_height as u64)) < off_set {
                None
            } else {
                let value = (s.next_value >> (s.next_height as u64)) - off_set;
                let next_value = value + value * s.next_height / 100;
                if value * s.next_height > u64::MAX || next_value > u64::MAX || !totals_fit(s, depth, 0) {
                    None
                } else {
                    Some((
                        updated_state(s, slot, depth, 0, 0, next_value as u64, 1),
                        (0, StateAccount::CLAIM_MINT, pool_mint as u64),
                    ))
                }
            }
        }
    }
}

/// The bytes of a state account: five single bytes, a little-endian `u16`,
/// then five little-endian `u64`s.
pub open spec fn state_bytes(s: StateAccount) -> Seq<u8> {
    seq![s.discriminator, s.bump, s.prev_height, s.last_height, s.next_height]
        + spec_u16_to_le_bytes(s.accummulated_depth) + spec_u64_to_le_bytes(s.last_value)
        + spec_u64_to_le_bytes(s.next_value) + spec_u64_to_le_bytes(s.last_slot)
        + spec_u64_to_le_bytes(s.total_contributions) + spec_u64_to_le_bytes(s.total_claimed)
}

/// The state account that `b` holds, if it has the length of one.
pub open spec fn state_from_bytes(b: Seq<u8>) -> Option<StateAccount> {
    if b.len() == 47 {
        Some(StateAccount {
            discriminator: b[0],
            bump: b[1],
            prev_height: b[2],
            last_height: b[3],
            next_height: b[4],
            accummulated_depth: spec_u16_from_le_bytes(b.subrange(5, 7)),
            last_value: spec_u64_from_le_bytes(b.subrange(7, 15)),
            next_value: spec_u64_from_le_bytes(b.subrange(15, 23)),
            last_slot: spec_u64_from_le_bytes(b.subrange(23, 31)),
            total_contributions: spec_u64_from_le_bytes(b.subrange(31, 39)),
            total_claimed: spec_u64_from_le_bytes(b.subrange(39, 47)),
        })
    } else {
        None
    }
}

impl StateAccount {
    pub const LEN: usize = 1 * 5 + 2 * 1 + 8 * 5;

    pub const DISCRIMINATOR: usize = 0;

    pub const TARGET: usize = 60 * 1000 * 1 / 400;

    pub const RESET: u64 = 0;

    pub const CLAIM_MINT: u64 = 1_000_000_000;

    pub const INIT_VALUE: u64 = 1_000_000;

    /// The depth that `count` waiting steps reach, by `depth_curve`.
    pub fn get_depth(count: u64) -> (depth: u8)
        ensures
            depth == depth_curve(count),
    {
        let depth = if count >= 144 {
            64
        } else if count >= 133 {
            (count - 133) + 53
        } else if count >= 69 {
            (count - 69) / 2 + 21
        } else if count >= 21 {
            (count - 21) / 3 + 5
        } else if count >= 9 {
            (count - 9) / 4 + 1
        } else if count > 5 {
            1
        } else {
            0
        } as u8;
        return depth;
    }

    /// The outcome of an update at `slot`, computed without changing `self`;
    /// `None` where `update_step` has none.
    pub fn update_outcome(&self, slot: u64) -> (r: Option<(StateAccount, (u64, u64, u64))>)
        ensures
            r == update_step(*self, slot),
    {
        if slot < self.last_slot {
            return None;
        }
        let distance = slot - self.last_slot;
        let count: u64 = distance / (StateAccount::TARGET as u64);
        let depth = StateAccount::get_depth(count);
        assert(count == waiting_count(*self, slot));
        let multiplier: u64 = if self.next_value <= 10 { 4 } else { 2 };
        let off_set: u64 = if self.next_value <= 100 { 1 } else { 0 };
        if count > u64::MAX / StateAccount::CLAIM_MINT {
            return None;
        }
        let pool_mint = count * StateAccount::CLAIM_MINT;
        let (current_value, current_height, next_value, next_height) = if self.next_height == 0 {
            (0u64, self.next_height, 1_000_000u64, 1u8)
        } else if depth == 0 {
            let wide = self.next_value as u128 * multiplier as u128;
            if wide > u64::MAX as u128 || self.next_height == u8::MAX {
                return None;
            }
            (self.next_value, self.next_height, self.next_value * multiplier, self.next_height + 1)
        } else if self.next_height > depth {
            if depth >= 64 {
                return None;
            }
            let shifted = self.next_value >> depth;
            if shifted < off_set {
                return None;
            }
            let value = shifted - off_set;
            proof {
                lemma_product_fits(value, depth as u64);
            }
            let product = value as u128 * depth as u128;
            if product > u64::MAX as u128 || value > u64::MAX / 2 {
                return None;
            }
            let grown = value as u128 + product / 100;
            if grown > u64::MAX as u128 {
                return None;
            }
            let current_height = self.next_height - depth;
            if current_height == u8::MAX {
                return None;
            }
            (value + value * depth as u64 / 100, current_height, value * 2, current_height + 1)
        } else {
            if self.next_height >= 64 {
                return None;
            }
            let shifted = self.next_value >> self.next_height;
            if shifted < off_set {
                return None;
            }
            let value = shifted - off_set;
            proof {
                lemma_product_fits(value, self.next_height as u64);
            }
            let product = value as u128 * self.next_height as u128;
            if product > u64::MAX as u128 {
                return None;
            }
            let grown = value as u128 + product / 100;
            if grown > u64::MAX as u128 {
                return None;
            }
            (0u64, 0u8, value + value * self.next_height as u64 / 100, 1u8)
        };
        if self.accummulated_depth as u32 + depth as u32 > u16::MAX as u32
            || self.total_claimed > u64::MAX - StateAccount::CLAIM_MINT
            || self.total_contributions > u64::MAX - current_value {
            return None;
        }
        let next = StateAccount {
            discriminator: self.discriminator,
            bump: self.bump,
            prev_height: next_height,
            last_height: current_height,
            next_height,
            accummulated_depth: self.accummulated_depth + depth as u16,
            last_value: current_value,
            next_value,
            last_slot: slot,
            total_contributions: self.total_contributions + current_value,
            total_claimed: self.total_claimed + StateAccount::CLAIM_MINT,
        };
        Some((next, (current_value, StateAccount::CLAIM_MINT, pool_mint)))
    }

    /// Updates the state for a claim at the slot that the `Clock` sysvar
    /// reports, records that slot as `last_slot`, and hands back (price paid,
    /// tokens claimed, tokens minted to the pool). Where the clock cannot be read its error comes back, and
    /// where the rules leave the range of their types, `ArithmeticOverflow`;
    /// in both cases the state is unchanged.
    pub fn update(&mut self) -> (r: Result<(u64, u64, u64), ProgramFailure>)
        ensures
            r is Ok ==> exists|slot: u64|
                #[trigger] update_step(*old(self), slot) is Some
                    && update_step(*old(self), slot).unwrap() == (*final(self), r->Ok_0),
            r is Ok ==> update_step(*old(self), final(self).last_slot) == Some((*final(self), r->Ok_0)),
            r is Err ==> *final(self) == *old(self),
            r == Err::<(u64, u64, u64), ProgramFailure>(ProgramFailure::ArithmeticOverflow) ==> exists|slot: u64|
                #[trigger] update_step(*old(self), slot) is None,
            r is Err ==> (r == Err::<(u64, u64, u64), ProgramFailure>(ProgramFailure::ArithmeticOverflow)
                || r matches Err(ProgramFailure::Runtime(_))),
    {
        let slot = match current_slot() {
            Ok(slot) => slot,
            Err(code) => return Err(ProgramFailure::Runtime(code)),
        };
        match self.update_outcome(slot) {
            Some((next, out)) => {
                *self = next;
                Ok(out)
            },
            None => Err(ProgramFailure::ArithmeticOverflow),
        }
    }

    /// The account's bytes, in the layout `state_bytes`.
    pub fn serialize(&self) -> (r: Vec<u8>)
        ensures
            r@ == state_bytes(*self),
            r@.len() == Self::LEN,
    {
        proof {
            vstd::bytes::lemma_auto_spec_u64_to_from_le_bytes();
            vstd::bytes::lemma_auto_spec_u16_to_from_le_bytes();
        }
        let mut out: Vec<u8> = Vec::new();
        out.push(self.discriminator);
        out.push(self.bump);
        out.push(self.prev_height);
        out.push(self.last_height);
        out.push(self.next_height);
        let mut d = u16_to_le_bytes(self.accummulated_depth);
        out.append(&mut d);
        let mut a = u64_to_le_bytes(self.last_value);
        out.append(&mut a);
        let mut b = u64_to_le_bytes(self.next_value);
        out.append(&mut b);
        let mut c = u64_to_le_bytes(self.last_slot);
        out.append(&mut c);
        let mut e = u64_to_le_bytes(self.total_contributions);
        out.append(&mut e);
        let mut f = u64_to_le_bytes(self.total_claimed);
        out.append(&mut f);
        assert(out@ =~= state_bytes(*self));
        out
    }

    /// Reads a state account from exactly `LEN` bytes; any other length is a
    /// `BorshIoError`.
    pub fn try_from_slice(data: &[u8]) -> (r: Result<StateAccount, ProgramFailure>)
        ensures
            match state_from_bytes(data@) {
                Some(s) => r == Ok::<StateAccount, ProgramFailure>(s),
                None => r == Err::<StateAccount, ProgramFailure>(ProgramFailure::BorshIoError),
            },
    {
        if data.len() != 47 {
            return Err(ProgramFailure::BorshIoError);
        }
        let accummulated_depth = u16_from_le_bytes(vstd::slice::slice_subrange(data, 5, 7));
        let last_value = u64_from_le_bytes(vstd::slice::slice_subrange(data, 7, 15));
        let next_value = u64_from_le_bytes(vstd::slice::slice_subrange(data, 15, 23));
        let last_slot = u64_from_le_bytes(vstd::slice::slice_subrange(data, 23, 31));
        let total_contributions = u64_from_le_bytes(vstd::slice::slice_subrange(data, 31, 39));
        let total_claimed = u64_from_le_bytes(vstd::slice::slice_subrange(data, 39, 47));
        Ok(StateAccount {
            discriminator: data[0],
            bump: data[1],
            prev_height: data[2],
            last_height: data[3],
            next_height: data[4],
            accummulated_depth,
            last_value,
            next_value,
            last_slot,
            total_contributions,
            total_claimed,
        })
    }
}

/// The depth never falls as the waiting time grows, stays within 0..=64, is 0
/// for up to 5 waiting steps and 64 from 144 steps on.
pub proof fn lemma_depth_curve_monotone(c1: u64, c2: u64)
    requires
        c1 <= c2,
    ensures
        depth_curve(c1) <= depth_curve(c2),
        depth_curve(c2) <= 64,
        c1 <= 5 ==> depth_curve(c1) == 0,
        c2 >= 144 ==> depth_curve(c2) == 64,
{
}

/// Reading back the bytes of a state account gives that account, and the
/// bytes have the account's length.
pub proof fn lemma_state_bytes_roundtrip(s: StateAccount)
    ensures
        state_bytes(s).len() == StateAccount::LEN,
        state_from_bytes(state_bytes(s)) == Some(s),
{
    vstd::bytes::lemma_auto_spec_u64_to_from_le_bytes();
    vstd::bytes::lemma_auto_spec_u16_to_from_le_bytes();
    let b = state_bytes(s);
    assert(b.subrange(5, 7) =~= spec_u16_to_le_bytes(s.accummulated_depth));
    assert(b.subrange(7, 15) =~= spec_u64_to_le_bytes(s.last_value));
    assert(b.subrange(15, 23) =~= spec_u64_to_le_bytes(s.next_value));
    assert(b.subrange(23, 31) =~= spec_u64_to_le_bytes(s.last_slot));
    assert(b.subrange(31, 39) =~= spec_u64_to_le_bytes(s.total_contributions));
    assert(b.subrange(39, 47) =~= spec_u64_to_le_bytes(s.total_claimed));
}

/// Every byte string that reads as a state account is that account's own
/// bytes.
pub proof fn lemma_state_bytes_canonical(b: Seq<u8>)
    requires
        state_from_bytes(b) is Some,
    ensures
        state_bytes(state_from_bytes(b).unwrap()) == b,
{
    vstd::bytes::lemma_auto_spec_u64_to_from_le_bytes();
    vstd::bytes::lemma_auto_spec_u16_to_from_le_bytes();
    let s = state_from_bytes(b).unwrap();
    assert(spec_u16_to_le_bytes(s.accummulated_depth) == b.subrange(5, 7));
    assert(spec_u64_to_le_bytes(s.last_value) == b.subrange(7, 15));
    assert(spec_u64_to_le_bytes(s.next_value) == b.subrange(15, 23));
    assert(spec_u64_to_le_bytes(s.last_slot) == b.subrange(23, 31));
    assert(spec_u64_to_le_bytes(s.total_contributions) == b.subrange(31, 39));
    assert(spec_u64_to_le_bytes(s.total_claimed) == b.subrange(39, 47));
    assert(state_bytes(s) =~= b);
}

/// Every update claims `CLAIM_MINT` tokens and mints `CLAIM_MINT` for each
/// waiting step to the pool; the running totals grow by the tokens claimed,
/// by the price paid and by the depth reached; the next height is one above
/// the height claimed at and is recorded as the previous height.
pub proof fn lemma_update_accounts(s: StateAccount, slot: u64)
    requires
        update_step(s, slot) is Some,
    ensures
        ({
            let (n, (paid, claimed, pooled)) = update_step(s, slot).unwrap();
            &&& claimed == StateAccount::CLAIM_MINT
            &&& pooled == waiting_count(s, slot) * StateAccount::CLAIM_MINT
            &&& n.total_claimed == s.total_claimed + StateAccount::CLAIM_MINT
            &&& n.total_contributions == s.total_contributions + paid
            &&& n.accummulated_depth == s.accummulated_depth + depth_curve(waiting_count(s, slot))
            &&& n.last_value == paid
            &&& n.next_height == n.last_height + 1
            &&& n.prev_height == n.next_height
            &&& n.last_slot == slot
            &&& n.discriminator == s.discriminator
            &&& n.bump == s.bump
        }),
{
}

/// At height 0 the claim is free and sets the initial price for the next one.
pub proof fn lemma_update_at_height_zero(s: StateAccount, slot: u64)
    requires
        s.next_height == 0,
        update_step(s, slot) is Some,
    ensures
        update_step(s, slot).unwrap().1.0 == StateAccount::RESET,
        update_step(s, slot).unwrap().0.next_value == StateAccount::INIT_VALUE,
        update_step(s, slot).unwrap().0.next_height == 1,
{
}

/// Within five waiting steps of the last claim, above height 0, the claim
/// pays the announced price, doubles it (four-fold while it is at most 10)
/// and raises the height by one.
pub proof fn lemma_timely_update_doubles(s: StateAccount, slot: u64)
    requires
        s.next_height > 0,
        slot >= s.last_slot,
        waiting_count(s, slot) <= 5,
        update_step(s, slot) is Some,
    ensures
        ({
            let n = update_step(s, slot).unwrap().0;
            &&& update_step(s, slot).unwrap().1.0 == s.next_value
            &&& n.next_value == (if s.next_value <= 10 { 4 * s.next_value } else { 2 * s.next_value })
            &&& n.next_height == s.next_height + 1
        }),
{
}

/// After a longer wait the height falls by the depth reached, or to 0 where
/// it was not above it, and then the claim is free.
pub proof fn lemma_waiting_update_lowers_height(s: StateAccount, slot: u64)
    requires
        s.next_height > 0,
        slot >= s.last_slot,
        depth_curve(waiting_count(s, slot)) > 0,
        update_step(s, slot) is Some,
    ensures
        ({
            let n = update_step(s, slot).unwrap().0;
            let depth = depth_curve(waiting_count(s, slot));
            &&& s.next_height > depth ==> n.last_height == s.next_height - depth
            &&& s.next_height <= depth ==> n.last_height == 0 && n.last_value == 0
        }),
{
}

/// An update that lands at height 0 costs nothing.
pub proof fn lemma_update_free_at_height_zero(s: StateAccount, slot: u64)
    requires
        update_step(s, slot) is Some,
        update_step(s, slot).unwrap().0.last_height == 0,
    ensures
        update_step(s, slot).unwrap().1.0 == 0,
        update_step(s, slot).unwrap().0.last_value == 0,
{
}

} // verus!
