use vstd::prelude::*;

use crate::address::Address;
use crate::bytes::{
    has_selector, le_u16, le_u32, le_u64, read_u16_le, read_u32_le, read_u64_le, starts_with_selector,
};

verus! {

/// An instruction of the enclosing transaction: the program it targets, the
/// accounts it names, in order, and its payload.
#[derive(Clone, Debug)]
pub struct Instruction {
    pub program_id: Address,
    pub accounts: Vec<Address>,
    pub data: Vec<u8>,
}

/// What the runtime lets an instruction read of the transaction it runs in:
/// its own position, its invocation depth, and every instruction of the
/// transaction in execution order.
#[derive(Clone, Debug)]
pub struct TransactionContext {
    pub current_index: usize,
    pub stack_height: usize,
    pub instructions: Vec<Instruction>,
}

/// The invocation depth of an instruction that the transaction itself runs,
/// as opposed to one invoked by another program.
pub const TRANSACTION_LEVEL_STACK_HEIGHT: usize = 1;

impl TransactionContext {
    /// The instruction at position `i`, if the transaction has one there.
    pub open spec fn instruction_at(self, i: int) -> Option<Instruction> {
        if 0 <= i < self.instructions@.len() {
            Some(self.instructions@[i])
        } else {
            None
        }
    }

    /// The instruction `k` places after the current one, if there is one.
    pub fn instruction_after(&self, k: usize) -> (r: Option<&Instruction>)
        ensures
            r matches Some(ix) ==> self.instruction_at(self.current_index + k) == Some(*ix),
            r is None ==> self.instruction_at(self.current_index + k) is None,
    {
        let len = self.instructions.len();
        if self.current_index >= len || len - self.current_index <= k {
            None
        } else {
            Some(&self.instructions[self.current_index + k])
        }
    }
}

/// The arguments of the aggregator's shared-accounts route instruction that
/// the protocol binds.
#[derive(Clone, Copy, Debug, PartialEq, Eq, Structural)]
pub struct RouteArgs {
    pub in_amount: u64,
    pub quoted_out_amount: u64,
    pub slippage_bps: u16,
    pub platform_fee_bps: u8,
}

/// Bytes of the route payload after its route plan: input amount, quoted
/// output, slippage bound and platform fee.
pub const ROUTE_TAIL_LEN: usize = 19;

/// Offset of the route plan's four-byte step count: after the selector and
/// the one-byte route id.
pub const ROUTE_PLAN_COUNT_AT: usize = 9;

/// Offset of the first route step.
pub const ROUTE_STEPS_AT: usize = 13;

/// Bytes that close each route step after its swap variant: percent, input
/// index and output index.
pub const ROUTE_STEP_TRAILER_LEN: usize = 3;

/// Where `count` route steps starting at `at` end. Each step is a one-byte
/// swap variant tag, that variant's payload (`lens[tag]` bytes), then the
/// step trailer. `None` when a step does not start inside `data` or names a
/// tag beyond `lens`.
pub open spec fn steps_end(data: Seq<u8>, lens: Seq<u8>, at: int, count: nat) -> Option<int>
    decreases count,
{
    if count == 0 {
        Some(at)
    } else if 0 <= at < data.len() && (data[at] as int) < lens.len() {
        steps_end(
            data,
            lens,
            at + 1 + lens[data[at] as int] + ROUTE_STEP_TRAILER_LEN,
            (count - 1) as nat,
        )
    } else {
        None
    }
}

proof fn lemma_steps_end_grows(data: Seq<u8>, lens: Seq<u8>, at: int, count: nat)
    ensures
        steps_end(data, lens, at, count) matches Some(e) ==> e >= at,
    decreases count,
{
    if count > 0 && 0 <= at < data.len() && (data[at] as int) < lens.len() {
        lemma_steps_end_grows(
            data,
            lens,
            at + 1 + lens[data[at] as int] + ROUTE_STEP_TRAILER_LEN,
            (count - 1) as nat,
        );
    }
}

/// The bound arguments of a route payload, read front to back: selector,
/// one-byte route id, the step count, the steps, then the fixed-size tail,
/// which must end the payload exactly. `lens` gives the payload size of each
/// swap variant.
pub open spec fn route_args_of(data: Seq<u8>, lens: Seq<u8>) -> Option<RouteArgs> {
    if data.len() < ROUTE_STEPS_AT {
        None
    } else {
        match steps_end(data, lens, ROUTE_STEPS_AT as int, le_u32(data, ROUTE_PLAN_COUNT_AT as int) as nat) {
            None => None,
            Some(t) => if t + ROUTE_TAIL_LEN != data.len() {
                None
            } else {
                Some(
                    RouteArgs {
                        in_amount: le_u64(data, t) as u64,
                        quoted_out_amount: le_u64(data, t + 8) as u64,
                        slippage_bps: le_u16(data, t + 16) as u16,
                        platform_fee_bps: data[t + 18],
                    },
                )
            },
        }
    }
}

/// The amount argument of a finalize payload: the selector then a single
/// eight-byte amount, nothing more.
pub open spec fn finalize_amount_of(data: Seq<u8>) -> Option<u64> {
    if data.len() == 16 {
        Some(le_u64(data, 8) as u64)
    } else {
        None
    }
}

pub fn decode_route_args(data: &Vec<u8>, lens: &Vec<u8>) -> (r: Option<RouteArgs>)
    ensures
        r == route_args_of(data@, lens@),
{
    let len = data.len();
    if len < ROUTE_STEPS_AT {
        return None;
    }
    let count = read_u32_le(data, ROUTE_PLAN_COUNT_AT);
    let ghost total = steps_end(data@, lens@, ROUTE_STEPS_AT as int, count as nat);
    let mut pos: usize = ROUTE_STEPS_AT;
    let mut i: u32 = 0;
    while i < count
        invariant
            0 <= i <= count,
            pos <= len,
            len == data@.len(),
            len >= ROUTE_STEPS_AT,
            count == le_u32(data@, ROUTE_PLAN_COUNT_AT as int),
            total == steps_end(data@, lens@, ROUTE_STEPS_AT as int, count as nat),
            total == steps_end(data@, lens@, pos as int, (count - i) as nat),
        decreases count - i,
    {
        if pos >= len {
            return None;
        }
        let tag = data[pos] as usize;
        if tag >= lens.len() {
            return None;
        }
        let step = 1 + lens[tag] as usize + ROUTE_STEP_TRAILER_LEN;
        if len - pos < step {
            proof {
                lemma_steps_end_grows(data@, lens@, (pos + step) as int, (count - i - 1) as nat);
            }
            return None;
        }
        pos = pos + step;
        i = i + 1;
    }
    if len - pos != ROUTE_TAIL_LEN {
        return None;
    }
    Some(
        RouteArgs {
            in_amount: read_u64_le(data, pos),
            quoted_out_amount: read_u64_le(data, pos + 8),
            slippage_bps: read_u16_le(data, pos + 16),
            platform_fee_bps: data[pos + 18],
        },
    )
}

pub fn decode_finalize_amount(data: &Vec<u8>) -> (r: Option<u64>)
    ensures
        r == finalize_amount_of(data@),
{
    if data.len() != 16 {
        return None;
    }
    Some(read_u64_le(data, 8))
}

/// Whether `ix` targets `program` with the instruction selected by `sel`.
pub fn targets(ix: &Instruction, program: Address, sel: &[u8; 8]) -> (r: bool)
    ensures
        r == (ix.program_id == program && has_selector(ix.data@, sel@)),
{
    ix.program_id == program && starts_with_selector(&ix.data, sel)
}

/// Whether `ix` names `key` as its account at position `pos`.
pub fn account_is(ix: &Instruction, pos: usize, key: Address) -> (r: bool)
    ensures
        r == (pos < ix.accounts@.len() && ix.accounts@[pos as int] == key),
{
    pos < ix.accounts.len() && ix.accounts[pos] == key
}

} // verus!
