//! The heap policy: how large an arena the evaluator gets for one validation
//! call.

use crate::clvm::{allocator_heap_limit, allocator_new_limited};
use crate::flags::{ConsensusFlags, LIMIT_HEAP};
use clvmr::allocator::Allocator;
use vstd::prelude::*;

verus! {

/// The heap ceiling, in bytes, under `LIMIT_HEAP`.
pub const LIMITED_HEAP_SIZE: usize = 500_000_000;

/// The heap ceiling without `LIMIT_HEAP`: the largest heap that the arena's
/// 32-bit node indices can address.
pub const MAX_HEAP_SIZE: usize = 0xffff_ffff;

/// The heap ceiling that the flags with the bits `flag_bits` ask for.
pub open spec fn heap_ceiling(flag_bits: u32) -> usize {
    if flag_bits & LIMIT_HEAP == LIMIT_HEAP {
        LIMITED_HEAP_SIZE
    } else {
        MAX_HEAP_SIZE
    }
}

/// Creates the arena for one validation call. With `LIMIT_HEAP` set its heap is
/// capped at `LIMITED_HEAP_SIZE`, so that an untrusted program cannot exhaust
/// memory; otherwise only the addressable maximum bounds it.
pub fn make_allocator(flags: ConsensusFlags) -> (r: Allocator)
    ensures
        allocator_heap_limit(r) == heap_ceiling(flags@),
{
    if flags.contains(ConsensusFlags::limit_heap()) {
        allocator_new_limited(LIMITED_HEAP_SIZE)
    } else {
        allocator_new_limited(MAX_HEAP_SIZE)
    }
}

} // verus!
