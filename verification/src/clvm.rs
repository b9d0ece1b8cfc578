//! The boundary to the `clvmr` program evaluator.
//!
//! Everything in this module is a statement about `clvmr` (or `bitflags`, which
//! generates the methods of `clvmr`'s flag type) that the verifier takes on
//! trust. Each item names the outside item it speaks of; none of them is proved.

use clvmr::allocator::Allocator;
use clvmr::chia_dialect::ClvmFlags;
use vstd::prelude::*;

verus! {

/// Makes `clvmr::chia_dialect::ClvmFlags` known to the verifier as an opaque type.
#[verifier::external_type_specification]
#[verifier::external_body]
pub struct ExClvmFlags(ClvmFlags);

/// Makes `clvmr::allocator::Allocator` known to the verifier as an opaque type.
#[verifier::external_type_specification]
#[verifier::external_body]
pub struct ExAllocator(Allocator);

/// The bit pattern held by an evaluator flag set: what `ClvmFlags::bits` returns.
pub uninterp spec fn clvm_flag_bits(flags: ClvmFlags) -> u32;

/// The heap ceiling that an allocator was created with: the argument that
/// `Allocator::new_limited` received.
pub uninterp spec fn allocator_heap_limit(allocator: Allocator) -> usize;

/// Trusted: `ClvmFlags::empty` returns the flag set with no bit set.
pub assume_specification[ ClvmFlags::empty ]() -> (r: ClvmFlags)
    ensures
        clvm_flag_bits(r) == 0,
;

/// Trusted: `ClvmFlags::all` returns the union of every flag that the evaluator
/// defines. These are the seven flags whose bits are stated below, so the union
/// is the bit pattern `0x0f07`.
pub assume_specification[ ClvmFlags::all ]() -> (r: ClvmFlags)
    ensures
        clvm_flag_bits(r) == 0x0f07,
;

/// Trusted: `ClvmFlags::contains` is true exactly when every bit of `other` is
/// also set in `flags`.
pub assume_specification[ ClvmFlags::contains ](flags: &ClvmFlags, other: ClvmFlags) -> (r: bool)
    ensures
        r == (clvm_flag_bits(*flags) & clvm_flag_bits(other) == clvm_flag_bits(other)),
;

/// Trusted: `ClvmFlags::insert` replaces the flag set by its bitwise union with
/// `other`.
pub assume_specification[ ClvmFlags::insert ](flags: &mut ClvmFlags, other: ClvmFlags)
    ensures
        clvm_flag_bits(*final(flags)) == clvm_flag_bits(*old(flags)) | clvm_flag_bits(other),
;

/// Trusted: `ClvmFlags::CANONICAL_INTS` is the single bit `0x0001`.
#[verifier::external_body]
pub(crate) fn clvm_canonical_ints() -> (r: ClvmFlags)
    ensures
        clvm_flag_bits(r) == 0x0001,
{
    ClvmFlags::CANONICAL_INTS
}

/// Trusted: `ClvmFlags::NO_UNKNOWN_OPS` is the single bit `0x0002`.
#[verifier::external_body]
pub(crate) fn clvm_no_unknown_ops() -> (r: ClvmFlags)
    ensures
        clvm_flag_bits(r) == 0x0002,
{
    ClvmFlags::NO_UNKNOWN_OPS
}

/// Trusted: `ClvmFlags::LIMIT_HEAP` is the single bit `0x0004`.
#[verifier::external_body]
pub(crate) fn clvm_limit_heap() -> (r: ClvmFlags)
    ensures
        clvm_flag_bits(r) == 0x0004,
{
    ClvmFlags::LIMIT_HEAP
}

/// Trusted: `ClvmFlags::ENABLE_KECCAK_OPS_OUTSIDE_GUARD` is the single bit `0x0100`.
#[verifier::external_body]
pub(crate) fn clvm_enable_keccak_ops_outside_guard() -> (r: ClvmFlags)
    ensures
        clvm_flag_bits(r) == 0x0100,
{
    ClvmFlags::ENABLE_KECCAK_OPS_OUTSIDE_GUARD
}

/// Trusted: `ClvmFlags::DISABLE_OP` is the single bit `0x0200`.
#[verifier::external_body]
pub(crate) fn clvm_disable_op() -> (r: ClvmFlags)
    ensures
        clvm_flag_bits(r) == 0x0200,
{
    ClvmFlags::DISABLE_OP
}

/// Trusted: `ClvmFlags::ENABLE_SHA256_TREE` is the single bit `0x0400`.
#[verifier::external_body]
pub(crate) fn clvm_enable_sha256_tree() -> (r: ClvmFlags)
    ensures
        clvm_flag_bits(r) == 0x0400,
{
    ClvmFlags::ENABLE_SHA256_TREE
}

/// Trusted: `ClvmFlags::ENABLE_SECP_OPS` is the single bit `0x0800`.
#[verifier::external_body]
pub(crate) fn clvm_enable_secp_ops() -> (r: ClvmFlags)
    ensures
        clvm_flag_bits(r) == 0x0800,
{
    ClvmFlags::ENABLE_SECP_OPS
}

/// Trusted: `clvmr::MEMPOOL_MODE` is the union of `NO_UNKNOWN_OPS`, `LIMIT_HEAP`,
/// `DISABLE_OP` and `CANONICAL_INTS`, that is the bit pattern `0x0207`.
#[verifier::external_body]
pub(crate) fn clvm_mempool_mode() -> (r: ClvmFlags)
    ensures
        clvm_flag_bits(r) == 0x0207,
{
    clvmr::MEMPOOL_MODE
}

/// Trusted: `Allocator::new_limited` returns an allocator whose heap ceiling is
/// the argument. The outside function panics on a ceiling above `u32::MAX`, and
/// subtracts one from the ceiling, so zero is left out as well.
#[verifier::external_body]
pub(crate) fn allocator_new_limited(heap_limit: usize) -> (r: Allocator)
    requires
        1 <= heap_limit <= u32::MAX,
    ensures
        allocator_heap_limit(r) == heap_limit,
{
    Allocator::new_limited(heap_limit)
}

} // verus!
