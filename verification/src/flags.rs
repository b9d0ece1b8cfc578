//! The rule configuration that is threaded through one validation call.
//!
//! A [`ConsensusFlags`] value is a 32-bit mask. Its lower half mirrors the flags
//! of the program evaluator bit for bit; its upper half holds the flags that
//! only consensus knows. The masks of the single flags are the `u32` constants
//! of this module; the flag sets themselves are built by the accessors of
//! [`ConsensusFlags`].

use crate::clvm::{
    clvm_canonical_ints, clvm_disable_op, clvm_enable_keccak_ops_outside_guard,
    clvm_enable_secp_ops, clvm_enable_sha256_tree, clvm_flag_bits, clvm_limit_heap,
    clvm_mempool_mode, clvm_no_unknown_ops,
};
use clvmr::chia_dialect::ClvmFlags;
use vstd::prelude::*;

verus! {

/// Integers handed to operators must use their canonical representation.
pub const CANONICAL_INTS: u32 = 0x0001;

/// Unknown operators are rejected by the evaluator.
pub const NO_UNKNOWN_OPS: u32 = 0x0002;

/// The evaluator's heap is capped.
pub const LIMIT_HEAP: u32 = 0x0004;

/// The keccak256 operator is available outside the softfork guard.
pub const ENABLE_KECCAK_OPS_OUTSIDE_GUARD: u32 = 0x0100;

/// The operator-disabling rule of the evaluator is active.
pub const DISABLE_OP: u32 = 0x0200;

/// The sha256tree operator is available outside the softfork guard.
pub const ENABLE_SHA256_TREE: u32 = 0x0400;

/// The secp signature operators are available.
pub const ENABLE_SECP_OPS: u32 = 0x0800;

/// Signatures of signature-bearing conditions are not validated.
pub const DONT_VALIDATE_SIGNATURE: u32 = 0x1_0000;

/// Unknown condition codes are rejected (mempool mode).
pub const NO_UNKNOWN_CONDS: u32 = 0x2_0000;

/// Condition fingerprints are computed for spends eligible for dedup.
pub const COMPUTE_FINGERPRINT: u32 = 0x4_0000;

/// Conditions must carry exactly the supported number of arguments (mempool
/// mode).
pub const STRICT_ARGS_COUNT: u32 = 0x8_0000;

/// A flat cost is added to conditions.
pub const COST_CONDITIONS: u32 = 0x80_0000;

/// The simplified generator rules are active.
pub const SIMPLE_GENERATOR: u32 = 0x100_0000;

/// Every flag that the evaluator defines as well.
pub const CLVM_FLAGS: u32 = 0x0000_0f07;

/// Every flag that only consensus defines.
pub const CONSENSUS_ONLY_FLAGS: u32 = 0x018f_0000;

/// Every named flag.
pub const ALL_FLAGS: u32 = 0x018f_0f07;

/// The flags of mempool mode.
pub const MEMPOOL_MODE: u32 = 0x000a_0207;

/// The half of the mask that is shared with the evaluator.
pub const SHARED_REGION: u32 = 0x0000_ffff;

/// The half of the mask that is reserved for consensus.
pub const CONSENSUS_REGION: u32 = 0xffff_0000;

/// The number of named flags.
pub const NAMED_FLAG_COUNT: usize = 13;

/// The number of named flags that the evaluator defines as well. They come
/// first in the order of declaration.
pub const SHARED_FLAG_COUNT: usize = 7;

/// The mask of the named flag at position `index` of the order of declaration.
pub open spec fn flag_mask(index: int) -> u32 {
    if index == 0 {
        CANONICAL_INTS
    } else if index == 1 {
        NO_UNKNOWN_OPS
    } else if index == 2 {
        LIMIT_HEAP
    } else if index == 3 {
        ENABLE_KECCAK_OPS_OUTSIDE_GUARD
    } else if index == 4 {
        DISABLE_OP
    } else if index == 5 {
        ENABLE_SHA256_TREE
    } else if index == 6 {
        ENABLE_SECP_OPS
    } else if index == 7 {
        DONT_VALIDATE_SIGNATURE
    } else if index == 8 {
        NO_UNKNOWN_CONDS
    } else if index == 9 {
        COMPUTE_FINGERPRINT
    } else if index == 10 {
        STRICT_ARGS_COUNT
    } else if index == 11 {
        COST_CONDITIONS
    } else if index == 12 {
        SIMPLE_GENERATOR
    } else {
        0
    }
}

/// The name of the named flag at position `index` of the order of declaration.
pub open spec fn flag_name(index: int) -> Seq<char> {
    if index == 0 {
        "CANONICAL_INTS"@
    } else if index == 1 {
        "NO_UNKNOWN_OPS"@
    } else if index == 2 {
        "LIMIT_HEAP"@
    } else if index == 3 {
        "ENABLE_KECCAK_OPS_OUTSIDE_GUARD"@
    } else if index == 4 {
        "DISABLE_OP"@
    } else if index == 5 {
        "ENABLE_SHA256_TREE"@
    } else if index == 6 {
        "ENABLE_SECP_OPS"@
    } else if index == 7 {
        "DONT_VALIDATE_SIGNATURE"@
    } else if index == 8 {
        "NO_UNKNOWN_CONDS"@
    } else if index == 9 {
        "COMPUTE_FINGERPRINT"@
    } else if index == 10 {
        "STRICT_ARGS_COUNT"@
    } else if index == 11 {
        "COST_CONDITIONS"@
    } else if index == 12 {
        "SIMPLE_GENERATOR"@
    } else {
        Seq::empty()
    }
}

/// The bit position of the named flag at position `index` of the order of
/// declaration.
pub open spec fn flag_position(index: int) -> u32 {
    if index == 0 {
        0
    } else if index == 1 {
        1
    } else if index == 2 {
        2
    } else if index == 3 {
        8
    } else if index == 4 {
        9
    } else if index == 5 {
        10
    } else if index == 6 {
        11
    } else if index == 7 {
        16
    } else if index == 8 {
        17
    } else if index == 9 {
        18
    } else if index == 10 {
        19
    } else if index == 11 {
        23
    } else if index == 12 {
        24
    } else {
        32
    }
}

/// The mask of the flag called `name`, if there is one.
pub open spec fn flag_by_name(name: Seq<char>) -> Option<u32> {
    if name == "CANONICAL_INTS"@ {
        Some(CANONICAL_INTS)
    } else if name == "NO_UNKNOWN_OPS"@ {
        Some(NO_UNKNOWN_OPS)
    } else if name == "LIMIT_HEAP"@ {
        Some(LIMIT_HEAP)
    } else if name == "ENABLE_KECCAK_OPS_OUTSIDE_GUARD"@ {
        Some(ENABLE_KECCAK_OPS_OUTSIDE_GUARD)
    } else if name == "DISABLE_OP"@ {
        Some(DISABLE_OP)
    } else if name == "ENABLE_SHA256_TREE"@ {
        Some(ENABLE_SHA256_TREE)
    } else if name == "ENABLE_SECP_OPS"@ {
        Some(ENABLE_SECP_OPS)
    } else if name == "DONT_VALIDATE_SIGNATURE"@ {
        Some(DONT_VALIDATE_SIGNATURE)
    } else if name == "NO_UNKNOWN_CONDS"@ {
        Some(NO_UNKNOWN_CONDS)
    } else if name == "COMPUTE_FINGERPRINT"@ {
        Some(COMPUTE_FINGERPRINT)
    } else if name == "STRICT_ARGS_COUNT"@ {
        Some(STRICT_ARGS_COUNT)
    } else if name == "COST_CONDITIONS"@ {
        Some(COST_CONDITIONS)
    } else if name == "SIMPLE_GENERATOR"@ {
        Some(SIMPLE_GENERATOR)
    } else {
        None
    }
}

/// Whether the flag at position `index` of the order of declaration is set in
/// the mask `bits`.
pub open spec fn has_flag(bits: u32, index: int) -> bool {
    bits & flag_mask(index) == flag_mask(index)
}

/// The consensus bits that stand for the evaluator bits `clvm_bits`: each flag
/// that both sides define is carried over, nothing else is set.
pub open spec fn from_clvm_bits(clvm_bits: u32) -> u32 {
    clvm_bits & CLVM_FLAGS
}

/// The evaluator bits that stand for the consensus bits `bits`: each flag that
/// both sides define is carried over, the consensus-only flags are dropped.
pub open spec fn to_clvm_bits(bits: u32) -> u32 {
    bits & CLVM_FLAGS
}

/// The flags of mempool mode, given the bits of the evaluator's own mempool
/// mode: the evaluator's flags carried over, together with the rejection of
/// unknown conditions and the strict argument count.
pub open spec fn mempool_mode_bits(clvm_mempool_bits: u32) -> u32 {
    (from_clvm_bits(clvm_mempool_bits) | NO_UNKNOWN_CONDS) | STRICT_ARGS_COUNT
}

/// A set of rule flags, held as a bit mask. Bits without a name may be set;
/// they mean nothing to any rule.
#[derive(Debug, Clone, Copy, PartialEq, Eq, Structural)]
pub struct ConsensusFlags {
    bits: u32,
}

impl View for ConsensusFlags {
    type V = u32;

    closed spec fn view(&self) -> u32 {
        self.bits
    }
}

/// A flag together with its name.
#[derive(Debug, Clone, Copy)]
pub struct NamedFlag {
    pub name: &'static str,
    pub value: ConsensusFlags,
}

impl NamedFlag {
    /// The name of the flag.
    pub fn name(&self) -> (r: &'static str)
        ensures
            r@ == self.name@,
    {
        self.name
    }

    /// The set that holds the flag alone.
    pub fn value(&self) -> (r: &ConsensusFlags)
        ensures
            *r == self.value,
    {
        &self.value
    }
}

/// Trusted: `==` on `str` compares the two strings character by character.
#[verifier::external_body]
fn str_eq(a: &str, b: &str) -> (r: bool)
    ensures
        r == (a@ == b@),
{
    a == b
}

impl ConsensusFlags {
    /// True when every bit of `mask` is set in this value.
    pub open spec fn has(self, mask: u32) -> bool {
        self@ & mask == mask
    }

    /// Two flag sets with the same bits are the same value.
    pub proof fn lemma_view_injective(self, other: ConsensusFlags)
        ensures
            self@ == other@ <==> self == other,
    {
    }

    /// The set without any flag.
    pub fn empty() -> (r: ConsensusFlags)
        ensures
            r@ == 0,
    {
        ConsensusFlags { bits: 0 }
    }

    /// The set of every named flag.
    pub fn all() -> (r: ConsensusFlags)
        ensures
            r@ == ALL_FLAGS,
    {
        ConsensusFlags { bits: ALL_FLAGS }
    }

    /// The set that holds `CANONICAL_INTS` alone.
    pub fn canonical_ints() -> (r: ConsensusFlags)
        ensures
            r@ == CANONICAL_INTS,
    {
        ConsensusFlags { bits: CANONICAL_INTS }
    }

    /// The set that holds `NO_UNKNOWN_OPS` alone.
    pub fn no_unknown_ops() -> (r: ConsensusFlags)
        ensures
            r@ == NO_UNKNOWN_OPS,
    {
        ConsensusFlags { bits: NO_UNKNOWN_OPS }
    }

    /// The set that holds `LIMIT_HEAP` alone.
    pub fn limit_heap() -> (r: ConsensusFlags)
        ensures
            r@ == LIMIT_HEAP,
    {
        ConsensusFlags { bits: LIMIT_HEAP }
    }

    /// The set that holds `ENABLE_KECCAK_OPS_OUTSIDE_GUARD` alone.
    pub fn enable_keccak_ops_outside_guard() -> (r: ConsensusFlags)
        ensures
            r@ == ENABLE_KECCAK_OPS_OUTSIDE_GUARD,
    {
        ConsensusFlags { bits: ENABLE_KECCAK_OPS_OUTSIDE_GUARD }
    }

    /// The set that holds `DISABLE_OP` alone.
    pub fn disable_op() -> (r: ConsensusFlags)
        ensures
            r@ == DISABLE_OP,
    {
        ConsensusFlags { bits: DISABLE_OP }
    }

    /// The set that holds `ENABLE_SHA256_TREE` alone.
    pub fn enable_sha256_tree() -> (r: ConsensusFlags)
        ensures
            r@ == ENABLE_SHA256_TREE,
    {
        ConsensusFlags { bits: ENABLE_SHA256_TREE }
    }

    /// The set that holds `ENABLE_SECP_OPS` alone.
    pub fn enable_secp_ops() -> (r: ConsensusFlags)
        ensures
            r@ == ENABLE_SECP_OPS,
    {
        ConsensusFlags { bits: ENABLE_SECP_OPS }
    }

    /// The set that holds `DONT_VALIDATE_SIGNATURE` alone.
    pub fn dont_validate_signature() -> (r: ConsensusFlags)
        ensures
            r@ == DONT_VALIDATE_SIGNATURE,
    {
        ConsensusFlags { bits: DONT_VALIDATE_SIGNATURE }
    }

    /// The set that holds `NO_UNKNOWN_CONDS` alone.
    pub fn no_unknown_conds() -> (r: ConsensusFlags)
        ensures
            r@ == NO_UNKNOWN_CONDS,
    {
        ConsensusFlags { bits: NO_UNKNOWN_CONDS }
    }

    /// The set that holds `COMPUTE_FINGERPRINT` alone.
    pub fn compute_fingerprint() -> (r: ConsensusFlags)
        ensures
            r@ == COMPUTE_FINGERPRINT,
    {
        ConsensusFlags { bits: COMPUTE_FINGERPRINT }
    }

    /// The set that holds `STRICT_ARGS_COUNT` alone.
    pub fn strict_args_count() -> (r: ConsensusFlags)
        ensures
            r@ == STRICT_ARGS_COUNT,
    {
        ConsensusFlags { bits: STRICT_ARGS_COUNT }
    }

    /// The set that holds `COST_CONDITIONS` alone.
    pub fn cost_conditions() -> (r: ConsensusFlags)
        ensures
            r@ == COST_CONDITIONS,
    {
        ConsensusFlags { bits: COST_CONDITIONS }
    }

    /// The set that holds `SIMPLE_GENERATOR` alone.
    pub fn simple_generator() -> (r: ConsensusFlags)
        ensures
            r@ == SIMPLE_GENERATOR,
    {
        ConsensusFlags { bits: SIMPLE_GENERATOR }
    }

    /// Every named flag with its name, in the order of declaration.
    pub fn named_flags() -> (r: Vec<NamedFlag>)
        ensures
            r@.len() == NAMED_FLAG_COUNT,
            forall|i: int|
                0 <= i < NAMED_FLAG_COUNT ==> (#[trigger] r@[i]).name@ == flag_name(i) && r@[i].value@
                    == flag_mask(i),
    {
        let mut v: Vec<NamedFlag> = Vec::new();
        v.push(NamedFlag { name: "CANONICAL_INTS", value: ConsensusFlags::canonical_ints() });
        v.push(NamedFlag { name: "NO_UNKNOWN_OPS", value: ConsensusFlags::no_unknown_ops() });
        v.push(NamedFlag { name: "LIMIT_HEAP", value: ConsensusFlags::limit_heap() });
        v.push(NamedFlag { name: "ENABLE_KECCAK_OPS_OUTSIDE_GUARD", value: ConsensusFlags::enable_keccak_ops_outside_guard() });
        v.push(NamedFlag { name: "DISABLE_OP", value: ConsensusFlags::disable_op() });
        v.push(NamedFlag { name: "ENABLE_SHA256_TREE", value: ConsensusFlags::enable_sha256_tree() });
        v.push(NamedFlag { name: "ENABLE_SECP_OPS", value: ConsensusFlags::enable_secp_ops() });
        v.push(NamedFlag { name: "DONT_VALIDATE_SIGNATURE", value: ConsensusFlags::dont_validate_signature() });
        v.push(NamedFlag { name: "NO_UNKNOWN_CONDS", value: ConsensusFlags::no_unknown_conds() });
        v.push(NamedFlag { name: "COMPUTE_FINGERPRINT", value: ConsensusFlags::compute_fingerprint() });
        v.push(NamedFlag { name: "STRICT_ARGS_COUNT", value: ConsensusFlags::strict_args_count() });
        v.push(NamedFlag { name: "COST_CONDITIONS", value: ConsensusFlags::cost_conditions() });
        v.push(NamedFlag { name: "SIMPLE_GENERATOR", value: ConsensusFlags::simple_generator() });
        v
    }

    /// The flag called `name`, if there is one.
    pub fn from_name(name: &str) -> (r: Option<ConsensusFlags>)
        ensures
            r is Some <==> flag_by_name(name@) is Some,
            r matches Some(f) ==> flag_by_name(name@) == Some(f@),
    {
        if str_eq(name, "CANONICAL_INTS") {
            Some(ConsensusFlags::canonical_ints())
        } else if str_eq(name, "NO_UNKNOWN_OPS") {
            Some(ConsensusFlags::no_unknown_ops())
        } else if str_eq(name, "LIMIT_HEAP") {
            Some(ConsensusFlags::limit_heap())
        } else if str_eq(name, "ENABLE_KECCAK_OPS_OUTSIDE_GUARD") {
            Some(ConsensusFlags::enable_keccak_ops_outside_guard())
        } else if str_eq(name, "DISABLE_OP") {
            Some(ConsensusFlags::disable_op())
        } else if str_eq(name, "ENABLE_SHA256_TREE") {
            Some(ConsensusFlags::enable_sha256_tree())
        } else if str_eq(name, "ENABLE_SECP_OPS") {
            Some(ConsensusFlags::enable_secp_ops())
        } else if str_eq(name, "DONT_VALIDATE_SIGNATURE") {
            Some(ConsensusFlags::dont_validate_signature())
        } else if str_eq(name, "NO_UNKNOWN_CONDS") {
            Some(ConsensusFlags::no_unknown_conds())
        } else if str_eq(name, "COMPUTE_FINGERPRINT") {
            Some(ConsensusFlags::compute_fingerprint())
        } else if str_eq(name, "STRICT_ARGS_COUNT") {
            Some(ConsensusFlags::strict_args_count())
        } else if str_eq(name, "COST_CONDITIONS") {
            Some(ConsensusFlags::cost_conditions())
        } else if str_eq(name, "SIMPLE_GENERATOR") {
            Some(ConsensusFlags::simple_generator())
        } else {
            None
        }
    }

    /// The underlying bit mask.
    pub fn bits(&self) -> (r: u32)
        ensures
            r == self@,
    {
        self.bits
    }

    /// The set with exactly the given bits, if none of them is unnamed.
    pub fn from_bits(bits: u32) -> (r: Option<ConsensusFlags>)
        ensures
            r is Some <==> bits & ALL_FLAGS == bits,
            r matches Some(f) ==> f@ == bits,
    {
        if bits & ALL_FLAGS == bits {
            Some(ConsensusFlags { bits })
        } else {
            None
        }
    }

    /// The set with the given bits, unnamed bits dropped.
    pub fn from_bits_truncate(bits: u32) -> (r: ConsensusFlags)
        ensures
            r@ == bits & ALL_FLAGS,
    {
        ConsensusFlags { bits: bits & ALL_FLAGS }
    }

    /// The set with exactly the given bits, named or not.
    pub fn from_bits_retain(bits: u32) -> (r: ConsensusFlags)
        ensures
            r@ == bits,
    {
        ConsensusFlags { bits }
    }

    /// Whether no bit is set.
    pub fn is_empty(&self) -> (r: bool)
        ensures
            r == (self@ == 0),
    {
        self.bits == 0
    }

    /// Whether every named flag is set.
    pub fn is_all(&self) -> (r: bool)
        ensures
            r == self.has(ALL_FLAGS),
    {
        self.bits & ALL_FLAGS == ALL_FLAGS
    }

    /// Whether the two sets share a bit.
    pub fn intersects(&self, other: ConsensusFlags) -> (r: bool)
        ensures
            r == (self@ & other@ != 0),
    {
        self.bits & other.bits != 0
    }

    /// Whether every bit of `other` is set in this value.
    pub fn contains(&self, other: ConsensusFlags) -> (r: bool)
        ensures
            r == self.has(other@),
    {
        self.bits & other.bits == other.bits
    }

    /// The bits set in either value.
    pub fn union(self, other: ConsensusFlags) -> (r: ConsensusFlags)
        ensures
            r@ == self@ | other@,
    {
        ConsensusFlags { bits: self.bits | other.bits }
    }

    /// The bits set in both values.
    pub fn intersection(self, other: ConsensusFlags) -> (r: ConsensusFlags)
        ensures
            r@ == self@ & other@,
    {
        ConsensusFlags { bits: self.bits & other.bits }
    }

    /// The bits set in this value and not in `other`.
    pub fn difference(self, other: ConsensusFlags) -> (r: ConsensusFlags)
        ensures
            r@ == self@ & !other@,
    {
        ConsensusFlags { bits: self.bits & !other.bits }
    }

    /// The bits set in exactly one of the two values.
    pub fn symmetric_difference(self, other: ConsensusFlags) -> (r: ConsensusFlags)
        ensures
            r@ == self@ ^ other@,
    {
        ConsensusFlags { bits: self.bits ^ other.bits }
    }

    /// The named flags that are not set in this value.
    pub fn complement(self) -> (r: ConsensusFlags)
        ensures
            r@ == !self@ & ALL_FLAGS,
    {
        ConsensusFlags { bits: !self.bits & ALL_FLAGS }
    }

    /// Sets the bits of `other`.
    pub fn insert(&mut self, other: ConsensusFlags)
        ensures
            final(self)@ == old(self)@ | other@,
    {
        self.bits = self.bits | other.bits;
    }

    /// Clears the bits of `other`.
    pub fn remove(&mut self, other: ConsensusFlags)
        ensures
            final(self)@ == old(self)@ & !other@,
    {
        self.bits = self.bits & !other.bits;
    }

    /// Flips the bits of `other`.
    pub fn toggle(&mut self, other: ConsensusFlags)
        ensures
            final(self)@ == old(self)@ ^ other@,
    {
        self.bits = self.bits ^ other.bits;
    }

    /// Sets the bits of `other` when `value` is true, clears them otherwise.
    pub fn set(&mut self, other: ConsensusFlags, value: bool)
        ensures
            value ==> final(self)@ == old(self)@ | other@,
            !value ==> final(self)@ == old(self)@ & !other@,
    {
        if value {
            self.insert(other);
        } else {
            self.remove(other);
        }
    }

    /// Converts the evaluator's flags to consensus flags: for each flag of the
    /// evaluator that is set, the consensus flag of the same name is set.
    /// Consensus-only flags are left clear.
    pub fn from_clvm_flags(clvm: ClvmFlags) -> (r: ConsensusFlags)
        ensures
            r@ == from_clvm_bits(clvm_flag_bits(clvm)),
            r@ & CONSENSUS_REGION == 0,
    {
        let ghost source = clvm_flag_bits(clvm);
        let ghost mut seen: u32 = 0;
        let mut out = ConsensusFlags::empty();
        proof {
            lemma_collect_all(source);
            lemma_clvm_round_trip(source);
        }
        if clvm.contains(clvm_canonical_ints()) {
            out = out.union(ConsensusFlags::canonical_ints());
        }
        proof {
            lemma_collect_flag(source, seen, CANONICAL_INTS);
            seen = seen | CANONICAL_INTS;
        }
        if clvm.contains(clvm_no_unknown_ops()) {
            out = out.union(ConsensusFlags::no_unknown_ops());
        }
        proof {
            lemma_collect_flag(source, seen, NO_UNKNOWN_OPS);
            seen = seen | NO_UNKNOWN_OPS;
        }
        if clvm.contains(clvm_limit_heap()) {
            out = out.union(ConsensusFlags::limit_heap());
        }
        proof {
            lemma_collect_flag(source, seen, LIMIT_HEAP);
            seen = seen | LIMIT_HEAP;
        }
        if clvm.contains(clvm_enable_keccak_ops_outside_guard()) {
            out = out.union(ConsensusFlags::enable_keccak_ops_outside_guard());
        }
        proof {
            lemma_collect_flag(source, seen, ENABLE_KECCAK_OPS_OUTSIDE_GUARD);
            seen = seen | ENABLE_KECCAK_OPS_OUTSIDE_GUARD;
        }
        if clvm.contains(clvm_disable_op()) {
            out = out.union(ConsensusFlags::disable_op());
        }
        proof {
            lemma_collect_flag(source, seen, DISABLE_OP);
            seen = seen | DISABLE_OP;
        }
        if clvm.contains(clvm_enable_sha256_tree()) {
            out = out.union(ConsensusFlags::enable_sha256_tree());
        }
        proof {
            lemma_collect_flag(source, seen, ENABLE_SHA256_TREE);
            seen = seen | ENABLE_SHA256_TREE;
        }
        if clvm.contains(clvm_enable_secp_ops()) {
            out = out.union(ConsensusFlags::enable_secp_ops());
        }
        proof {
            lemma_collect_flag(source, seen, ENABLE_SECP_OPS);
            seen = seen | ENABLE_SECP_OPS;
        }
        out
    }

    /// Converts to the evaluator's flags: for each shared flag that is set, the
    /// evaluator's flag of the same name is set. Consensus-only flags have no
    /// counterpart there and are dropped.
    pub fn to_clvm_flags(self) -> (r: ClvmFlags)
        ensures
            clvm_flag_bits(r) == to_clvm_bits(self@),
            clvm_flag_bits(r) & CONSENSUS_REGION == 0,
    {
        let ghost source = self@;
        let ghost mut seen: u32 = 0;
        let mut out = ClvmFlags::empty();
        proof {
            lemma_collect_all(source);
            lemma_consensus_round_trip(source);
        }
        if self.contains(ConsensusFlags::canonical_ints()) {
            out.insert(clvm_canonical_ints());
        }
        proof {
            lemma_collect_flag(source, seen, CANONICAL_INTS);
            seen = seen | CANONICAL_INTS;
        }
        if self.contains(ConsensusFlags::no_unknown_ops()) {
            out.insert(clvm_no_unknown_ops());
        }
        proof {
            lemma_collect_flag(source, seen, NO_UNKNOWN_OPS);
            seen = seen | NO_UNKNOWN_OPS;
        }
        if self.contains(ConsensusFlags::limit_heap()) {
            out.insert(clvm_limit_heap());
        }
        proof {
            lemma_collect_flag(source, seen, LIMIT_HEAP);
            seen = seen | LIMIT_HEAP;
        }
        if self.contains(ConsensusFlags::enable_keccak_ops_outside_guard()) {
            out.insert(clvm_enable_keccak_ops_outside_guard());
        }
        proof {
            lemma_collect_flag(source, seen, ENABLE_KECCAK_OPS_OUTSIDE_GUARD);
            seen = seen | ENABLE_KECCAK_OPS_OUTSIDE_GUARD;
        }
        if self.contains(ConsensusFlags::disable_op()) {
            out.insert(clvm_disable_op());
        }
        proof {
            lemma_collect_flag(source, seen, DISABLE_OP);
            seen = seen | DISABLE_OP;
        }
        if self.contains(ConsensusFlags::enable_sha256_tree()) {
            out.insert(clvm_enable_sha256_tree());
        }
        proof {
            lemma_collect_flag(source, seen, ENABLE_SHA256_TREE);
            seen = seen | ENABLE_SHA256_TREE;
        }
        if self.contains(ConsensusFlags::enable_secp_ops()) {
            out.insert(clvm_enable_secp_ops());
        }
        proof {
            lemma_collect_flag(source, seen, ENABLE_SECP_OPS);
            seen = seen | ENABLE_SECP_OPS;
        }
        out
    }

    /// The flags that only consensus defines: every named flag but those that
    /// stand for a flag of the evaluator.
    pub fn consensus_only() -> (r: ConsensusFlags)
        ensures
            r@ == CONSENSUS_ONLY_FLAGS,
    {
        proof {
            lemma_consensus_only_value();
        }
        ConsensusFlags::all().difference(ConsensusFlags::from_clvm_flags(ClvmFlags::all()))
    }
}

impl Default for ConsensusFlags {
    /// The set without any flag.
    fn default() -> (r: ConsensusFlags)
        ensures
            r@ == 0,
    {
        ConsensusFlags::empty()
    }
}

/// The rule configuration for admission to the mempool: the evaluator's mempool
/// mode, the rejection of unknown conditions and the strict argument count.
pub fn mempool_mode() -> (r: ConsensusFlags)
    ensures
        r@ == MEMPOOL_MODE,
        r@ == mempool_mode_bits(0x0207),
        r.has(NO_UNKNOWN_CONDS),
        r.has(STRICT_ARGS_COUNT),
{
    proof {
        lemma_mempool_mode_value();
        lemma_mempool_mode_is_strict(0x0207);
    }
    ConsensusFlags::from_clvm_flags(clvm_mempool_mode()).union(
        ConsensusFlags::no_unknown_conds(),
    ).union(ConsensusFlags::strict_args_count())
}

/// One step of copying the shared flags of `source` one by one: once the flags
/// in `seen` have been copied, copying the flag `mask` when `source` holds it
/// gives what `source` holds of `seen` and `mask` together.
proof fn lemma_collect_flag(source: u32, seen: u32, mask: u32)
    by (bit_vector)
    requires
        mask == CANONICAL_INTS || mask == NO_UNKNOWN_OPS || mask == LIMIT_HEAP || mask
            == ENABLE_KECCAK_OPS_OUTSIDE_GUARD || mask == DISABLE_OP || mask
            == ENABLE_SHA256_TREE || mask == ENABLE_SECP_OPS,
    ensures
        source & mask == mask ==> (source & seen) | mask == source & (seen | mask),
        source & mask != mask ==> source & seen == source & (seen | mask),
{
}

/// The shared flags, taken one by one in the order of their declaration, make
/// up `CLVM_FLAGS`; and no value holds any of an empty mask.
proof fn lemma_collect_all(source: u32)
    by (bit_vector)
    ensures
        source & 0 == 0,
        ((((((0u32 | CANONICAL_INTS) | NO_UNKNOWN_OPS) | LIMIT_HEAP)
            | ENABLE_KECCAK_OPS_OUTSIDE_GUARD) | DISABLE_OP) | ENABLE_SHA256_TREE)
            | ENABLE_SECP_OPS == CLVM_FLAGS,
{
}

proof fn lemma_consensus_only_value()
    by (bit_vector)
    ensures
        ALL_FLAGS & !(0x0f07u32 & CLVM_FLAGS) == CONSENSUS_ONLY_FLAGS,
{
}

proof fn lemma_mempool_mode_value()
    by (bit_vector)
    ensures
        ((0x0207u32 & CLVM_FLAGS) | NO_UNKNOWN_CONDS) | STRICT_ARGS_COUNT == MEMPOOL_MODE,
{
}

proof fn lemma_masks_are_single_bits()
    by (bit_vector)
    ensures
        CANONICAL_INTS == 1u32 << 0u32,
        NO_UNKNOWN_OPS == 1u32 << 1u32,
        LIMIT_HEAP == 1u32 << 2u32,
        ENABLE_KECCAK_OPS_OUTSIDE_GUARD == 1u32 << 8u32,
        DISABLE_OP == 1u32 << 9u32,
        ENABLE_SHA256_TREE == 1u32 << 10u32,
        ENABLE_SECP_OPS == 1u32 << 11u32,
        DONT_VALIDATE_SIGNATURE == 1u32 << 16u32,
        NO_UNKNOWN_CONDS == 1u32 << 17u32,
        COMPUTE_FINGERPRINT == 1u32 << 18u32,
        STRICT_ARGS_COUNT == 1u32 << 19u32,
        COST_CONDITIONS == 1u32 << 23u32,
        SIMPLE_GENERATOR == 1u32 << 24u32,
{
}

proof fn lemma_distinct_bits_disjoint(a: u32, b: u32)
    by (bit_vector)
    requires
        a < 32,
        b < 32,
        a != b,
    ensures
        (1u32 << a) & (1u32 << b) == 0,
{
}

proof fn lemma_named_conversions()
    by (bit_vector)
    ensures
        CANONICAL_INTS & CLVM_FLAGS == CANONICAL_INTS,
        NO_UNKNOWN_OPS & CLVM_FLAGS == NO_UNKNOWN_OPS,
        LIMIT_HEAP & CLVM_FLAGS == LIMIT_HEAP,
        ENABLE_KECCAK_OPS_OUTSIDE_GUARD & CLVM_FLAGS == ENABLE_KECCAK_OPS_OUTSIDE_GUARD,
        DISABLE_OP & CLVM_FLAGS == DISABLE_OP,
        ENABLE_SHA256_TREE & CLVM_FLAGS == ENABLE_SHA256_TREE,
        ENABLE_SECP_OPS & CLVM_FLAGS == ENABLE_SECP_OPS,
        DONT_VALIDATE_SIGNATURE & CLVM_FLAGS == 0,
        NO_UNKNOWN_CONDS & CLVM_FLAGS == 0,
        COMPUTE_FINGERPRINT & CLVM_FLAGS == 0,
        STRICT_ARGS_COUNT & CLVM_FLAGS == 0,
        COST_CONDITIONS & CLVM_FLAGS == 0,
        SIMPLE_GENERATOR & CLVM_FLAGS == 0,
{
}

proof fn lemma_masked_membership(bits: u32, region: u32, m: u32)
    by (bit_vector)
    ensures
        m & region == m ==> ((bits & region) & m == m <==> bits & m == m),
        m & region == 0 && m != 0 ==> (bits & region) & m != m,
{
}

proof fn lemma_bit_operations(a: u32, b: u32, k: u32)
    by (bit_vector)
    requires
        k < 32,
    ensures
        ({
            let m = 1u32 << k;
            &&& 0u32 & m != m
            &&& (a | b) & m == m <==> a & m == m || b & m == m
            &&& (a & b) & m == m <==> a & m == m && b & m == m
            &&& (a & !b) & m == m <==> a & m == m && b & m != m
            &&& (a ^ b) & m == m <==> (a & m == m) != (b & m == m)
            &&& (!a) & m == m <==> a & m != m
        }),
{
}

proof fn lemma_named_bits_of_all(a: u32, m: u32)
    by (bit_vector)
    requires
        m == CANONICAL_INTS || m == NO_UNKNOWN_OPS || m == LIMIT_HEAP || m
            == ENABLE_KECCAK_OPS_OUTSIDE_GUARD || m == DISABLE_OP || m == ENABLE_SHA256_TREE || m
            == ENABLE_SECP_OPS || m == DONT_VALIDATE_SIGNATURE || m == NO_UNKNOWN_CONDS || m
            == COMPUTE_FINGERPRINT || m == STRICT_ARGS_COUNT || m == COST_CONDITIONS || m
            == SIMPLE_GENERATOR,
    ensures
        ALL_FLAGS & m == m,
        (a & ALL_FLAGS) & m == a & m,
{
}

proof fn lemma_masks_determine(a: u32, b: u32)
    by (bit_vector)
    requires
        a & ALL_FLAGS == a,
        b & ALL_FLAGS == b,
        (a & CANONICAL_INTS == CANONICAL_INTS) == (b & CANONICAL_INTS == CANONICAL_INTS),
        (a & NO_UNKNOWN_OPS == NO_UNKNOWN_OPS) == (b & NO_UNKNOWN_OPS == NO_UNKNOWN_OPS),
        (a & LIMIT_HEAP == LIMIT_HEAP) == (b & LIMIT_HEAP == LIMIT_HEAP),
        (a & ENABLE_KECCAK_OPS_OUTSIDE_GUARD == ENABLE_KECCAK_OPS_OUTSIDE_GUARD) == (b & ENABLE_KECCAK_OPS_OUTSIDE_GUARD == ENABLE_KECCAK_OPS_OUTSIDE_GUARD),
        (a & DISABLE_OP == DISABLE_OP) == (b & DISABLE_OP == DISABLE_OP),
        (a & ENABLE_SHA256_TREE == ENABLE_SHA256_TREE) == (b & ENABLE_SHA256_TREE == ENABLE_SHA256_TREE),
        (a & ENABLE_SECP_OPS == ENABLE_SECP_OPS) == (b & ENABLE_SECP_OPS == ENABLE_SECP_OPS),
        (a & DONT_VALIDATE_SIGNATURE == DONT_VALIDATE_SIGNATURE) == (b & DONT_VALIDATE_SIGNATURE == DONT_VALIDATE_SIGNATURE),
        (a & NO_UNKNOWN_CONDS == NO_UNKNOWN_CONDS) == (b & NO_UNKNOWN_CONDS == NO_UNKNOWN_CONDS),
        (a & COMPUTE_FINGERPRINT == COMPUTE_FINGERPRINT) == (b & COMPUTE_FINGERPRINT == COMPUTE_FINGERPRINT),
        (a & STRICT_ARGS_COUNT == STRICT_ARGS_COUNT) == (b & STRICT_ARGS_COUNT == STRICT_ARGS_COUNT),
        (a & COST_CONDITIONS == COST_CONDITIONS) == (b & COST_CONDITIONS == COST_CONDITIONS),
        (a & SIMPLE_GENERATOR == SIMPLE_GENERATOR) == (b & SIMPLE_GENERATOR == SIMPLE_GENERATOR),
    ensures
        a == b,
{
}

/// Each named flag is a single bit, and no two named flags share a bit
/// position.
pub proof fn lemma_named_flags_disjoint(i: int, j: int)
    requires
        0 <= i < NAMED_FLAG_COUNT,
        0 <= j < NAMED_FLAG_COUNT,
        i != j,
    ensures
        flag_position(i) < 32,
        flag_mask(i) == 1u32 << flag_position(i),
        flag_position(i) != flag_position(j),
        flag_mask(i) & flag_mask(j) == 0,
{
    lemma_masks_are_single_bits();
    lemma_distinct_bits_disjoint(flag_position(i), flag_position(j));
}

/// The named flags fall into two disjoint groups, each within its own half of
/// the mask: those shared with the evaluator and those of consensus alone.
pub proof fn lemma_flag_regions()
    by (bit_vector)
    ensures
        CLVM_FLAGS | CONSENSUS_ONLY_FLAGS == ALL_FLAGS,
        CLVM_FLAGS & CONSENSUS_ONLY_FLAGS == 0,
        CLVM_FLAGS & SHARED_REGION == CLVM_FLAGS,
        CONSENSUS_ONLY_FLAGS & CONSENSUS_REGION == CONSENSUS_ONLY_FLAGS,
        SHARED_REGION & CONSENSUS_REGION == 0,
        (((((CANONICAL_INTS | NO_UNKNOWN_OPS) | LIMIT_HEAP) | ENABLE_KECCAK_OPS_OUTSIDE_GUARD)
            | DISABLE_OP) | ENABLE_SHA256_TREE) | ENABLE_SECP_OPS == CLVM_FLAGS,
        ((((DONT_VALIDATE_SIGNATURE | NO_UNKNOWN_CONDS) | COMPUTE_FINGERPRINT) | STRICT_ARGS_COUNT)
            | COST_CONDITIONS) | SIMPLE_GENERATOR == CONSENSUS_ONLY_FLAGS,
{
}

/// Converting the evaluator's flags to consensus flags and back is the identity
/// on the flags that both sides define, and the consensus value in between
/// holds no bit outside the shared half of the mask.
pub proof fn lemma_clvm_round_trip(clvm_bits: u32)
    by (bit_vector)
    ensures
        to_clvm_bits(from_clvm_bits(clvm_bits)) == clvm_bits & CLVM_FLAGS,
        clvm_bits & CLVM_FLAGS == clvm_bits ==> to_clvm_bits(from_clvm_bits(clvm_bits))
            == clvm_bits,
        from_clvm_bits(clvm_bits) & CONSENSUS_REGION == 0,
        from_clvm_bits(clvm_bits) & SHARED_REGION == from_clvm_bits(clvm_bits),
{
}

/// Converting consensus flags to the evaluator's flags and back keeps the
/// shared flags and drops the rest; no bit of the consensus half ever reaches
/// the evaluator.
pub proof fn lemma_consensus_round_trip(bits: u32)
    by (bit_vector)
    ensures
        from_clvm_bits(to_clvm_bits(bits)) == bits & CLVM_FLAGS,
        to_clvm_bits(bits) & CONSENSUS_REGION == 0,
        to_clvm_bits(bits & CONSENSUS_REGION) == 0,
        to_clvm_bits(bits) == to_clvm_bits(bits & SHARED_REGION),
{
}

/// Each flag that both sides define is converted to the flag of the same name
/// and bit in either direction; each consensus-only flag is converted to
/// nothing.
pub proof fn lemma_named_flag_conversion(i: int)
    requires
        0 <= i < NAMED_FLAG_COUNT,
    ensures
        i < SHARED_FLAG_COUNT ==> from_clvm_bits(flag_mask(i)) == flag_mask(i) && to_clvm_bits(
            flag_mask(i),
        ) == flag_mask(i),
        i >= SHARED_FLAG_COUNT ==> to_clvm_bits(flag_mask(i)) == 0,
{
    lemma_named_conversions();
}

/// Flag by flag, a conversion in either direction sets a flag exactly when it
/// is one that both sides define and it is set in what is converted.
pub proof fn lemma_conversion_by_flag(bits: u32, i: int)
    requires
        0 <= i < NAMED_FLAG_COUNT,
    ensures
        has_flag(from_clvm_bits(bits), i) <==> i < SHARED_FLAG_COUNT && has_flag(bits, i),
        has_flag(to_clvm_bits(bits), i) <==> i < SHARED_FLAG_COUNT && has_flag(bits, i),
{
    lemma_named_conversions();
    lemma_masked_membership(bits, CLVM_FLAGS, flag_mask(i));
}

/// Whatever the evaluator's own mempool mode is, the mempool mode derived from
/// it rejects unknown conditions and enforces the strict argument count.
pub proof fn lemma_mempool_mode_is_strict(clvm_mempool_bits: u32)
    by (bit_vector)
    ensures
        mempool_mode_bits(clvm_mempool_bits) & NO_UNKNOWN_CONDS == NO_UNKNOWN_CONDS,
        mempool_mode_bits(clvm_mempool_bits) & STRICT_ARGS_COUNT == STRICT_ARGS_COUNT,
        mempool_mode_bits(clvm_mempool_bits) & from_clvm_bits(clvm_mempool_bits) == from_clvm_bits(
            clvm_mempool_bits,
        ),
{
}

/// The bitwise operations are the operations on sets of named flags: a flag is
/// in the union when it is in either operand, in the intersection when it is in
/// both, in the difference when it is in the first and not in the second, in
/// the symmetric difference when it is in exactly one, and in the complement
/// when it is not in the operand. The empty set holds no flag and the full set
/// holds every one.
pub proof fn lemma_set_operations(a: u32, b: u32, i: int)
    requires
        0 <= i < NAMED_FLAG_COUNT,
    ensures
        !has_flag(0, i),
        has_flag(ALL_FLAGS, i),
        has_flag(a | b, i) <==> has_flag(a, i) || has_flag(b, i),
        has_flag(a & b, i) <==> has_flag(a, i) && has_flag(b, i),
        has_flag(a & !b, i) <==> has_flag(a, i) && !has_flag(b, i),
        has_flag(a ^ b, i) <==> has_flag(a, i) != has_flag(b, i),
        has_flag(!a & ALL_FLAGS, i) <==> !has_flag(a, i),
        has_flag(a & ALL_FLAGS, i) <==> has_flag(a, i),
{
    lemma_masks_are_single_bits();
    lemma_bit_operations(a, b, flag_position(i));
    lemma_named_bits_of_all(a, flag_mask(i));
    lemma_named_bits_of_all(!a, flag_mask(i));
}

/// A mask without unnamed bits is determined by the named flags that it holds.
pub proof fn lemma_named_masks_are_sets(a: u32, b: u32)
    requires
        a & ALL_FLAGS == a,
        b & ALL_FLAGS == b,
        forall|i: int| 0 <= i < NAMED_FLAG_COUNT ==> has_flag(a, i) == has_flag(b, i),
    ensures
        a == b,
{
    assert(has_flag(a, 0) == has_flag(b, 0));
    assert(has_flag(a, 1) == has_flag(b, 1));
    assert(has_flag(a, 2) == has_flag(b, 2));
    assert(has_flag(a, 3) == has_flag(b, 3));
    assert(has_flag(a, 4) == has_flag(b, 4));
    assert(has_flag(a, 5) == has_flag(b, 5));
    assert(has_flag(a, 6) == has_flag(b, 6));
    assert(has_flag(a, 7) == has_flag(b, 7));
    assert(has_flag(a, 8) == has_flag(b, 8));
    assert(has_flag(a, 9) == has_flag(b, 9));
    assert(has_flag(a, 10) == has_flag(b, 10));
    assert(has_flag(a, 11) == has_flag(b, 11));
    assert(has_flag(a, 12) == has_flag(b, 12));
    lemma_masks_determine(a, b);
}

} // verus!
