use bitflags::Flags;
use chia_consensus::flags;
use chia_consensus::flags::ConsensusFlags;
use clvmr::chia_dialect::ClvmFlags;

/// No two flags may share any bit
#[test]
fn no_overlapping_bits() {
    let all = ConsensusFlags::named_flags();
    for (i, a) in all.iter().enumerate() {
        for b in &all[i + 1..] {
            let a_bits = a.value().bits();
            let b_bits = b.value().bits();
            assert_eq!(
                a_bits & b_bits,
                0,
                "overlapping bits between {:?} ({a_bits:x}) and {:?} ({b_bits:x})",
                a.value(),
                b.value(),
            );
        }
    }
}

/// Every evaluator flag must exist among the consensus flags and have the exact
/// same bits.
#[test]
fn clvm_flags_bits_match_consensus_flags() {
    let clvm_flags = ClvmFlags::FLAGS;
    for flag in clvm_flags {
        assert!(flag.is_named());
        let name = flag.name();
        let clvm_bits = flag.value().bits();
        let Some(consensus) = ConsensusFlags::from_name(name) else {
            panic!(
                "ClvmFlags flag {name} has no corresponding ConsensusFlags; \
                 every ClvmFlags flag must exist in ConsensusFlags"
            )
        };
        assert_eq!(
            clvm_bits,
            consensus.bits(),
            "ClvmFlags and ConsensusFlags must have the same bits for flag {:?} (name = {name}); \
             we rely on exact bit compatibility",
            flag.value(),
        );
    }
}

/// Every shared flag round-trips through from_clvm_flags / to_clvm_flags,
/// and consensus-only flags never leak into ClvmFlags.
#[test]
fn shared_flags_round_trip_through_conversion() {
    for flag in ClvmFlags::FLAGS {
        assert!(flag.is_named());
        let clvm = *flag.value();
        let name = flag.name();

        let consensus = ConsensusFlags::from_clvm_flags(clvm);
        let expected = ConsensusFlags::from_name(name).unwrap();
        assert_eq!(
            consensus, expected,
            "from_clvm_flags did not convert ClvmFlags::{name} correctly"
        );

        let back = expected.to_clvm_flags();
        assert_eq!(
            back, clvm,
            "to_clvm_flags did not convert ConsensusFlags::{name} back to ClvmFlags::{name}"
        );
    }

    // ConsensusFlags is a strict superset: consensus-only flags exist
    // and must not leak into ClvmFlags via to_clvm_flags.
    let consensus_only =
        ConsensusFlags::all().difference(ConsensusFlags::from_clvm_flags(ClvmFlags::all()));
    assert!(
        !consensus_only.is_empty(),
        "ConsensusFlags should be a strict superset of ClvmFlags"
    );
    assert!(
        consensus_only.to_clvm_flags().is_empty(),
        "consensus-only flags must not appear in to_clvm_flags output"
    );
}

#[test]
fn named_flags_have_their_bits() {
    assert_eq!(ConsensusFlags::canonical_ints().bits(), 0x0001);
    assert_eq!(ConsensusFlags::no_unknown_ops().bits(), 0x0002);
    assert_eq!(ConsensusFlags::limit_heap().bits(), 0x0004);
    assert_eq!(ConsensusFlags::enable_keccak_ops_outside_guard().bits(), 0x0100);
    assert_eq!(ConsensusFlags::disable_op().bits(), 0x0200);
    assert_eq!(ConsensusFlags::enable_sha256_tree().bits(), 0x0400);
    assert_eq!(ConsensusFlags::enable_secp_ops().bits(), 0x0800);
    assert_eq!(ConsensusFlags::dont_validate_signature().bits(), 0x1_0000);
    assert_eq!(ConsensusFlags::no_unknown_conds().bits(), 0x2_0000);
    assert_eq!(ConsensusFlags::compute_fingerprint().bits(), 0x4_0000);
    assert_eq!(ConsensusFlags::strict_args_count().bits(), 0x8_0000);
    assert_eq!(ConsensusFlags::cost_conditions().bits(), 0x80_0000);
    assert_eq!(ConsensusFlags::simple_generator().bits(), 0x100_0000);
}

#[test]
fn mask_constants_match_the_accessors() {
    assert_eq!(flags::CANONICAL_INTS, ConsensusFlags::canonical_ints().bits());
    assert_eq!(flags::LIMIT_HEAP, ConsensusFlags::limit_heap().bits());
    assert_eq!(flags::SIMPLE_GENERATOR, ConsensusFlags::simple_generator().bits());
    assert_eq!(flags::CLVM_FLAGS, 0x0f07);
    assert_eq!(flags::CONSENSUS_ONLY_FLAGS, 0x018f_0000);
    assert_eq!(flags::ALL_FLAGS, flags::CLVM_FLAGS | flags::CONSENSUS_ONLY_FLAGS);
    assert_eq!(flags::CLVM_FLAGS & flags::CONSENSUS_REGION, 0);
    assert_eq!(flags::CONSENSUS_ONLY_FLAGS & flags::SHARED_REGION, 0);
    assert_eq!(flags::SHARED_REGION | flags::CONSENSUS_REGION, u32::MAX);
    assert_eq!(flags::NAMED_FLAG_COUNT, 13);
    assert_eq!(flags::SHARED_FLAG_COUNT, 7);
}

#[test]
fn named_flags_table_is_complete() {
    let all = ConsensusFlags::named_flags();
    assert_eq!(all.len(), flags::NAMED_FLAG_COUNT);
    let names = [
        "CANONICAL_INTS",
        "NO_UNKNOWN_OPS",
        "LIMIT_HEAP",
        "ENABLE_KECCAK_OPS_OUTSIDE_GUARD",
        "DISABLE_OP",
        "ENABLE_SHA256_TREE",
        "ENABLE_SECP_OPS",
        "DONT_VALIDATE_SIGNATURE",
        "NO_UNKNOWN_CONDS",
        "COMPUTE_FINGERPRINT",
        "STRICT_ARGS_COUNT",
        "COST_CONDITIONS",
        "SIMPLE_GENERATOR",
    ];
    let mut union = ConsensusFlags::empty();
    for (i, flag) in all.iter().enumerate() {
        assert_eq!(flag.name(), names[i]);
        assert_eq!(flag.value().bits().count_ones(), 1);
        assert_eq!(ConsensusFlags::from_name(flag.name()), Some(*flag.value()));
        union.insert(*flag.value());
    }
    assert_eq!(union, ConsensusFlags::all());
    assert_eq!(ConsensusFlags::all().bits(), 0x018f_0f07);
    // the first seven are the flags of the evaluator, in its own order
    for (i, flag) in ClvmFlags::FLAGS.iter().enumerate() {
        assert!(i < flags::SHARED_FLAG_COUNT);
        assert_eq!(flag.name(), all[i].name());
        assert_eq!(flag.value().bits(), all[i].value().bits());
    }
    assert_eq!(ClvmFlags::FLAGS.len(), flags::SHARED_FLAG_COUNT);
}

#[test]
fn from_name_rejects_what_is_no_flag() {
    assert_eq!(ConsensusFlags::from_name(""), None);
    assert_eq!(ConsensusFlags::from_name("limit_heap"), None);
    assert_eq!(ConsensusFlags::from_name("LIMIT_HEAP "), None);
    assert_eq!(ConsensusFlags::from_name("MEMPOOL_MODE"), None);
    assert_eq!(
        ConsensusFlags::from_name("LIMIT_HEAP"),
        Some(ConsensusFlags::limit_heap())
    );
    assert_eq!(
        ConsensusFlags::from_name("STRICT_ARGS_COUNT"),
        Some(ConsensusFlags::strict_args_count())
    );
}

#[test]
fn from_bits_accepts_named_bits_only() {
    assert_eq!(ConsensusFlags::from_bits(0), Some(ConsensusFlags::empty()));
    assert_eq!(
        ConsensusFlags::from_bits(0x2_0004),
        Some(ConsensusFlags::limit_heap().union(ConsensusFlags::no_unknown_conds()))
    );
    assert_eq!(
        ConsensusFlags::from_bits(0x018f_0f07),
        Some(ConsensusFlags::all())
    );
    assert_eq!(ConsensusFlags::from_bits(0x0008), None);
    assert_eq!(ConsensusFlags::from_bits(0x10_0000), None);
    assert_eq!(ConsensusFlags::from_bits(u32::MAX), None);
    assert_eq!(ConsensusFlags::from_bits_truncate(u32::MAX), ConsensusFlags::all());
    assert_eq!(ConsensusFlags::from_bits_truncate(0x000c).bits(), 0x0004);
    assert_eq!(ConsensusFlags::from_bits_retain(0x000c).bits(), 0x000c);
    assert_eq!(ConsensusFlags::from_bits_retain(u32::MAX).bits(), u32::MAX);
}

#[test]
fn set_operations_are_bitwise() {
    let a = ConsensusFlags::from_bits_retain(0x0003);
    let b = ConsensusFlags::from_bits_retain(0x0006);
    assert_eq!(a.union(b).bits(), 0x0007);
    assert_eq!(a.intersection(b).bits(), 0x0002);
    assert_eq!(a.difference(b).bits(), 0x0001);
    assert_eq!(b.difference(a).bits(), 0x0004);
    assert_eq!(a.symmetric_difference(b).bits(), 0x0005);
    assert_eq!(a.complement().bits(), 0x018f_0f04);
    assert_eq!(ConsensusFlags::empty().complement(), ConsensusFlags::all());
    assert_eq!(ConsensusFlags::all().complement(), ConsensusFlags::empty());
    assert_eq!(
        ConsensusFlags::from_bits_retain(u32::MAX).complement(),
        ConsensusFlags::empty()
    );
    assert!(a.intersects(b));
    assert!(!a.intersects(ConsensusFlags::limit_heap()));
    assert!(!a.intersects(ConsensusFlags::empty()));
    assert!(a.contains(ConsensusFlags::canonical_ints()));
    assert!(a.contains(ConsensusFlags::empty()));
    assert!(a.contains(a));
    assert!(!a.contains(b));
    assert!(!a.contains(ConsensusFlags::limit_heap()));
}

#[test]
fn in_place_operations_are_bitwise() {
    let mut f = ConsensusFlags::from_bits_retain(0x0003);
    f.insert(ConsensusFlags::limit_heap());
    assert_eq!(f.bits(), 0x0007);
    f.insert(ConsensusFlags::limit_heap());
    assert_eq!(f.bits(), 0x0007);
    f.remove(ConsensusFlags::canonical_ints());
    assert_eq!(f.bits(), 0x0006);
    f.remove(ConsensusFlags::canonical_ints());
    assert_eq!(f.bits(), 0x0006);
    f.toggle(ConsensusFlags::from_bits_retain(0x0003));
    assert_eq!(f.bits(), 0x0005);
    f.set(ConsensusFlags::strict_args_count(), true);
    assert_eq!(f.bits(), 0x8_0005);
    f.set(ConsensusFlags::limit_heap(), false);
    assert_eq!(f.bits(), 0x8_0001);
    f.set(ConsensusFlags::limit_heap(), false);
    assert_eq!(f.bits(), 0x8_0001);
}

#[test]
fn emptiness_and_fullness() {
    assert!(ConsensusFlags::empty().is_empty());
    assert!(ConsensusFlags::default().is_empty());
    assert_eq!(ConsensusFlags::default(), ConsensusFlags::empty());
    assert_eq!(ConsensusFlags::empty().bits(), 0);
    assert!(!ConsensusFlags::limit_heap().is_empty());
    assert!(ConsensusFlags::all().is_all());
    assert!(ConsensusFlags::from_bits_retain(u32::MAX).is_all());
    assert!(!ConsensusFlags::from_bits_retain(0x018f_0f06).is_all());
    assert!(!ConsensusFlags::empty().is_all());
}

#[test]
fn mempool_mode_is_strict() {
    let mempool = flags::mempool_mode();
    assert_eq!(mempool.bits(), 0x000a_0207);
    assert_eq!(mempool.bits(), flags::MEMPOOL_MODE);
    assert!(mempool.contains(ConsensusFlags::no_unknown_conds()));
    assert!(mempool.contains(ConsensusFlags::strict_args_count()));
    assert!(mempool.contains(ConsensusFlags::from_clvm_flags(clvmr::MEMPOOL_MODE)));
    assert_eq!(
        mempool,
        ConsensusFlags::from_clvm_flags(clvmr::MEMPOOL_MODE)
            .union(ConsensusFlags::no_unknown_conds())
            .union(ConsensusFlags::strict_args_count())
    );
    assert_eq!(mempool.to_clvm_flags(), clvmr::MEMPOOL_MODE);
    assert!(!mempool.contains(ConsensusFlags::dont_validate_signature()));
}

#[test]
fn every_set_of_shared_flags_round_trips() {
    let shared: Vec<u32> = ClvmFlags::FLAGS.iter().map(|f| f.value().bits()).collect();
    for pick in 0u32..(1 << shared.len()) {
        let mut bits = 0u32;
        for (i, mask) in shared.iter().enumerate() {
            if pick & (1 << i) != 0 {
                bits |= mask;
            }
        }
        let clvm = ClvmFlags::from_bits(bits).unwrap();
        let consensus = ConsensusFlags::from_clvm_flags(clvm);
        assert_eq!(consensus.bits(), bits);
        assert_eq!(consensus.bits() & flags::CONSENSUS_REGION, 0);
        assert_eq!(consensus.to_clvm_flags(), clvm);
        // consensus-only flags on top change nothing on the way back
        let with_more = consensus.union(ConsensusFlags::from_bits_retain(
            flags::CONSENSUS_ONLY_FLAGS,
        ));
        assert_eq!(with_more.to_clvm_flags(), clvm);
    }
}

#[test]
fn unnamed_bits_do_not_cross_the_boundary() {
    let odd = ClvmFlags::from_bits_retain(0xffff_f0f8);
    assert_eq!(ConsensusFlags::from_clvm_flags(odd), ConsensusFlags::empty());
    let odd = ClvmFlags::from_bits_retain(u32::MAX);
    assert_eq!(ConsensusFlags::from_clvm_flags(odd).bits(), 0x0f07);
    let odd = ConsensusFlags::from_bits_retain(u32::MAX);
    assert_eq!(odd.to_clvm_flags(), ClvmFlags::all());
    assert_eq!(odd.to_clvm_flags().bits(), 0x0f07);
    for flag in ConsensusFlags::named_flags().iter().skip(flags::SHARED_FLAG_COUNT) {
        assert!(flag.value().to_clvm_flags().is_empty());
    }
    assert!(ConsensusFlags::empty().to_clvm_flags().is_empty());
    assert!(ConsensusFlags::from_clvm_flags(ClvmFlags::empty()).is_empty());
}

#[test]
fn consensus_only_flags_are_the_rest() {
    let only = ConsensusFlags::consensus_only();
    assert_eq!(only.bits(), 0x018f_0000);
    assert_eq!(only.bits(), flags::CONSENSUS_ONLY_FLAGS);
    assert!(only.to_clvm_flags().is_empty());
    assert!(!only.intersects(ConsensusFlags::from_clvm_flags(ClvmFlags::all())));
    assert_eq!(
        only.union(ConsensusFlags::from_clvm_flags(ClvmFlags::all())),
        ConsensusFlags::all()
    );
    for flag in ConsensusFlags::named_flags().iter().skip(flags::SHARED_FLAG_COUNT) {
        assert!(only.contains(*flag.value()));
    }
    for flag in ConsensusFlags::named_flags().iter().take(flags::SHARED_FLAG_COUNT) {
        assert!(!only.contains(*flag.value()));
    }
}
