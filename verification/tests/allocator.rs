use chia_consensus::allocator::{make_allocator, LIMITED_HEAP_SIZE, MAX_HEAP_SIZE};
use chia_consensus::flags;
use chia_consensus::flags::ConsensusFlags;
use clvmr::error::EvalErr;

#[test]
fn heap_sizes() {
    assert_eq!(LIMITED_HEAP_SIZE, 500_000_000);
    assert_eq!(MAX_HEAP_SIZE, u32::MAX as usize);
}

#[test]
fn limited_heap_refuses_an_atom_of_its_size() {
    let large = vec![0u8; LIMITED_HEAP_SIZE];
    let mut a = make_allocator(ConsensusFlags::limit_heap());
    assert_eq!(a.new_atom(&large).unwrap_err(), EvalErr::OutOfMemory);
    // one byte less fits
    let fits = a.new_atom(&large[1..]);
    assert!(fits.is_ok());
    assert_eq!(a.new_atom(b"x").unwrap_err(), EvalErr::OutOfMemory);
}

#[test]
fn mempool_mode_limits_the_heap() {
    let large = vec![0u8; LIMITED_HEAP_SIZE];
    let mut a = make_allocator(flags::mempool_mode());
    assert_eq!(a.new_atom(&large).unwrap_err(), EvalErr::OutOfMemory);
    let mut a = make_allocator(ConsensusFlags::all());
    assert_eq!(a.new_atom(&large).unwrap_err(), EvalErr::OutOfMemory);
}

#[test]
fn unlimited_heap_takes_an_atom_of_the_limited_size() {
    let large = vec![0u8; LIMITED_HEAP_SIZE];
    let mut a = make_allocator(ConsensusFlags::empty());
    assert!(a.new_atom(&large).is_ok());
    let mut a = make_allocator(ConsensusFlags::all().difference(ConsensusFlags::limit_heap()));
    assert!(a.new_atom(&large).is_ok());
}
