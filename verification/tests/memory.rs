use alloc_compose::layout::check_power_of_two;
use alloc_compose::{Layout, MemoryBlock};

#[test]
fn powers_of_two_are_recognised() {
    for n in [1usize, 2, 4, 8, 64, 4096, 1 << 31, 1 << (usize::BITS - 1)] {
        assert!(check_power_of_two(n), "{}", n);
    }
    for n in [0usize, 3, 5, 6, 7, 12, 100, 4095, usize::MAX] {
        assert!(!check_power_of_two(n), "{}", n);
    }
}

#[test]
fn layout_holds_size_and_alignment() {
    let l = Layout::from_size_align(24, 8).unwrap();
    assert_eq!(l.size(), 24);
    assert_eq!(l.align(), 8);
    let empty = Layout::from_size_align(0, 1).unwrap();
    assert_eq!((empty.size(), empty.align()), (0, 1));
}

#[test]
fn layout_rejects_an_alignment_that_is_no_power_of_two() {
    assert!(Layout::from_size_align(8, 0).is_none());
    assert!(Layout::from_size_align(8, 3).is_none());
    assert!(Layout::from_size_align(8, 24).is_none());
}

#[test]
fn layout_rejects_a_size_that_overflows_when_rounded_up() {
    assert!(Layout::from_size_align(usize::MAX, 1).is_some());
    assert!(Layout::from_size_align(usize::MAX, 2).is_none());
    assert!(Layout::from_size_align(usize::MAX - 7, 8).is_some());
    assert!(Layout::from_size_align(usize::MAX - 6, 8).is_none());
}

#[test]
fn block_holds_address_alignment_and_bytes() {
    let block = MemoryBlock::new(0x40, 16, vec![7, 8, 9]).unwrap();
    assert_eq!(block.addr(), 0x40);
    assert_eq!(block.align(), 16);
    assert_eq!(block.size(), 3);
    assert_eq!(block.bytes(), &vec![7, 8, 9]);
    let l = block.layout();
    assert_eq!((l.size(), l.align()), (3, 16));
}

#[test]
fn block_rejects_a_misaligned_address_and_a_bad_alignment() {
    assert!(MemoryBlock::new(0x41, 16, vec![0; 4]).is_none());
    assert!(MemoryBlock::new(0x40, 0, vec![0; 4]).is_none());
    assert!(MemoryBlock::new(0x40, 12, vec![0; 4]).is_none());
    assert!(MemoryBlock::new(0x41, 1, vec![0; 4]).is_some());
    assert!(MemoryBlock::new(0, 4096, Vec::new()).is_some());
}

#[test]
fn block_reads_and_writes_within_its_size() {
    let mut block = MemoryBlock::new(8, 8, vec![1, 2, 3]).unwrap();
    assert_eq!(block.read(0), Some(1));
    assert_eq!(block.read(2), Some(3));
    assert_eq!(block.read(3), None);
    assert!(block.write(1, 20));
    assert!(!block.write(3, 40));
    assert_eq!(block.bytes(), &vec![1, 20, 3]);
    assert_eq!(block.addr(), 8);
}

#[test]
fn relocate_into_a_larger_block_keeps_all_bytes() {
    let mut block = MemoryBlock::new(8, 8, vec![1, 2, 3]).unwrap();
    let fresh = MemoryBlock::new(64, 8, vec![9, 9, 9, 9, 9]).unwrap();
    let left = block.relocate(fresh);
    assert_eq!(left.addr(), 8);
    assert_eq!(left.bytes(), &vec![1, 2, 3]);
    assert_eq!(block.addr(), 64);
    assert_eq!(block.align(), 8);
    assert_eq!(block.bytes(), &vec![1, 2, 3, 9, 9]);
}

#[test]
fn relocate_into_a_smaller_block_keeps_the_start() {
    let mut block = MemoryBlock::new(8, 4, vec![1, 2, 3, 4, 5]).unwrap();
    let fresh = MemoryBlock::new(64, 4, vec![9, 9]).unwrap();
    let left = block.relocate(fresh);
    assert_eq!(left.bytes(), &vec![1, 2, 3, 4, 5]);
    assert_eq!(block.addr(), 64);
    assert_eq!(block.bytes(), &vec![1, 2]);
}

#[test]
fn relocate_into_an_empty_block_copies_nothing() {
    let mut block = MemoryBlock::new(8, 4, vec![1, 2]).unwrap();
    let fresh = MemoryBlock::new(64, 4, Vec::new()).unwrap();
    let left = block.relocate(fresh);
    assert_eq!(left.bytes(), &vec![1, 2]);
    assert_eq!(block.size(), 0);
}
