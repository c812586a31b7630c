use riscv_registers::access::{RO, RW};
use riscv_registers::csr::Csr;
use riscv_registers::field::{extract, insert, make_low_mask};

const TOP: usize = usize::BITS as usize - 1;

#[test]
fn low_masks() {
    assert_eq!(make_low_mask(0), 0);
    assert_eq!(make_low_mask(1), 1);
    assert_eq!(make_low_mask(8), 0xFF);
    assert_eq!(make_low_mask(12), 0xFFF);
    assert_eq!(make_low_mask(TOP), usize::MAX >> 1);
    assert_eq!(make_low_mask(TOP + 1), usize::MAX);
    assert_eq!(make_low_mask(usize::MAX), usize::MAX);
}

#[test]
fn extract_reads_the_field() {
    assert_eq!(extract(0x000B_0005, 16, 27), 0xB);
    assert_eq!(extract(0x000B_0005, 0, 7), 0x5);
    assert_eq!(extract(0xABCD_1234, 4, 11), 0x23);
    assert_eq!(extract(0b1010, 1, 1), 1);
    assert_eq!(extract(0b1010, 2, 2), 0);
    assert_eq!(extract(usize::MAX, TOP, TOP), 1);
}

#[test]
fn insert_replaces_the_field() {
    assert_eq!(insert(0, 16, 27, 0xB), 0x000B_0000);
    assert_eq!(insert(0xFFFF_FFFF, 8, 15, 0), 0xFFFF_00FF);
    assert_eq!(insert(0xABCD_1234, 4, 11, 0xEE), 0xABCD_1EE4);
    assert_eq!(insert(0, TOP, TOP, 1), 1 << TOP);
}

#[test]
fn insert_truncates_a_wide_value() {
    assert_eq!(insert(0, 4, 7, 0x1F), 0xF0);
    assert_eq!(insert(0xFFFF_0000, 0, 3, 0x123), 0xFFFF_0003);
    assert_eq!(extract(insert(0, 4, 7, 0x1F), 4, 7), 0xF);
}

#[test]
fn full_width_field_is_the_word() {
    assert_eq!(extract(0x1234_5678, 0, TOP), 0x1234_5678);
    assert_eq!(extract(usize::MAX, 0, TOP), usize::MAX);
    assert_eq!(insert(0x1234_5678, 0, TOP, 0x9ABC_DEF0), 0x9ABC_DEF0);
    assert_eq!(insert(0, 0, TOP, usize::MAX), usize::MAX);
}

#[test]
fn insert_of_extract_is_identity() {
    let values = [0usize, 1, 0x000B_0005, 0xDEAD_BEEF, usize::MAX, usize::MAX >> 1];
    for &value in values.iter() {
        for start in 0..=TOP {
            for end in start..=TOP {
                assert_eq!(insert(value, start, end, extract(value, start, end)), value);
            }
        }
    }
}

#[test]
fn extract_of_insert_is_the_truncated_value() {
    let subs = [0usize, 1, 0x5A, 0xFFFF, usize::MAX];
    for &sub in subs.iter() {
        for start in 0..=TOP {
            for end in start..=TOP {
                let word = insert(0xA5A5_A5A5, start, end, sub);
                assert_eq!(extract(word, start, end), sub & make_low_mask(end - start + 1));
            }
        }
    }
}

#[test]
fn csr_value_keeps_defined_bits_only() {
    let csr: Csr<RO, 0x0FFF_00FF> = Csr::from_bits(usize::MAX);
    assert_eq!(csr.bits(), 0x0FFF_00FF);
    let csr: Csr<RO, 0xF0> = Csr::from_bits(0xABC);
    assert_eq!(csr.bits(), 0xB0);
    assert_eq!(csr.field(4, 7), 0xB);
    assert_eq!(csr.field(0, 3), 0);
    let csr: Csr<RW, 0> = Csr::from_bits(usize::MAX);
    assert_eq!(csr.bits(), 0);
}

#[test]
fn csr_set_field_packs_and_masks() {
    let mut csr: Csr<RW, 0x0000_FF0F> = Csr::from_bits(0x1234);
    assert_eq!(csr.bits(), 0x1204);
    csr.set_field(8, 15, 0xAB);
    assert_eq!(csr.bits(), 0xAB04);
    assert_eq!(csr.field(8, 15), 0xAB);
    csr.set_field(0, 7, 0xFF);
    assert_eq!(csr.bits(), 0xAB0F);
    csr.set_field(8, 11, 0x1F0);
    assert_eq!(csr.bits(), 0xA00F);
    let copy = csr;
    assert_eq!(copy, csr);
}
