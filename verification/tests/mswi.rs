use riscv_registers::hart::{HartId, HartIdNumber, InvalidHartId};
use riscv_registers::mmio::RegisterBank;
use riscv_registers::mswi::{MSIP, MSIP_CLEAR, MSIP_PEND, MSWI};

const BASE: usize = 0x0200_0000;

#[test]
fn test_mswi() {
    // bank to emulate the interrupt pendings register
    let mut raw_reg = RegisterBank::new(BASE, HartId::<3>::max_hart_id_number() + 1);
    let mswi = MSWI::new(raw_reg.base());

    for (i, hart_id) in (0..raw_reg.len())
        .map(|i| HartId::<3>::from_number(i).unwrap())
        .enumerate()
    {
        let msip = mswi.msip(hart_id);
        assert!(!msip.is_pending(&raw_reg));
        assert_eq!(raw_reg.word(i), 0);
        msip.pend(&mut raw_reg);
        assert!(msip.is_pending(&raw_reg));
        assert_ne!(raw_reg.word(i), 0);
        msip.unpend(&mut raw_reg);
        assert!(!msip.is_pending(&raw_reg));
        assert_eq!(raw_reg.word(i), 0);
    }
}

#[test]
fn pend_on_hart_two_touches_only_its_word() {
    let mut bank = RegisterBank::new(BASE, 4);
    let mswi = MSWI::new(BASE);
    let msip = mswi.msip(HartId::<3>::from_number(2).unwrap());

    assert!(!msip.is_pending(&bank));
    msip.pend(&mut bank);
    assert!(msip.is_pending(&bank));
    assert_ne!(bank.word(2), 0);
    assert_eq!(bank.word(0), 0);
    assert_eq!(bank.word(1), 0);
    assert_eq!(bank.word(3), 0);

    msip.unpend(&mut bank);
    for i in 0..4 {
        assert_eq!(bank.word(i), 0);
    }
}

#[test]
fn pend_and_unpend_are_idempotent() {
    let mut bank = RegisterBank::new(BASE, 2);
    let msip = MSWI::new(BASE).msip(HartId::<1>::from_number(1).unwrap());

    msip.pend(&mut bank);
    msip.pend(&mut bank);
    assert!(msip.is_pending(&bank));
    assert_eq!(bank.word(1), MSIP_PEND);

    msip.unpend(&mut bank);
    msip.unpend(&mut bank);
    assert!(!msip.is_pending(&bank));
    assert_eq!(bank.word(1), MSIP_CLEAR);
}

#[test]
fn harts_have_independent_registers() {
    let mut bank = RegisterBank::new(BASE, 4);
    let mswi = MSWI::new(BASE);
    for i in 0..4 {
        let first = mswi.msip(HartId::<3>::from_number(i).unwrap());
        first.pend(&mut bank);
        for j in 0..4 {
            let second = mswi.msip(HartId::<3>::from_number(j).unwrap());
            assert_ne!(i != j, first == second);
            assert_eq!(second.is_pending(&bank), i == j);
        }
        first.unpend(&mut bank);
    }
}

#[test]
fn msip_addresses_are_four_bytes_apart() {
    let mswi = MSWI::new(BASE);
    assert_eq!(mswi.msip0.address(), BASE);
    assert_eq!(mswi.msip(HartId::<7>::from_number(0).unwrap()), mswi.msip0);
    assert_eq!(mswi.msip(HartId::<7>::from_number(1).unwrap()).address(), BASE + 4);
    assert_eq!(mswi.msip(HartId::<7>::from_number(7).unwrap()).address(), BASE + 28);
    assert_eq!(mswi.msip_mhartid(0), mswi.msip0);
    assert_eq!(mswi.msip_mhartid(5).address(), BASE + 20);
    assert_eq!(mswi.msip_mhartid(5).get_register().address(), BASE + 20);
}

#[test]
fn hart_id_out_of_range_is_refused() {
    assert_eq!(HartId::<3>::from_number(4), Err(InvalidHartId(4)));
    assert_eq!(HartId::<3>::from_number(usize::MAX), Err(InvalidHartId(usize::MAX)));
    assert_eq!(HartId::<0>::from_number(1), Err(InvalidHartId(1)));
}

#[test]
fn hart_id_in_range_keeps_its_number() {
    assert_eq!(HartId::<3>::max_hart_id_number(), 3);
    for n in 0..=3 {
        assert_eq!(HartId::<3>::from_number(n).unwrap().number(), n);
    }
    assert_eq!(HartId::<0>::from_number(0).unwrap().number(), 0);
}

#[test]
fn msip_decodes_any_nonzero_word_as_pending() {
    assert!(!MSIP::decode(0));
    assert!(MSIP::decode(1));
    assert!(MSIP::decode(0x8000_0000));
}
