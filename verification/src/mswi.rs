//! Machine-level software interrupt device.
//!
//! The device has one `MSIP` register per hart, laid out from a base address
//! in the order of the hart numbers. A hart's software interrupt is pending
//! while its register is not zero.

use crate::access::RW;
use crate::hart::HartIdNumber;
use crate::mmio::{
    lemma_store_elsewhere, lemma_store_here, lemma_store_twice, BankView, Reg, RegisterBank,
    REGISTER_BYTES,
};
use vstd::prelude::*;

verus! {

/// The word that raises a hart's software interrupt.
pub const MSIP_PEND: u32 = 1;

/// The word that clears a hart's software interrupt.
pub const MSIP_CLEAR: u32 = 0;

/// The address of the `MSIP` register of hart `hart` in a device at `base`.
pub open spec fn msip_address(base: usize, hart: usize) -> int {
    base + hart * REGISTER_BYTES
}

/// Whether the software interrupt is pending in a register that holds `word`.
pub open spec fn word_is_pending(word: u32) -> bool {
    word != 0
}

/// The software interrupt device.
#[derive(Clone, Copy, Debug, PartialEq, Eq)]
pub struct MSWI {
    /// The `MSIP` register of hart 0. For the other harts of a target with
    /// several, see [`MSWI::msip`].
    pub msip0: MSIP,
}

impl MSWI {
    /// The device whose registers start at `address`.
    pub fn new(address: usize) -> (mswi: Self)
        ensures
            mswi.msip0.address_spec() == address,
    {
        MSWI { msip0: MSIP::new(address) }
    }

    /// The `MSIP` register of the hart `hart_id`: the one that lies as many
    /// registers behind the base as the hart's number says.
    pub fn msip<H: HartIdNumber>(&self, hart_id: H) -> (msip: MSIP)
        requires
            msip_address(self.msip0.address_spec(), hart_id.number_spec()) <= usize::MAX,
        ensures
            msip.address_spec() == msip_address(self.msip0.address_spec(), hart_id.number_spec()),
    {
        let number = hart_id.number();
        MSIP::new(self.msip0.address() + number * REGISTER_BYTES)
    }

    /// The `MSIP` register of the hart that runs the caller, whose number
    /// `mhartid` was read from the hart's own identification register.
    pub fn msip_mhartid(&self, mhartid: usize) -> (msip: MSIP)
        requires
            msip_address(self.msip0.address_spec(), mhartid) <= usize::MAX,
        ensures
            msip.address_spec() == msip_address(self.msip0.address_spec(), mhartid),
    {
        MSIP::new(self.msip0.address() + mhartid * REGISTER_BYTES)
    }
}

/// The software interrupt register of one hart.
#[derive(Clone, Copy, Debug, PartialEq, Eq)]
pub struct MSIP {
    register: Reg<RW>,
}

impl MSIP {
    /// The address of the register.
    pub closed spec fn address_spec(self) -> usize {
        self.register.address_spec()
    }

    /// Whether the hart's software interrupt is pending in `bank`.
    pub open spec fn pending_in(self, bank: BankView) -> bool {
        word_is_pending(bank.word_at(self.address_spec()))
    }

    /// The register at `address`.
    pub fn new(address: usize) -> (msip: Self)
        ensures
            msip.address_spec() == address,
    {
        MSIP { register: Reg::new(address) }
    }

    /// The address of the register.
    pub fn address(self) -> (address: usize)
        ensures
            address == self.address_spec(),
    {
        self.register.address()
    }

    /// The register as a plain read-write handle.
    pub fn get_register(self) -> (register: Reg<RW>)
        ensures
            register.address_spec() == self.address_spec(),
    {
        self.register
    }

    /// Whether a register that was read as `word` says that the interrupt
    /// is pending.
    pub fn decode(word: u32) -> (pending: bool)
        ensures
            pending == word_is_pending(word),
    {
        word != 0
    }

    /// Returns `true` if a machine software interrupt is pending.
    pub fn is_pending(self, bank: &RegisterBank) -> (pending: bool)
        requires
            bank@.maps(self.address_spec()),
        ensures
            pending == self.pending_in(bank@),
    {
        MSIP::decode(self.register.read(bank))
    }

    /// Writes to the register to trigger a machine software interrupt.
    pub fn pend(self, bank: &mut RegisterBank)
        requires
            old(bank)@.maps(self.address_spec()),
        ensures
            final(bank)@ == old(bank)@.store(self.address_spec(), MSIP_PEND),
            self.pending_in(final(bank)@),
    {
        self.register.write(bank, MSIP_PEND);
    }

    /// Clears the register to unpend a machine software interrupt.
    pub fn unpend(self, bank: &mut RegisterBank)
        requires
            old(bank)@.maps(self.address_spec()),
        ensures
            final(bank)@ == old(bank)@.store(self.address_spec(), MSIP_CLEAR),
            !self.pending_in(final(bank)@),
    {
        self.register.write(bank, MSIP_CLEAR);
    }
}

/// The registers of two different harts lie at different addresses, so a
/// word written through the handle of one hart is not seen through the
/// handle of the other.
pub proof fn lemma_harts_independent(
    bank: BankView,
    base: usize,
    hart: usize,
    other: usize,
    value: u32,
)
    requires
        hart != other,
        msip_address(base, hart) <= usize::MAX,
        msip_address(base, other) <= usize::MAX,
        bank.maps(msip_address(base, hart) as usize),
        bank.maps(msip_address(base, other) as usize),
    ensures
        msip_address(base, hart) != msip_address(base, other),
        bank.store(msip_address(base, hart) as usize, value).word_at(
            msip_address(base, other) as usize,
        ) == bank.word_at(msip_address(base, other) as usize),
{
    lemma_store_elsewhere(
        bank,
        msip_address(base, hart) as usize,
        msip_address(base, other) as usize,
        value,
    );
}

/// A bank that starts at the device's base maps the register of every hart
/// whose number is below the bank's length, and holds it in the position of
/// that number.
pub proof fn lemma_bank_holds_hart(bank: BankView, base: usize, hart: usize)
    requires
        bank.base == base,
        hart < bank.words.len(),
        msip_address(base, hart) <= usize::MAX,
    ensures
        bank.maps(msip_address(base, hart) as usize),
        bank.index_of(msip_address(base, hart) as usize) == hart,
        bank.word_at(msip_address(base, hart) as usize) == bank.words[hart as int],
{
}

/// Raising an interrupt that is already raised changes nothing, and the
/// interrupt is pending after one call as after two.
pub proof fn lemma_pend_twice(bank: BankView, msip: MSIP)
    requires
        bank.maps(msip.address_spec()),
    ensures
        bank.store(msip.address_spec(), MSIP_PEND).maps(msip.address_spec()),
        bank.store(msip.address_spec(), MSIP_PEND).store(msip.address_spec(), MSIP_PEND)
            == bank.store(msip.address_spec(), MSIP_PEND),
        msip.pending_in(bank.store(msip.address_spec(), MSIP_PEND)),
{
    lemma_store_here(bank, msip.address_spec(), MSIP_PEND);
    lemma_store_twice(bank, msip.address_spec(), MSIP_PEND);
}

/// Clearing an interrupt that is already clear changes nothing, and the
/// interrupt is not pending after one call as after two.
pub proof fn lemma_unpend_twice(bank: BankView, msip: MSIP)
    requires
        bank.maps(msip.address_spec()),
    ensures
        bank.store(msip.address_spec(), MSIP_CLEAR).maps(msip.address_spec()),
        bank.store(msip.address_spec(), MSIP_CLEAR).store(msip.address_spec(), MSIP_CLEAR)
            == bank.store(msip.address_spec(), MSIP_CLEAR),
        !msip.pending_in(bank.store(msip.address_spec(), MSIP_CLEAR)),
{
    lemma_store_here(bank, msip.address_spec(), MSIP_CLEAR);
    lemma_store_twice(bank, msip.address_spec(), MSIP_CLEAR);
}

} // verus!
