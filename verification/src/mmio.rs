//! Memory-mapped registers and the storage behind them.
//!
//! A [`Reg`] is an address with an access mode. It owns nothing: any number
//! of handles may name the same word. The words themselves live in a
//! [`RegisterBank`], a run of 32-bit registers that starts at a base address
//! and places one register every four bytes.

use crate::access::{Access, Read, Write};
use core::marker::PhantomData;
use vstd::prelude::*;

verus! {

/// Size in bytes of a register, and the distance between two neighbours.
pub const REGISTER_BYTES: usize = 4;

/// The contents of a bank: where it starts and the words it holds, the
/// first one at `base`, the next four bytes further, and so on.
pub ghost struct BankView {
    pub base: usize,
    pub words: Seq<u32>,
}

impl BankView {
    /// Whether `address` is the address of one of the bank's registers.
    pub open spec fn maps(self, address: usize) -> bool {
        &&& self.base <= address < self.base + REGISTER_BYTES * self.words.len()
        &&& (address - self.base) % (REGISTER_BYTES as int) == 0
    }

    /// The position in the bank of the register at `address`.
    pub open spec fn index_of(self, address: usize) -> int {
        (address - self.base) / (REGISTER_BYTES as int)
    }

    /// The word held by the register at `address`.
    pub open spec fn word_at(self, address: usize) -> u32
        recommends
            self.maps(address),
    {
        self.words[self.index_of(address)]
    }

    /// The bank after `value` was stored in the register at `address`.
    pub open spec fn store(self, address: usize, value: u32) -> BankView
        recommends
            self.maps(address),
    {
        BankView { base: self.base, words: self.words.update(self.index_of(address), value) }
    }
}

/// A store changes neither where the bank lies nor which addresses it maps,
/// and the register written holds the stored word afterwards.
pub proof fn lemma_store_here(bank: BankView, address: usize, value: u32)
    requires
        bank.maps(address),
    ensures
        bank.store(address, value).base == bank.base,
        bank.store(address, value).words.len() == bank.words.len(),
        forall|other: usize| bank.store(address, value).maps(other) == bank.maps(other),
        bank.store(address, value).word_at(address) == value,
{
}

/// A store to one register is not seen through the address of another.
pub proof fn lemma_store_elsewhere(bank: BankView, address: usize, other: usize, value: u32)
    requires
        bank.maps(address),
        bank.maps(other),
        address != other,
    ensures
        bank.store(address, value).word_at(other) == bank.word_at(other),
{
    assert(bank.index_of(address) != bank.index_of(other));
}

/// Storing the same word twice in a register is the same as storing it once.
pub proof fn lemma_store_twice(bank: BankView, address: usize, value: u32)
    requires
        bank.maps(address),
    ensures
        bank.store(address, value).store(address, value) == bank.store(address, value),
{
    assert(bank.store(address, value).store(address, value).words =~= bank.store(
        address,
        value,
    ).words);
}

/// A run of 32-bit registers in the address space.
pub struct RegisterBank {
    base: usize,
    words: Vec<u32>,
}

impl View for RegisterBank {
    type V = BankView;

    closed spec fn view(&self) -> BankView {
        BankView { base: self.base, words: self.words@ }
    }
}

impl RegisterBank {
    /// A bank of `len` registers from `base` on, every one of them zero.
    pub fn new(base: usize, len: usize) -> (bank: Self)
        ensures
            bank@.base == base,
            bank@.words.len() == len,
            forall|i: int| 0 <= i < len ==> bank@.words[i] == 0,
    {
        let mut words: Vec<u32> = Vec::new();
        let mut filled: usize = 0;
        while filled < len
            invariant
                filled <= len,
                words@.len() == filled,
                forall|i: int| 0 <= i < filled ==> words@[i] == 0,
            decreases len - filled,
        {
            words.push(0);
            filled = filled + 1;
        }
        RegisterBank { base, words }
    }

    /// The address of the bank's first register.
    pub fn base(&self) -> (base: usize)
        ensures
            base == self@.base,
    {
        self.base
    }

    /// The number of registers in the bank.
    pub fn len(&self) -> (len: usize)
        ensures
            len == self@.words.len(),
    {
        self.words.len()
    }

    /// Whether `address` is the address of one of the bank's registers.
    pub fn maps(&self, address: usize) -> (mapped: bool)
        ensures
            mapped == self@.maps(address),
    {
        if address < self.base {
            return false;
        }
        let offset = address - self.base;
        offset % REGISTER_BYTES == 0 && offset / REGISTER_BYTES < self.words.len()
    }

    /// The word held by the register in position `index`.
    pub fn word(&self, index: usize) -> (word: u32)
        requires
            index < self@.words.len(),
        ensures
            word == self@.words[index as int],
    {
        self.words[index]
    }

    /// Loads the word held by the register at `address`.
    pub fn load(&self, address: usize) -> (word: u32)
        requires
            self@.maps(address),
        ensures
            word == self@.word_at(address),
    {
        self.words[(address - self.base) / REGISTER_BYTES]
    }

    /// Stores `value` in the register at `address`. No other register changes.
    pub fn store(&mut self, address: usize, value: u32)
        requires
            old(self)@.maps(address),
        ensures
            final(self)@ == old(self)@.store(address, value),
    {
        let index = (address - self.base) / REGISTER_BYTES;
        self.words.set(index, value);
    }
}

/// A handle on the register at an address, with access mode `A`.
#[derive(Debug, PartialEq, Eq)]
pub struct Reg<A: Access> {
    address: usize,
    mode: PhantomData<A>,
}

impl<A: Access> Clone for Reg<A> {
    fn clone(&self) -> (copy: Self)
        ensures
            copy == *self,
    {
        *self
    }
}

impl<A: Access> Copy for Reg<A> {

}

impl<A: Access> Reg<A> {
    /// The address that this handle names.
    pub closed spec fn address_spec(self) -> usize {
        self.address
    }

    /// A handle on the register at `address`.
    pub fn new(address: usize) -> (reg: Self)
        ensures
            reg.address_spec() == address,
    {
        Reg { address, mode: PhantomData }
    }

    /// The address that this handle names.
    pub fn address(self) -> (address: usize)
        ensures
            address == self.address_spec(),
    {
        self.address
    }
}

impl<A: Read> Reg<A> {
    /// Reads the register from the bank that holds it.
    pub fn read(self, bank: &RegisterBank) -> (word: u32)
        requires
            bank@.maps(self.address_spec()),
        ensures
            word == bank@.word_at(self.address_spec()),
    {
        bank.load(self.address)
    }
}

impl<A: Write> Reg<A> {
    /// Writes `value` to the register in the bank that holds it.
    pub fn write(self, bank: &mut RegisterBank, value: u32)
        requires
            old(bank)@.maps(self.address_spec()),
        ensures
            final(bank)@ == old(bank)@.store(self.address_spec(), value),
    {
        bank.store(self.address, value);
    }
}

} // verus!
