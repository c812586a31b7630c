//! Control-and-status register values.
//!
//! A control-and-status register is reached by an instruction of its own, so
//! a value of it carries no address: it is the raw word that was read, cut
//! down to the bits that the register defines. Fields are decoded from that
//! word, and, where the register can be written, packed back into it.

use crate::access::{Access, Read, Write};
use crate::field::{extract, extract_spec, insert, insert_spec, valid_field};
use core::marker::PhantomData;
use vstd::prelude::*;

verus! {

/// The word of a register with access mode `A` whose defined bits are
/// those set in `MASK`.
#[derive(Debug, PartialEq, Eq)]
pub struct Csr<A: Access, const MASK: usize> {
    bits: usize,
    mode: PhantomData<A>,
}

impl<A: Access, const MASK: usize> Clone for Csr<A, MASK> {
    fn clone(&self) -> (copy: Self)
        ensures
            copy == *self,
    {
        *self
    }
}

impl<A: Access, const MASK: usize> Copy for Csr<A, MASK> {

}

impl<A: Access, const MASK: usize> View for Csr<A, MASK> {
    type V = usize;

    /// The defined bits of the register's word. Every other bit is zero.
    closed spec fn view(&self) -> usize {
        self.bits & MASK
    }
}

impl<A: Read, const MASK: usize> Csr<A, MASK> {
    /// The register value for the raw word `bits`. Bits that the register
    /// does not define are dropped.
    pub fn from_bits(bits: usize) -> (csr: Self)
        ensures
            csr@ == bits & MASK,
    {
        proof {
            lemma_mask_twice(bits, MASK);
        }
        Csr { bits: bits & MASK, mode: PhantomData }
    }

    /// The register's word, with nothing set outside the defined bits.
    pub fn bits(&self) -> (bits: usize)
        ensures
            bits == self@,
    {
        self.bits & MASK
    }

    /// The number held in bits `start ..= end` of the register's word.
    pub fn field(&self, start: usize, end: usize) -> (sub: usize)
        requires
            valid_field(start, end),
        ensures
            sub == extract_spec(self@, start, end),
    {
        extract(self.bits & MASK, start, end)
    }
}

impl<A: Read + Write, const MASK: usize> Csr<A, MASK> {
    /// Replaces bits `start ..= end` of the register's word by the low bits
    /// of `sub`. Of the result, too, only the defined bits are kept.
    pub fn set_field(&mut self, start: usize, end: usize, sub: usize)
        requires
            valid_field(start, end),
        ensures
            final(self)@ == insert_spec(old(self)@, start, end, sub) & MASK,
    {
        proof {
            lemma_mask_twice(insert_spec(self@, start, end, sub), MASK);
        }
        self.bits = insert(self.bits & MASK, start, end, sub) & MASK;
    }
}

/// Cutting a word down to a mask a second time changes nothing.
pub proof fn lemma_mask_twice(bits: usize, mask: usize)
    ensures
        (bits & mask) & mask == bits & mask,
{
    assert((bits & mask) & mask == bits & mask) by (bit_vector);
}

} // verus!
