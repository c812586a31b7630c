//! `stopi`: the supervisor top priority interrupt register.
//!
//! The register is read-only. It names the pending and enabled supervisor
//! interrupt of the highest priority, and that priority.

use crate::access::RO;
use crate::csr::Csr;
use crate::field::{extract_spec, lemma_extract_bounded};
use vstd::prelude::*;

verus! {

/// Number of the register among the control-and-status registers.
pub const STOPI_INDEX: usize = 0xDB0;

/// The bits that the register defines.
pub const STOPI_MASK: usize = 0x0FFF_00FF;

/// First bit of the interrupt identity.
pub const IID_START: usize = 16;

/// Last bit of the interrupt identity.
pub const IID_END: usize = 27;

/// First bit of the interrupt priority.
pub const IPRIO_START: usize = 0;

/// Last bit of the interrupt priority.
pub const IPRIO_END: usize = 7;

/// A value of the supervisor top priority interrupt register.
#[derive(Clone, Copy, Debug, PartialEq, Eq)]
pub struct Stopi {
    csr: Csr<RO, 0x0FFF_00FF>,
}

impl View for Stopi {
    type V = usize;

    /// The defined bits of the register's word.
    closed spec fn view(&self) -> usize {
        self.csr@
    }
}

impl Stopi {
    /// The interrupt identity: bits 16 to 27.
    pub open spec fn iid_spec(self) -> usize {
        extract_spec(self@, IID_START, IID_END)
    }

    /// The interrupt priority: bits 0 to 7.
    pub open spec fn iprio_spec(self) -> usize {
        extract_spec(self@, IPRIO_START, IPRIO_END)
    }

    /// The register value for the raw word `bits`, without the bits that
    /// the register does not define.
    pub fn from_bits(bits: usize) -> (stopi: Self)
        ensures
            stopi@ == bits & STOPI_MASK,
    {
        Stopi { csr: Csr::from_bits(bits) }
    }

    /// The register's word. No bit outside the mask is set in it.
    pub fn bits(&self) -> (bits: usize)
        ensures
            bits == self@,
    {
        self.csr.bits()
    }

    /// Interrupt identity. Zero means that no interrupt is pending.
    pub fn iid(&self) -> (iid: usize)
        ensures
            iid == self.iid_spec(),
            iid <= 0xFFF,
    {
        proof {
            lemma_extract_bounded(self@, IID_START, IID_END);
            assert(((1usize << 12usize) - 1) as usize == 0xFFF) by (bit_vector);
        }
        self.csr.field(IID_START, IID_END)
    }

    /// Interrupt priority. Lower values indicate higher priority.
    pub fn iprio(&self) -> (iprio: usize)
        ensures
            iprio == self.iprio_spec(),
            iprio <= 0xFF,
    {
        proof {
            lemma_extract_bounded(self@, IPRIO_START, IPRIO_END);
            assert(((1usize << 8usize) - 1) as usize == 0xFF) by (bit_vector);
        }
        self.csr.field(IPRIO_START, IPRIO_END)
    }

    /// Returns true if there is a valid interrupt pending.
    pub fn is_interrupt_pending(&self) -> (pending: bool)
        ensures
            pending == (self.iid_spec() != 0),
    {
        self.iid() != 0
    }
}

} // verus!
