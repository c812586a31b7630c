//! Access modes of a register, told apart by type.
//!
//! A register is declared with one of three modes. What may be done with it
//! follows from the mode's traits, so a write to a read-only register or a
//! read of a write-only one does not compile.

use vstd::prelude::*;

verus! {

/// A register access mode.
pub trait Access: Copy {

}

/// A mode under which the register can be read.
pub trait Read: Access {

}

/// A mode under which the register can be written.
pub trait Write: Access {

}

/// Read-only.
#[derive(Clone, Copy, Debug, PartialEq, Eq)]
pub struct RO;

/// Write-only.
#[derive(Clone, Copy, Debug, PartialEq, Eq)]
pub struct WO;

/// Read and write.
#[derive(Clone, Copy, Debug, PartialEq, Eq)]
pub struct RW;

impl Access for RO {

}

impl Read for RO {

}

impl Access for WO {

}

impl Write for WO {

}

impl Access for RW {

}

impl Read for RW {

}

impl Write for RW {

}

} // verus!
