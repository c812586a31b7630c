//! Hart identifiers that are known to be valid for a target.

use vstd::prelude::*;

verus! {

/// The failure of building a hart identifier from a number beyond the
/// target's largest one. It carries the number that was refused.
#[derive(Clone, Copy, Debug, PartialEq, Eq, Structural)]
pub struct InvalidHartId(pub usize);

/// A hart identifier: a number between zero and a maximum that the target
/// fixes. Every value of an implementing type stands for a hart that exists.
pub trait HartIdNumber: Copy {
    /// The largest hart number of the target.
    spec fn max_spec() -> usize;

    /// The largest hart number of the target.
    fn max_hart_id_number() -> (max: usize)
        ensures
            max == Self::max_spec(),
    ;

    /// The number that this identifier stands for.
    spec fn number_spec(self) -> usize;

    /// The number of this hart, never above the target's maximum.
    fn number(self) -> (n: usize)
        ensures
            n == self.number_spec(),
            n <= Self::max_spec(),
    ;

    /// The identifier of hart `value`, or the refusal of a number that no
    /// hart of the target has.
    fn from_number(value: usize) -> (id: Result<Self, InvalidHartId>)
        ensures
            value <= Self::max_spec() ==> id is Ok && id->Ok_0.number_spec() == value,
            value > Self::max_spec() ==> id == Err::<Self, InvalidHartId>(
                InvalidHartId(value),
            ),
    ;
}

/// A hart identifier for a target whose harts are numbered `0 ..= MAX`.
#[derive(Clone, Copy, Debug, PartialEq, Eq)]
pub struct HartId<const MAX: usize> {
    number: usize,
}

impl<const MAX: usize> HartId<MAX> {
    #[verifier::type_invariant]
    spec fn in_range(self) -> bool {
        self.number <= MAX
    }
}

impl<const MAX: usize> HartIdNumber for HartId<MAX> {
    open spec fn max_spec() -> usize {
        MAX
    }

    fn max_hart_id_number() -> (max: usize) {
        MAX
    }

    closed spec fn number_spec(self) -> usize {
        self.number
    }

    fn number(self) -> (n: usize) {
        proof {
            use_type_invariant(self);
        }
        self.number
    }

    fn from_number(value: usize) -> (id: Result<Self, InvalidHartId>) {
        if value <= MAX {
            Ok(HartId { number: value })
        } else {
            Err(InvalidHartId(value))
        }
    }
}

} // verus!
