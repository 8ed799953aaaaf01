use vstd::prelude::*;

verus! {

/// Failures of the caller-facing operations.
///
/// `IdOverflow`: the identifier counter has exhausted its representable
/// range; existing state is untouched. `InvalidId`: a referenced identifier
/// is not stored under the caller's ownership. `SameGender`: both parents
/// share a gender and cannot breed.
#[derive(Clone, Copy, PartialEq, Eq, Structural, Debug)]
pub enum Error {
    IdOverflow,
    InvalidId,
    SameGender,
}

} // verus!
