use vstd::prelude::*;

verus! {

/// How an operand's type is written at the site where the generated
/// implementation will be spliced in: is it a reference, and if so, is the
/// reference mutable.  A descriptor flagged mutable while also flagged
/// non-reference violates the caller's contract (`wf`), since only a
/// reference can carry a mutability marker.
#[derive(Clone, Copy, PartialEq, Eq, Structural, Debug)]
pub struct TypeDescriptor {
    pub is_reference: bool,
    pub is_mutable: bool,
}

impl TypeDescriptor {
    /// A mutability flag is only meaningful on a reference; there is no
    /// "owned and mutable" descriptor.
    pub open spec fn wf(self) -> bool {
        self.is_mutable ==> self.is_reference
    }

    /// Executable form of `wf`, so that unverified callers can test a
    /// descriptor before handing it to the classifier.
    pub fn is_wf(self) -> (r: bool)
        ensures
            r == self.wf(),
    {
        !self.is_mutable || self.is_reference
    }
}

/// The three ways an operand can be passed to a generated operation.
#[derive(Clone, Copy, PartialEq, Eq, Structural, Debug)]
pub enum OperandMode {
    Owned,
    Borrowed,
    MutBorrowed,
}

/// The mode a well-formed descriptor denotes: `Owned` if not a reference,
/// `MutBorrowed` if a mutable reference, `Borrowed` otherwise.
pub open spec fn classify_mode(d: TypeDescriptor) -> OperandMode {
    if !d.is_reference {
        OperandMode::Owned
    } else if d.is_mutable {
        OperandMode::MutBorrowed
    } else {
        OperandMode::Borrowed
    }
}

/// Maps a type descriptor to its operand mode.  Total over well-formed
/// descriptors; a mutable non-reference descriptor is ruled out up front
/// rather than mapped to an arbitrary mode.
pub fn classify(d: TypeDescriptor) -> (m: OperandMode)
    requires
        d.wf(),
    ensures
        m == classify_mode(d),
{
    if !d.is_reference {
        OperandMode::Owned
    } else if d.is_mutable {
        OperandMode::MutBorrowed
    } else {
        OperandMode::Borrowed
    }
}

} // verus!
