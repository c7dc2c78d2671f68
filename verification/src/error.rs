//! The ways a run can fail. None of them is recoverable: a run that fails is
//! given up, with a message.

use vstd::prelude::*;

verus! {

#[derive(Clone, Copy, Debug, PartialEq, Eq, Structural)]
pub enum Error {
    /// The descriptor at `index` cannot be simulated: a component is not
    /// finite, a mass is negative, or an orbital normal has no direction.
    InvalidDescriptor { index: usize },
    /// No executor could be acquired for the integration step.
    ExecutorUnavailable,
    /// An integration step left the particle at `index` with a position or
    /// velocity that is not finite.
    NumericDegeneracy { index: usize },
}

impl Error {
    /// What to tell the operator.
    pub open spec fn text(self) -> Seq<char> {
        match self {
            Error::InvalidDescriptor { index } => "invalid descriptor: components must be finite, masses not negative, orbital normals not zero"@,
            Error::ExecutorUnavailable => "no executor available for the integration step"@,
            Error::NumericDegeneracy { index } => "numeric degeneracy: a position or velocity is no longer finite"@,
        }
    }

    /// What to tell the operator.
    pub fn message(&self) -> (text: &'static str)
        ensures
            text@ == self.text(),
    {
        match self {
            Error::InvalidDescriptor { index } => "invalid descriptor: components must be finite, masses not negative, orbital normals not zero",
            Error::ExecutorUnavailable => "no executor available for the integration step",
            Error::NumericDegeneracy { index } => "numeric degeneracy: a position or velocity is no longer finite",
        }
    }

    /// The descriptor or particle that the failure was found at, if it was
    /// found at one.
    pub fn index(&self) -> (at: Option<usize>)
        ensures
            at == match *self {
                Error::InvalidDescriptor { index } => Some(index),
                Error::ExecutorUnavailable => None,
                Error::NumericDegeneracy { index } => Some(index),
            },
    {
        match self {
            Error::InvalidDescriptor { index } => Some(*index),
            Error::ExecutorUnavailable => None,
            Error::NumericDegeneracy { index } => Some(*index),
        }
    }
}

} // verus!
