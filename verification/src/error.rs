use vstd::prelude::*;

verus! {

/// Error taxonomy shared by the kind codec and the registry accessors.
///
/// Every malformed input is reported through one of these variants; no
/// operation of the library panics on data-shape problems.
#[derive(Clone, Copy, Debug, PartialEq, Eq, Structural)]
pub enum ServiceError {
    /// A candidate wire tag matched no canonical service kind.
    UnknownServiceKind,
    /// The requested kind has no entry in the registry.
    ServiceNotConfigured,
    /// The entry stored under the requested kind carries a tag that disagrees
    /// with the requested descriptor type.
    ServiceTypeMismatch,
    /// An insertion paired a key with a descriptor whose tag disagrees with it.
    InvariantViolation,
}

impl ServiceError {
    /// A short human-readable name for the error, for callers that log it.
    pub fn describe(&self) -> (r: &'static str)
        ensures
            r@ == self.spec_describe(),
    {
        match self {
            ServiceError::UnknownServiceKind => "unknown service kind",
            ServiceError::ServiceNotConfigured => "service not configured",
            ServiceError::ServiceTypeMismatch => "service type mismatch",
            ServiceError::InvariantViolation => "invariant violation",
        }
    }

    /// The text `describe` returns for each variant.
    pub open spec fn spec_describe(self) -> Seq<char> {
        match self {
            ServiceError::UnknownServiceKind => "unknown service kind"@,
            ServiceError::ServiceNotConfigured => "service not configured"@,
            ServiceError::ServiceTypeMismatch => "service type mismatch"@,
            ServiceError::InvariantViolation => "invariant violation"@,
        }
    }
}

} // verus!
