//! Error taxonomy of the container: a missing-service error, a resolution
//! error that wraps either that or a construction failure with its cause,
//! and the build error reserved for future static validation.

use vstd::prelude::*;

use crate::service_traits::ServiceKey;

verus! {

/// No descriptor is registered for the key, or a downcast mismatch was found
/// at typed-resolve time.
#[derive(Debug)]
pub struct ServiceNotFoundError(pub ServiceKey);

impl ServiceNotFoundError {
    /// A human-readable description of the error.
    pub fn message(&self) -> (r: String)
        ensures
            r@ == "Service with key '"@ + self.0@ + "' not found"@,
    {
        let mut s = String::from_str("Service with key '");
        s.append(self.0.0.as_str());
        s.append("' not found");
        proof {
            reveal_strlit("Service with key '");
            reveal_strlit("' not found");
            reveal_strlit("Service with key '' not found");
        }
        s
    }
}

/// Why a selected factory failed to construct an instance. The cause is
/// opaque to the provider and propagated unchanged up the call chain.
#[derive(Debug)]
pub enum ConstructionCause {
    /// The user factory reported a failure with this code.
    FactoryFailure(u64),
    /// A dependency the factory resolved through the provider failed.
    DependencyFailure(Box<ResolutionError>),
    /// The resolution chain revisited a key: a dependency cycle.
    CircularDependency,
    /// The provider has no fresh instance identity left to assign.
    InstanceIdsExhausted,
}

/// Failure of one resolution: either the key was unknown (or mismatched at
/// downcast time), or the selected factory failed with a cause.
#[derive(Debug)]
pub enum ResolutionError {
    /// No descriptor registered for the identifier, or a downcast mismatch.
    ServiceNotFound(ServiceNotFoundError),
    /// The selected factory returned a failure; the cause is nested.
    ConstructionFailed(ServiceKey, ConstructionCause),
}

/// Mathematical model of a `ConstructionCause`: keys are abstracted to their
/// character sequences.
pub ghost enum CauseModel {
    Factory(u64),
    Dependency(Box<ErrorModel>),
    Cycle,
    Exhausted,
}

/// Mathematical model of a `ResolutionError`: keys are abstracted to their
/// character sequences.
pub ghost enum ErrorModel {
    NotFound(Seq<char>),
    Construction(Seq<char>, CauseModel),
}

impl ResolutionError {
    /// The mathematical model of this error.
    pub open spec fn model(self) -> ErrorModel
        decreases self,
    {
        match self {
            ResolutionError::ServiceNotFound(e) => ErrorModel::NotFound(e.0@),
            ResolutionError::ConstructionFailed(key, cause) => ErrorModel::Construction(
                key@,
                match cause {
                    ConstructionCause::FactoryFailure(code) => CauseModel::Factory(code),
                    ConstructionCause::DependencyFailure(inner) => CauseModel::Dependency(
                        Box::new((*inner).model()),
                    ),
                    ConstructionCause::CircularDependency => CauseModel::Cycle,
                    ConstructionCause::InstanceIdsExhausted => CauseModel::Exhausted,
                },
            ),
        }
    }
}

/// Failure of `build`: reserved for future static validation of the
/// registry (e.g. circular-dependency detection); currently never produced.
#[derive(Debug)]
pub enum BuildError {
    /// The declared dependency graph contains a cycle through this key.
    CircularDependency(ServiceKey),
}

} // verus!
