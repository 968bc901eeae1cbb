//! A dependency-injection container: a registry that maps service keys to
//! descriptors, a provider that resolves a key to a constructed-or-cached
//! instance under a lifetime policy (singleton, scoped, transient), and a
//! tag-checked type-erasure handle that lets heterogeneous instances be
//! stored uniformly and retrieved safely.

use vstd::prelude::*;

pub mod errors;
pub mod service_collection;
pub mod service_provider;
pub mod service_ref;
pub mod service_traits;

use service_collection::ServiceCollectionImpl;
use service_traits::ServiceDescriptor;

verus! {

/// Creates an empty service collection, ready for registration.
pub fn new_service_collection() -> (r: ServiceCollectionImpl)
    ensures
        r.descriptors() == Seq::<ServiceDescriptor>::empty(),
{
    ServiceCollectionImpl::new()
}

/// Returns the sum of two numbers.
pub fn add(a: i32, b: i32) -> (r: i32)
    requires
        i32::MIN <= a + b <= i32::MAX,
    ensures
        r == a + b,
{
    a + b
}

} // verus!
