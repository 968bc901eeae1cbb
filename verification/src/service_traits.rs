//! The data model of the container: service keys, lifetime policies, runtime
//! type tags, factories, registration descriptors, and the type-erasure
//! handle that carries one constructed instance.

use vstd::prelude::*;

use crate::errors::{BuildError, ErrorModel, ResolutionError};
use crate::service_collection::{lookup_in, ServiceCollectionImpl};
use crate::service_provider::{resolve_key_model, ServiceProviderImpl};

verus! {

/// Canonical string key naming a requested capability (an interface, with its
/// rendered generic parameters, e.g. `"ExampleService<Other>"`).
#[derive(Debug, Eq, Hash, PartialOrd, Ord)]
pub struct ServiceKey(pub String);

impl View for ServiceKey {
    type V = Seq<char>;

    open spec fn view(&self) -> Seq<char> {
        self.0@
    }
}

impl PartialEq for ServiceKey {
    fn eq(&self, other: &Self) -> bool {
        self.0 == other.0
    }
}

impl vstd::std_specs::cmp::PartialEqSpecImpl for ServiceKey {
    open spec fn obeys_eq_spec() -> bool {
        true
    }

    open spec fn eq_spec(&self, other: &Self) -> bool {
        self@ == other@
    }
}

impl Clone for ServiceKey {
    fn clone(&self) -> (r: Self)
        ensures
            r@ == self@,
    {
        ServiceKey(self.0.clone())
    }
}

/// Construction and caching policy of a registered service.
#[derive(Clone, Copy, Debug, PartialEq, Eq, Structural)]
pub enum ServiceLifetime {
    /// One instance is constructed and cached; later resolutions return it.
    Singleton,
    /// Intended per-scope caching; currently resolved like `Transient`.
    Scoped,
    /// A fresh instance is constructed on every resolution.
    Transient,
}

/// Process-unique token identifying a concrete implementation type. It keys
/// the singleton cache and guards downcasts at the type-erasure boundary.
#[derive(Clone, Copy, Debug, PartialEq, Eq, Structural, Hash)]
pub struct ServiceTypeId(pub u64);

/// Describes how one instance of a service is built: which keys the factory
/// resolves through the provider before constructing, and what it produces.
#[derive(Debug)]
pub enum ServiceFactory {
    /// Resolves each key in `needs` through the provider, in order, then
    /// constructs an instance whose observable state is `payload`.
    Construct { needs: Vec<ServiceKey>, payload: u64 },
    /// Reports a construction failure carrying a user error code.
    Fail { code: u64 },
}

/// Per-registration record: the key it is registered under, its lifetime
/// policy, its declared dependency keys (introspection only; the provider
/// does not enforce them), the runtime type tag of the concrete
/// implementation, and the factory that builds one instance.
#[derive(Debug)]
pub struct ServiceDescriptor {
    /// The key under which this descriptor is registered.
    pub identifier: ServiceKey,
    /// Construction and caching policy.
    pub lifetime: ServiceLifetime,
    /// Declared dependency keys, kept for introspection.
    pub dependencies: Vec<ServiceKey>,
    /// Runtime type tag of the concrete implementation.
    pub service_type: ServiceTypeId,
    /// Builds one instance, resolving its own needs through the provider.
    pub factory: ServiceFactory,
}

impl ServiceDescriptor {
    /// The lifetime of this service.
    pub fn lifetime(&self) -> (r: ServiceLifetime)
        ensures
            r == self.lifetime,
    {
        self.lifetime
    }

    /// The key of this service.
    pub fn identifier(&self) -> (r: ServiceKey)
        ensures
            r@ == self.identifier@,
    {
        self.identifier.clone()
    }

    /// The declared dependency keys of this service.
    pub fn dependencies(&self) -> (r: Vec<ServiceKey>)
        ensures
            r@.len() == self.dependencies@.len(),
            forall|i: int| 0 <= i < r@.len() ==> r@[i]@ == self.dependencies@[i]@,
    {
        let mut out: Vec<ServiceKey> = Vec::new();
        let mut i: usize = 0;
        let n = self.dependencies.len();
        while i < n
            invariant
                i <= n,
                n == self.dependencies@.len(),
                out@.len() == i,
                forall|j: int| 0 <= j < i ==> out@[j]@ == self.dependencies@[j]@,
            decreases n - i,
        {
            out.push(self.dependencies[i].clone());
            i = i + 1;
        }
        out
    }

    /// The runtime type tag of the service implementation.
    pub fn service_type(&self) -> (r: ServiceTypeId)
        ensures
            r == self.service_type,
    {
        self.service_type
    }
}

/// Type-erasure handle: a shareable handle to one constructed service
/// instance, opaque at the erasure boundary but carrying the runtime type
/// tag of its concrete implementation so that it can be downcast safely.
/// Clones of a handle refer to the same underlying instance, witnessed by
/// an instance identity that the provider assigns at construction time.
#[derive(Clone, Copy, Debug, PartialEq, Eq, Structural)]
pub struct AnyArc {
    /// Runtime type tag of the instance's concrete implementation.
    pub service_type: ServiceTypeId,
    /// Identity of the underlying instance: two handles with equal
    /// `instance` refer to the same constructed instance.
    pub instance: u64,
    /// Observable state of the instance.
    pub value: u64,
}

impl AnyArc {
    /// True when the handle's runtime type tag equals `service_type`:
    /// the instance may then be downcast to that implementation type.
    pub fn is(&self, service_type: ServiceTypeId) -> (r: bool)
        ensures
            r == (self.service_type == service_type),
    {
        self.service_type == service_type
    }

    /// Clones the shared handle; the clone refers to the same underlying
    /// instance.
    pub fn clone_arc(&self) -> (r: AnyArc)
        ensures
            r == *self,
    {
        *self
    }

    /// Downcast probe: on a tag match returns the handle as the requested
    /// type; on a mismatch returns the original handle unchanged, so the
    /// probe is non-destructive.
    pub fn downcast(self, service_type: ServiceTypeId) -> (r: Result<AnyArc, AnyArc>)
        ensures
            self.service_type == service_type ==> r == Result::<AnyArc, AnyArc>::Ok(self),
            self.service_type != service_type ==> r == Result::<AnyArc, AnyArc>::Err(self),
    {
        if self.service_type == service_type {
            Ok(self)
        } else {
            Err(self)
        }
    }
}

/// Constructor convention for a service implementation: builds one value of
/// the implementing type from its resolved dependencies, or reports a user
/// error code.
pub trait Service<Deps>: Sized {
    /// Constructs a new instance of the service based on the dependencies.
    fn new(deps: Deps) -> Result<Self, u64>;
}

/// A registry of service descriptors under their identifiers.
pub trait ServiceCollection: Sized {
    /// All registered descriptors, in registration order.
    spec fn descriptors_spec(&self) -> Seq<ServiceDescriptor>;

    /// Appends the descriptor to the registration list for its identifier.
    /// Duplicate identifiers are legal and represent multi-registration.
    fn register_service(&mut self, service_descriptor: ServiceDescriptor)
        ensures
            final(self).descriptors_spec() == old(self).descriptors_spec().push(
                service_descriptor,
            ),
    ;

    /// The descriptors registered under `service_key`, in registration
    /// order; the empty vector when the key is unknown.
    fn get_services<'a>(&'a self, service_key: &ServiceKey) -> (r: Vec<&'a ServiceDescriptor>)
        ensures
            r@.map_values(|d: &ServiceDescriptor| *d) == lookup_in(
                self.descriptors_spec(),
                service_key@,
            ),
    ;
}

/// A resolver that answers lookups by key with type-erased handles.
pub trait ServiceProvider: Sized {
    /// The registry this provider was built from.
    spec fn registry_spec(&self) -> ServiceCollectionImpl;

    /// The singleton cache contents, in insertion order.
    spec fn cache_spec(&self) -> Seq<AnyArc>;

    /// The next unassigned instance identity.
    spec fn next_instance_spec(&self) -> u64;

    /// Resolves `key` to a type-erased handle, exactly as
    /// [`resolve_key_model`] says.
    fn get_service_any(&mut self, key: &ServiceKey) -> (r: Result<AnyArc, ResolutionError>)
        ensures
            ({
                let m = resolve_key_model(
                    old(self).registry_spec(),
                    old(self).cache_spec(),
                    old(self).next_instance_spec(),
                    key@,
                    old(self).registry_spec().descriptor_count(),
                );
                &&& final(self).registry_spec() == old(self).registry_spec()
                &&& final(self).cache_spec() == m.cache
                &&& final(self).next_instance_spec() == m.next_instance
                &&& match r {
                    Ok(h) => m.result == Result::<AnyArc, ErrorModel>::Ok(h),
                    Err(e) => m.result == Result::<AnyArc, ErrorModel>::Err(e.model()),
                }
            }),
    ;
}

/// A resolver that also downcasts the handle to a requested implementation
/// type.
pub trait GenericServiceProvider: ServiceProvider {
    /// Resolves `key` and downcasts the handle to the implementation type
    /// tagged `service_type`; a tag mismatch is reported as the
    /// missing-service error.
    fn get_service(&mut self, key: &ServiceKey, service_type: ServiceTypeId) -> (r: Result<
        AnyArc,
        ResolutionError,
    >)
        ensures
            ({
                let m = resolve_key_model(
                    old(self).registry_spec(),
                    old(self).cache_spec(),
                    old(self).next_instance_spec(),
                    key@,
                    old(self).registry_spec().descriptor_count(),
                );
                &&& final(self).registry_spec() == old(self).registry_spec()
                &&& final(self).cache_spec() == m.cache
                &&& final(self).next_instance_spec() == m.next_instance
                &&& match r {
                    Ok(h) => m.result == Result::<AnyArc, ErrorModel>::Ok(h) && h.service_type
                        == service_type,
                    Err(e) => match m.result {
                        Ok(h) => h.service_type != service_type && e.model()
                            == ErrorModel::NotFound(key@),
                        Err(em) => e.model() == em,
                    },
                }
            }),
    ;
}

/// Turns a completed registry into a ready provider (a one-shot, consuming
/// transform).
pub trait ServiceProviderBuilder: ServiceCollection {
    /// Consumes the collection and wraps it into a provider with an empty
    /// singleton cache; reserved for future static validation, it
    /// currently always succeeds.
    fn build(self) -> (r: Result<ServiceProviderImpl, BuildError>)
        ensures
            r matches Ok(p) && p.registry().descriptors() == self.descriptors_spec()
                && p.cache() == Seq::<AnyArc>::empty() && p.next_instance() == 0,
    ;
}

} // verus!
