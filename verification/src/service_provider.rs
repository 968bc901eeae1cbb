//! The provider: consumes a built service collection, owns the singleton
//! cache, and resolves a key to a constructed-or-cached instance under the
//! registered lifetime policy.
//!
//! Resolution is specified by a mathematical interpreter
//! ([`resolve_key_model`]) over the registry, the cache contents and the
//! next instance identity; every executable resolution method is proved to
//! return and to leave the provider exactly as the interpreter says.

use vstd::prelude::*;

use crate::errors::{
    BuildError, CauseModel, ConstructionCause, ErrorModel, ResolutionError, ServiceNotFoundError,
};
use crate::service_collection::ServiceCollectionImpl;
use crate::service_traits::{
    AnyArc, GenericServiceProvider, ServiceFactory, ServiceKey, ServiceLifetime, ServiceProvider,
    ServiceProviderBuilder, ServiceTypeId,
};

verus! {

/// The first cached handle whose runtime type tag is `service_type`, if any.
pub open spec fn cache_lookup(cache: Seq<AnyArc>, service_type: ServiceTypeId) -> Option<AnyArc>
    decreases cache.len(),
{
    if cache.len() == 0 {
        None
    } else if cache[0].service_type == service_type {
        Some(cache[0])
    } else {
        cache_lookup(cache.drop_first(), service_type)
    }
}

/// The character sequences of a list of keys.
pub open spec fn key_views(keys: Seq<ServiceKey>) -> Seq<Seq<char>> {
    keys.map_values(|k: ServiceKey| k@)
}

/// What one resolution returns and what it leaves behind: the outcome, the
/// singleton cache afterwards, and the next unassigned instance identity.
pub ghost struct ResolveModel {
    pub result: Result<AnyArc, ErrorModel>,
    pub cache: Seq<AnyArc>,
    pub next_instance: u64,
}

/// What resolving a factory's dependency list leaves behind: the first
/// failure (if any), the singleton cache afterwards, and the next
/// unassigned instance identity.
pub ghost struct DepsModel {
    pub failure: Option<ErrorModel>,
    pub cache: Seq<AnyArc>,
    pub next_instance: u64,
}

/// The meaning of resolving `key` against `services` with singleton cache
/// `cache` and next instance identity `next_instance`:
///
/// 1. an unknown key fails with the missing-service error;
/// 2. otherwise the first registered descriptor is selected;
/// 3. a singleton whose type tag is cached resolves to the cached handle;
/// 4. exhausted `fuel` means the resolution chain has revisited a key, a
///    dependency cycle;
/// 5. otherwise the factory runs: its needs are resolved through the same
///    provider state in order (a failure is wrapped as a construction
///    failure of `key`), then an instance with a fresh identity is
///    constructed; a singleton instance is cached unless a recursive
///    resolution cached one with the same tag meanwhile, in which case that
///    earlier handle wins and the fresh one is discarded.
pub open spec fn resolve_key_model(
    services: ServiceCollectionImpl,
    cache: Seq<AnyArc>,
    next_instance: u64,
    key: Seq<char>,
    fuel: nat,
) -> ResolveModel
    decreases fuel, 0nat, 0nat,
{
    let ds = services.lookup(key);
    if ds.len() == 0 {
        ResolveModel {
            result: Err(ErrorModel::NotFound(key)),
            cache: cache,
            next_instance: next_instance,
        }
    } else {
        let d = ds[0];
        if d.lifetime is Singleton && cache_lookup(cache, d.service_type) is Some {
            ResolveModel {
                result: Ok(cache_lookup(cache, d.service_type)->Some_0),
                cache: cache,
                next_instance: next_instance,
            }
        } else if fuel == 0 {
            ResolveModel {
                result: Err(ErrorModel::Construction(key, CauseModel::Cycle)),
                cache: cache,
                next_instance: next_instance,
            }
        } else {
            match d.factory {
                ServiceFactory::Fail { code } => ResolveModel {
                    result: Err(ErrorModel::Construction(key, CauseModel::Factory(code))),
                    cache: cache,
                    next_instance: next_instance,
                },
                ServiceFactory::Construct { needs, payload } => {
                    let deps = resolve_deps_model(
                        services,
                        cache,
                        next_instance,
                        key_views(needs@),
                        (fuel - 1) as nat,
                    );
                    match deps.failure {
                        Some(e) => ResolveModel {
                            result: Err(
                                ErrorModel::Construction(
                                    key,
                                    CauseModel::Dependency(Box::new(e)),
                                ),
                            ),
                            cache: deps.cache,
                            next_instance: deps.next_instance,
                        },
                        None => {
                            if deps.next_instance == u64::MAX {
                                ResolveModel {
                                    result: Err(
                                        ErrorModel::Construction(key, CauseModel::Exhausted),
                                    ),
                                    cache: deps.cache,
                                    next_instance: deps.next_instance,
                                }
                            } else {
                                let handle = AnyArc {
                                    service_type: d.service_type,
                                    instance: deps.next_instance,
                                    value: payload,
                                };
                                let bumped = (deps.next_instance + 1) as u64;
                                if d.lifetime is Singleton {
                                    match cache_lookup(deps.cache, d.service_type) {
                                        Some(winner) => ResolveModel {
                                            result: Ok(winner),
                                            cache: deps.cache,
                                            next_instance: bumped,
                                        },
                                        None => ResolveModel {
                                            result: Ok(handle),
                                            cache: deps.cache.push(handle),
                                            next_instance: bumped,
                                        },
                                    }
                                } else {
                                    ResolveModel {
                                        result: Ok(handle),
                                        cache: deps.cache,
                                        next_instance: bumped,
                                    }
                                }
                            }
                        },
                    }
                },
            }
        }
    }
}

/// The meaning of resolving a factory's dependency keys in order, each
/// against the state the previous one left: stops at the first failure;
/// singletons cached by an earlier dependency stay cached even when a later
/// one fails.
pub open spec fn resolve_deps_model(
    services: ServiceCollectionImpl,
    cache: Seq<AnyArc>,
    next_instance: u64,
    deps: Seq<Seq<char>>,
    fuel: nat,
) -> DepsModel
    decreases fuel, 1nat, deps.len(),
{
    if deps.len() == 0 {
        DepsModel { failure: None, cache: cache, next_instance: next_instance }
    } else {
        let first = resolve_key_model(services, cache, next_instance, deps[0], fuel);
        match first.result {
            Err(e) => DepsModel {
                failure: Some(e),
                cache: first.cache,
                next_instance: first.next_instance,
            },
            Ok(_) => resolve_deps_model(
                services,
                first.cache,
                first.next_instance,
                deps.drop_first(),
                fuel,
            ),
        }
    }
}

/// Returns a copy of the first cached handle with the given type tag.
fn find_cached(cache: &Vec<AnyArc>, service_type: ServiceTypeId) -> (r: Option<AnyArc>)
    ensures
        r == cache_lookup(cache@, service_type),
{
    let mut i: usize = 0;
    let n = cache.len();
    proof {
        assert(cache@.skip(0) =~= cache@);
    }
    while i < n
        invariant
            i <= n,
            n == cache@.len(),
            cache_lookup(cache@, service_type) == cache_lookup(cache@.skip(i as int), service_type),
        decreases n - i,
    {
        let ghost rest = cache@.skip(i as int);
        proof {
            assert(rest.drop_first() =~= cache@.skip(i as int + 1));
            assert(rest[0] == cache@[i as int]);
        }
        if cache[i].is(service_type) {
            return Some(cache[i]);
        }
        i = i + 1;
    }
    proof {
        assert(cache@.skip(n as int) =~= Seq::<AnyArc>::empty());
    }
    None
}

/// Returns a copy of a list of keys.
fn clone_keys(keys: &Vec<ServiceKey>) -> (r: Vec<ServiceKey>)
    ensures
        r@.len() == keys@.len(),
        forall|i: int| 0 <= i < keys@.len() ==> r@[i]@ == keys@[i]@,
{
    let mut out: Vec<ServiceKey> = Vec::new();
    let mut i: usize = 0;
    let n = keys.len();
    while i < n
        invariant
            i <= n,
            n == keys@.len(),
            out@.len() == i,
            forall|j: int| 0 <= j < i ==> out@[j]@ == keys@[j]@,
        decreases n - i,
    {
        out.push(keys[i].clone());
        i = i + 1;
    }
    out
}

/// Returns a copy of a factory description.
fn clone_factory(factory: &ServiceFactory) -> (r: ServiceFactory)
    ensures
        *factory matches ServiceFactory::Construct { needs, payload } ==> (
        r matches ServiceFactory::Construct { needs: n, payload: p } && key_views(n@) == key_views(
            needs@,
        ) && p == payload),
        *factory matches ServiceFactory::Fail { code } ==> r == (ServiceFactory::Fail { code }),
{
    match factory {
        ServiceFactory::Construct { needs, payload } => {
            let cloned = clone_keys(needs);
            proof {
                assert(key_views(cloned@) =~= key_views(needs@));
            }
            ServiceFactory::Construct { needs: cloned, payload: *payload }
        },
        ServiceFactory::Fail { code } => ServiceFactory::Fail { code: *code },
    }
}

/// The resolver: owns the registry it was built from and the singleton
/// cache, and answers lookups by key.
pub struct ServiceProviderImpl {
    services: ServiceCollectionImpl,
    singletons: Vec<AnyArc>,
    next_instance: u64,
}

impl ServiceProviderImpl {
    /// The registry this provider was built from.
    pub closed spec fn registry(self) -> ServiceCollectionImpl {
        self.services
    }

    /// The singleton cache contents, in insertion order.
    pub closed spec fn cache(self) -> Seq<AnyArc> {
        self.singletons@
    }

    /// The next unassigned instance identity; equally, how many instances
    /// have been constructed so far.
    pub closed spec fn next_instance(self) -> u64 {
        self.next_instance
    }

    /// Wraps a service collection into a provider with an empty singleton
    /// cache.
    pub fn new(services: ServiceCollectionImpl) -> (r: Self)
        ensures
            r.registry() == services,
            r.cache() == Seq::<AnyArc>::empty(),
            r.next_instance() == 0,
    {
        ServiceProviderImpl { services, singletons: Vec::new(), next_instance: 0 }
    }

    /// How many instances this provider has constructed so far (a
    /// side-channel for observing factory invocations).
    pub fn instances_created(&self) -> (r: u64)
        ensures
            r == self.next_instance(),
    {
        self.next_instance
    }

    /// Resolves `key` with a recursion allowance of `fuel`, exactly as
    /// [`resolve_key_model`] says.
    #[verifier::loop_isolation(false)]
    fn resolve_key(&mut self, key: &ServiceKey, fuel: usize) -> (r: Result<AnyArc, ResolutionError>)
        ensures
            ({
                let m = resolve_key_model(
                    old(self).registry(),
                    old(self).cache(),
                    old(self).next_instance(),
                    key@,
                    fuel as nat,
                );
                &&& final(self).registry() == old(self).registry()
                &&& final(self).cache() == m.cache
                &&& final(self).next_instance() == m.next_instance
                &&& match r {
                    Ok(h) => m.result == Result::<AnyArc, ErrorModel>::Ok(h),
                    Err(e) => m.result == Result::<AnyArc, ErrorModel>::Err(e.model()),
                }
            }),
        decreases fuel,
    {
        let ghost reg0 = self.registry();
        let found = self.services.find_first(key);
        let (lifetime, service_type, factory) = match found {
            None => {
                return Err(ResolutionError::ServiceNotFound(ServiceNotFoundError(key.clone())));
            },
            Some(d) => (d.lifetime, d.service_type, clone_factory(&d.factory)),
        };
        let ghost d0 = self.registry().lookup(key@)[0];
        if let ServiceLifetime::Singleton = lifetime {
            if let Some(existing) = find_cached(&self.singletons, service_type) {
                return Ok(existing.clone_arc());
            }
        }
        if fuel == 0 {
            return Err(
                ResolutionError::ConstructionFailed(
                    key.clone(),
                    ConstructionCause::CircularDependency,
                ),
            );
        }
        match factory {
            ServiceFactory::Fail { code } => {
                Err(
                    ResolutionError::ConstructionFailed(
                        key.clone(),
                        ConstructionCause::FactoryFailure(code),
                    ),
                )
            },
            ServiceFactory::Construct { needs, payload } => {
                let ghost dep_views = key_views(needs@);
                let ghost cache1 = self.cache();
                let ghost next1 = self.next_instance();
                let ghost dm = resolve_deps_model(
                    reg0,
                    cache1,
                    next1,
                    dep_views,
                    (fuel - 1) as nat,
                );
                proof {
                    assert(d0.factory matches ServiceFactory::Construct { needs: n0, payload: p0 }
                        && key_views(n0@) == dep_views && p0 == payload);
                    assert(dep_views.skip(0) =~= dep_views);
                }
                let mut j: usize = 0;
                let n = needs.len();
                while j < n
                    invariant
                        j <= n,
                        n == needs@.len(),
                        dep_views == key_views(needs@),
                        dep_views.len() == n,
                        forall|t: int| 0 <= t < n ==> dep_views[t] == needs@[t]@,
                        self.registry() == reg0,
                        dm == resolve_deps_model(
                            reg0,
                            self.cache(),
                            self.next_instance(),
                            dep_views.skip(j as int),
                            (fuel - 1) as nat,
                        ),
                    decreases n - j,
                {
                    let ghost rest = dep_views.skip(j as int);
                    proof {
                        assert(rest.drop_first() =~= dep_views.skip(j as int + 1));
                        assert(rest[0] == dep_views[j as int]);
                    }
                    let dep_r = self.resolve_key(&needs[j], fuel - 1);
                    match dep_r {
                        Err(e) => {
                            return Err(
                                ResolutionError::ConstructionFailed(
                                    key.clone(),
                                    ConstructionCause::DependencyFailure(Box::new(e)),
                                ),
                            );
                        },
                        Ok(_) => {},
                    }
                    j = j + 1;
                }
                proof {
                    assert(dep_views.skip(n as int) =~= Seq::<Seq<char>>::empty());
                }
                if self.next_instance == u64::MAX {
                    return Err(
                        ResolutionError::ConstructionFailed(
                            key.clone(),
                            ConstructionCause::InstanceIdsExhausted,
                        ),
                    );
                }
                let handle = AnyArc { service_type, instance: self.next_instance, value: payload };
                self.next_instance = self.next_instance + 1;
                if let ServiceLifetime::Singleton = lifetime {
                    if let Some(winner) = find_cached(&self.singletons, service_type) {
                        Ok(winner)
                    } else {
                        self.singletons.push(handle);
                        Ok(handle)
                    }
                } else {
                    Ok(handle)
                }
            },
        }
    }
}

impl ServiceProvider for ServiceProviderImpl {
    open spec fn registry_spec(&self) -> ServiceCollectionImpl {
        self.registry()
    }

    open spec fn cache_spec(&self) -> Seq<AnyArc> {
        self.cache()
    }

    open spec fn next_instance_spec(&self) -> u64 {
        self.next_instance()
    }

    /// Selects the first registered descriptor for `key`, applies its
    /// lifetime policy, and runs its factory on a cache miss; the recursion
    /// allowance equals the number of registered descriptors, which only a
    /// dependency cycle can exhaust.
    fn get_service_any(&mut self, key: &ServiceKey) -> (r: Result<AnyArc, ResolutionError>) {
        let fuel = self.services.len();
        self.resolve_key(key, fuel)
    }
}

impl GenericServiceProvider for ServiceProviderImpl {
    /// Resolves through [`ServiceProvider::get_service_any`], then
    /// downcasts by tag; the probe never yields a wrongly-tagged handle.
    fn get_service(&mut self, key: &ServiceKey, service_type: ServiceTypeId) -> (r: Result<
        AnyArc,
        ResolutionError,
    >) {
        match self.get_service_any(key) {
            Err(e) => Err(e),
            Ok(h) => match h.downcast(service_type) {
                Ok(typed) => Ok(typed),
                Err(_) => Err(
                    ResolutionError::ServiceNotFound(ServiceNotFoundError(key.clone())),
                ),
            },
        }
    }
}

/// A cached handle found by tag carries that tag.
proof fn lemma_cache_lookup_tag(cache: Seq<AnyArc>, service_type: ServiceTypeId)
    ensures
        cache_lookup(cache, service_type) matches Some(h) ==> h.service_type == service_type,
    decreases cache.len(),
{
    if cache.len() > 0 && cache[0].service_type != service_type {
        lemma_cache_lookup_tag(cache.drop_first(), service_type);
    }
}

/// Caching a handle under a tag not yet cached makes it the one found.
proof fn lemma_cache_lookup_push(cache: Seq<AnyArc>, h: AnyArc, service_type: ServiceTypeId)
    requires
        cache_lookup(cache, service_type) is None,
        h.service_type == service_type,
    ensures
        cache_lookup(cache.push(h), service_type) == Some(h),
    decreases cache.len(),
{
    let pushed = cache.push(h);
    if cache.len() == 0 {
        assert(pushed[0] == h);
    } else {
        lemma_cache_lookup_push(cache.drop_first(), h, service_type);
        assert(pushed.drop_first() =~= cache.drop_first().push(h));
        assert(pushed[0] == cache[0]);
    }
}

/// Appending a handle to the cache leaves every already-found entry found.
proof fn lemma_cache_lookup_push_stable(
    cache: Seq<AnyArc>,
    x: AnyArc,
    service_type: ServiceTypeId,
)
    requires
        cache_lookup(cache, service_type) is Some,
    ensures
        cache_lookup(cache.push(x), service_type) == cache_lookup(cache, service_type),
    decreases cache.len(),
{
    let pushed = cache.push(x);
    assert(pushed[0] == cache[0]);
    if cache[0].service_type != service_type {
        lemma_cache_lookup_push_stable(cache.drop_first(), x, service_type);
        assert(pushed.drop_first() =~= cache.drop_first().push(x));
    }
}

/// The singleton-cache invariant: once a handle is cached under a type
/// tag, every later resolution leaves that very handle cached — no entry
/// is ever removed or replaced, so all subsequent lookups of the tag
/// return the one winning handle.
pub proof fn lemma_cache_entry_permanent(
    services: ServiceCollectionImpl,
    cache: Seq<AnyArc>,
    next_instance: u64,
    key: Seq<char>,
    fuel: nat,
    service_type: ServiceTypeId,
)
    requires
        cache_lookup(cache, service_type) is Some,
    ensures
        cache_lookup(
            resolve_key_model(services, cache, next_instance, key, fuel).cache,
            service_type,
        ) == cache_lookup(cache, service_type),
    decreases fuel, 0nat, 0nat,
{
    let ds = services.lookup(key);
    if ds.len() > 0 {
        let d = ds[0];
        if !(d.lifetime is Singleton && cache_lookup(cache, d.service_type) is Some) && fuel > 0 {
            match d.factory {
                ServiceFactory::Fail { .. } => {},
                ServiceFactory::Construct { needs, payload } => {
                    lemma_deps_cache_entry_permanent(
                        services,
                        cache,
                        next_instance,
                        key_views(needs@),
                        (fuel - 1) as nat,
                        service_type,
                    );
                    let deps = resolve_deps_model(
                        services,
                        cache,
                        next_instance,
                        key_views(needs@),
                        (fuel - 1) as nat,
                    );
                    if deps.failure is None && deps.next_instance != u64::MAX {
                        if d.lifetime is Singleton && cache_lookup(
                            deps.cache,
                            d.service_type,
                        ) is None {
                            let handle = AnyArc {
                                service_type: d.service_type,
                                instance: deps.next_instance,
                                value: payload,
                            };
                            lemma_cache_lookup_push_stable(deps.cache, handle, service_type);
                        }
                    }
                },
            }
        }
    }
}

/// The singleton-cache invariant holds across resolving a dependency list.
pub proof fn lemma_deps_cache_entry_permanent(
    services: ServiceCollectionImpl,
    cache: Seq<AnyArc>,
    next_instance: u64,
    deps: Seq<Seq<char>>,
    fuel: nat,
    service_type: ServiceTypeId,
)
    requires
        cache_lookup(cache, service_type) is Some,
    ensures
        cache_lookup(
            resolve_deps_model(services, cache, next_instance, deps, fuel).cache,
            service_type,
        ) == cache_lookup(cache, service_type),
    decreases fuel, 1nat, deps.len(),
{
    if deps.len() > 0 {
        lemma_cache_entry_permanent(services, cache, next_instance, deps[0], fuel, service_type);
        let first = resolve_key_model(services, cache, next_instance, deps[0], fuel);
        if first.result is Ok {
            lemma_deps_cache_entry_permanent(
                services,
                first.cache,
                first.next_instance,
                deps.drop_first(),
                fuel,
                service_type,
            );
        }
    }
}

/// Resolution never takes an instance identity back: the next unassigned
/// identity only grows.
pub proof fn lemma_resolve_next_monotone(
    services: ServiceCollectionImpl,
    cache: Seq<AnyArc>,
    next_instance: u64,
    key: Seq<char>,
    fuel: nat,
)
    ensures
        resolve_key_model(services, cache, next_instance, key, fuel).next_instance
            >= next_instance,
    decreases fuel, 0nat, 0nat,
{
    let ds = services.lookup(key);
    if ds.len() > 0 {
        let d = ds[0];
        if !(d.lifetime is Singleton && cache_lookup(cache, d.service_type) is Some) && fuel > 0 {
            match d.factory {
                ServiceFactory::Fail { .. } => {},
                ServiceFactory::Construct { needs, .. } => {
                    lemma_deps_next_monotone(
                        services,
                        cache,
                        next_instance,
                        key_views(needs@),
                        (fuel - 1) as nat,
                    );
                },
            }
        }
    }
}

/// Resolving a dependency list never takes an instance identity back.
pub proof fn lemma_deps_next_monotone(
    services: ServiceCollectionImpl,
    cache: Seq<AnyArc>,
    next_instance: u64,
    deps: Seq<Seq<char>>,
    fuel: nat,
)
    ensures
        resolve_deps_model(services, cache, next_instance, deps, fuel).next_instance
            >= next_instance,
    decreases fuel, 1nat, deps.len(),
{
    if deps.len() > 0 {
        lemma_resolve_next_monotone(services, cache, next_instance, deps[0], fuel);
        let first = resolve_key_model(services, cache, next_instance, deps[0], fuel);
        if first.result is Ok {
            lemma_deps_next_monotone(
                services,
                first.cache,
                first.next_instance,
                deps.drop_first(),
                fuel,
            );
        }
    }
}

/// A successful resolution of a key whose selected descriptor is a
/// singleton leaves the returned handle cached under the descriptor's tag.
pub proof fn lemma_singleton_cached(
    services: ServiceCollectionImpl,
    cache: Seq<AnyArc>,
    next_instance: u64,
    key: Seq<char>,
    fuel: nat,
)
    requires
        services.lookup(key).len() > 0,
        services.lookup(key)[0].lifetime is Singleton,
    ensures
        ({
            let d = services.lookup(key)[0];
            let r = resolve_key_model(services, cache, next_instance, key, fuel);
            r.result matches Ok(h) ==> cache_lookup(r.cache, d.service_type) == Some(h)
        }),
{
    let d = services.lookup(key)[0];
    let r = resolve_key_model(services, cache, next_instance, key, fuel);
    if r.result is Ok {
        if cache_lookup(cache, d.service_type) is Some {
        } else {
            match d.factory {
                ServiceFactory::Fail { .. } => {},
                ServiceFactory::Construct { needs, payload } => {
                    let deps = resolve_deps_model(
                        services,
                        cache,
                        next_instance,
                        key_views(needs@),
                        (fuel - 1) as nat,
                    );
                    if deps.failure is None && deps.next_instance != u64::MAX {
                        let handle = AnyArc {
                            service_type: d.service_type,
                            instance: deps.next_instance,
                            value: payload,
                        };
                        if cache_lookup(deps.cache, d.service_type) is None {
                            lemma_cache_lookup_push(deps.cache, handle, d.service_type);
                        }
                    }
                },
            }
        }
    }
}

/// Resolving a key whose selected descriptor is a singleton with its tag
/// already cached returns the cached handle and changes nothing: no factory
/// runs and no instance identity is spent.
pub proof fn lemma_singleton_cache_hit(
    services: ServiceCollectionImpl,
    cache: Seq<AnyArc>,
    next_instance: u64,
    key: Seq<char>,
    fuel: nat,
    h: AnyArc,
)
    requires
        services.lookup(key).len() > 0,
        services.lookup(key)[0].lifetime is Singleton,
        cache_lookup(cache, services.lookup(key)[0].service_type) == Some(h),
    ensures
        resolve_key_model(services, cache, next_instance, key, fuel) == (ResolveModel {
            result: Ok(h),
            cache: cache,
            next_instance: next_instance,
        }),
{
}

/// Uniqueness of singleton identity: once a resolution of a
/// singleton-lifetime key has succeeded, resolving the same key again
/// returns the very same handle — the same underlying instance — and
/// constructs nothing new.
pub proof fn lemma_singleton_identity(
    services: ServiceCollectionImpl,
    cache: Seq<AnyArc>,
    next_instance: u64,
    key: Seq<char>,
    fuel1: nat,
    fuel2: nat,
)
    requires
        services.lookup(key).len() > 0,
        services.lookup(key)[0].lifetime is Singleton,
    ensures
        ({
            let r1 = resolve_key_model(services, cache, next_instance, key, fuel1);
            let r2 = resolve_key_model(services, r1.cache, r1.next_instance, key, fuel2);
            r1.result matches Ok(h1) ==> r2 == (ResolveModel {
                result: Ok(h1),
                cache: r1.cache,
                next_instance: r1.next_instance,
            })
        }),
{
    let r1 = resolve_key_model(services, cache, next_instance, key, fuel1);
    if r1.result is Ok {
        let h1 = r1.result->Ok_0;
        lemma_singleton_cached(services, cache, next_instance, key, fuel1);
        lemma_singleton_cache_hit(services, r1.cache, r1.next_instance, key, fuel2, h1);
    }
}

/// Transient freshness: two successive resolutions of a key whose selected
/// descriptor is not a singleton yield distinct underlying instances.
pub proof fn lemma_transient_freshness(
    services: ServiceCollectionImpl,
    cache: Seq<AnyArc>,
    next_instance: u64,
    key: Seq<char>,
    fuel1: nat,
    fuel2: nat,
)
    requires
        services.lookup(key).len() > 0,
        !(services.lookup(key)[0].lifetime is Singleton),
    ensures
        ({
            let r1 = resolve_key_model(services, cache, next_instance, key, fuel1);
            let r2 = resolve_key_model(services, r1.cache, r1.next_instance, key, fuel2);
            r1.result matches Ok(h1) ==> (r2.result matches Ok(h2) ==> h1.instance
                != h2.instance)
        }),
{
    lemma_fresh_instance(services, cache, next_instance, key, fuel1);
    let r1 = resolve_key_model(services, cache, next_instance, key, fuel1);
    lemma_fresh_instance(services, r1.cache, r1.next_instance, key, fuel2);
}

/// A successful resolution of a key whose selected descriptor is not a
/// singleton returns a freshly constructed instance: its identity was not
/// assigned before the call and is spent by it.
pub proof fn lemma_fresh_instance(
    services: ServiceCollectionImpl,
    cache: Seq<AnyArc>,
    next_instance: u64,
    key: Seq<char>,
    fuel: nat,
)
    requires
        services.lookup(key).len() > 0,
        !(services.lookup(key)[0].lifetime is Singleton),
    ensures
        ({
            let r = resolve_key_model(services, cache, next_instance, key, fuel);
            r.result matches Ok(h) ==> h.instance >= next_instance && r.next_instance
                > h.instance
        }),
{
    let d = services.lookup(key)[0];
    let r = resolve_key_model(services, cache, next_instance, key, fuel);
    if r.result is Ok && fuel > 0 {
        match d.factory {
            ServiceFactory::Fail { .. } => {},
            ServiceFactory::Construct { needs, .. } => {
                lemma_deps_next_monotone(
                    services,
                    cache,
                    next_instance,
                    key_views(needs@),
                    (fuel - 1) as nat,
                );
            },
        }
    }
}

/// Registration order determinism: resolution is answered by the first
/// registered descriptor for the key — a returned handle carries the first
/// descriptor's type tag, and a freshly constructed non-singleton instance
/// carries the first descriptor's payload; later registrations are
/// shadowed.
pub proof fn lemma_first_registration_wins(
    services: ServiceCollectionImpl,
    cache: Seq<AnyArc>,
    next_instance: u64,
    key: Seq<char>,
    fuel: nat,
)
    requires
        services.lookup(key).len() > 0,
    ensures
        ({
            let d1 = services.lookup(key)[0];
            let r = resolve_key_model(services, cache, next_instance, key, fuel);
            &&& (r.result matches Ok(h) ==> h.service_type == d1.service_type)
            &&& (r.result matches Ok(h) ==> !(d1.lifetime is Singleton) ==> (d1.factory matches
            ServiceFactory::Construct { payload, .. } ==> h.value == payload))
        }),
{
    let d1 = services.lookup(key)[0];
    lemma_cache_lookup_tag(cache, d1.service_type);
    if fuel > 0 {
        match d1.factory {
            ServiceFactory::Fail { .. } => {},
            ServiceFactory::Construct { needs, .. } => {
                let deps = resolve_deps_model(
                    services,
                    cache,
                    next_instance,
                    key_views(needs@),
                    (fuel - 1) as nat,
                );
                lemma_cache_lookup_tag(deps.cache, d1.service_type);
            },
        }
    }
}

/// Missing-service behavior: resolving a key with no registered descriptor
/// fails with the missing-service error and changes nothing, whatever the
/// lifetime of any other registration and whatever the recursion allowance.
pub proof fn lemma_missing_service(
    services: ServiceCollectionImpl,
    cache: Seq<AnyArc>,
    next_instance: u64,
    key: Seq<char>,
    fuel: nat,
)
    requires
        services.lookup(key).len() == 0,
    ensures
        resolve_key_model(services, cache, next_instance, key, fuel) == (ResolveModel {
            result: Err(ErrorModel::NotFound(key)),
            cache: cache,
            next_instance: next_instance,
        }),
{
}

/// Recursive resolution: a factory that resolves one dependency key through
/// the provider succeeds when that dependency resolves (and an instance
/// identity is left), and wraps the dependency's failure — for an
/// unregistered dependency, the missing-service error — in a construction
/// failure of its own key.
pub proof fn lemma_recursive_resolution(
    services: ServiceCollectionImpl,
    cache: Seq<AnyArc>,
    next_instance: u64,
    key: Seq<char>,
    dep: Seq<char>,
    fuel: nat,
)
    requires
        fuel > 0,
        services.lookup(key).len() > 0,
        services.lookup(key)[0].factory matches ServiceFactory::Construct { needs, .. }
            && key_views(needs@) == seq![dep],
        !(services.lookup(key)[0].lifetime is Singleton && cache_lookup(
            cache,
            services.lookup(key)[0].service_type,
        ) is Some),
    ensures
        ({
            let rdep = resolve_key_model(services, cache, next_instance, dep, (fuel - 1) as nat);
            let r = resolve_key_model(services, cache, next_instance, key, fuel);
            &&& (rdep.result is Ok && rdep.next_instance < u64::MAX ==> r.result is Ok)
            &&& (rdep.result matches Err(e) ==> r.result == Result::<AnyArc, ErrorModel>::Err(
                ErrorModel::Construction(key, CauseModel::Dependency(Box::new(e)))))
            &&& (services.lookup(dep).len() == 0 ==> r.result == Result::<
                AnyArc,
                ErrorModel,
            >::Err(
                ErrorModel::Construction(
                    key,
                    CauseModel::Dependency(Box::new(ErrorModel::NotFound(dep))),
                ),
            ))
        }),
{
    let d = services.lookup(key)[0];
    let dep_views = seq![dep];
    let rdep = resolve_key_model(services, cache, next_instance, dep, (fuel - 1) as nat);
    assert(dep_views[0] == dep);
    assert(dep_views.drop_first() =~= Seq::<Seq<char>>::empty());
    let dm = resolve_deps_model(services, cache, next_instance, dep_views, (fuel - 1) as nat);
    match rdep.result {
        Err(e) => {
            assert(dm.failure == Some(e));
        },
        Ok(_) => {
            assert(resolve_deps_model(
                services,
                rdep.cache,
                rdep.next_instance,
                dep_views.drop_first(),
                (fuel - 1) as nat,
            ).failure is None);
            assert(dm.failure is None);
            assert(dm.next_instance == rdep.next_instance);
        },
    }
    if services.lookup(dep).len() == 0 {
        lemma_missing_service(services, cache, next_instance, dep, (fuel - 1) as nat);
    }
}

impl ServiceProviderBuilder for ServiceCollectionImpl {
    fn build(self) -> (r: Result<ServiceProviderImpl, BuildError>) {
        Ok(ServiceProviderImpl::new(self))
    }
}

} // verus!
