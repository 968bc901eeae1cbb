use mixus_di::errors::{ConstructionCause, ResolutionError};
use mixus_di::new_service_collection;
use mixus_di::service_collection::ServiceCollectionImpl;
use mixus_di::service_traits::{
    GenericServiceProvider, ServiceCollection, ServiceDescriptor, ServiceFactory, ServiceKey,
    ServiceLifetime, ServiceProvider, ServiceProviderBuilder, ServiceTypeId,
};

fn key(name: &str) -> ServiceKey {
    ServiceKey(String::from(name))
}

fn descriptor(
    name: &str,
    lifetime: ServiceLifetime,
    tag: u64,
    payload: u64,
) -> ServiceDescriptor {
    ServiceDescriptor {
        identifier: key(name),
        lifetime,
        dependencies: Vec::new(),
        service_type: ServiceTypeId(tag),
        factory: ServiceFactory::Construct { needs: Vec::new(), payload },
    }
}

fn descriptor_with_needs(
    name: &str,
    lifetime: ServiceLifetime,
    tag: u64,
    payload: u64,
    needs: Vec<ServiceKey>,
) -> ServiceDescriptor {
    ServiceDescriptor {
        identifier: key(name),
        lifetime,
        dependencies: Vec::new(),
        service_type: ServiceTypeId(tag),
        factory: ServiceFactory::Construct { needs, payload },
    }
}

#[test]
fn test1() {
    assert_eq!(5, mixus_di::add(2, 3));
}

#[test]
fn singleton_resolves_to_one_instance() {
    let mut services: ServiceCollectionImpl = new_service_collection();
    services.register_service(descriptor("Example", ServiceLifetime::Singleton, 1, 0));
    let mut provider = services.build().unwrap();
    let h1 = provider.get_service(&key("Example"), ServiceTypeId(1)).unwrap();
    let h2 = provider.get_service(&key("Example"), ServiceTypeId(1)).unwrap();
    assert_eq!(h1.value, 0);
    assert_eq!(h2.value, 0);
    assert_eq!(h1.instance, h2.instance);
    assert_eq!(provider.instances_created(), 1);
}

#[test]
fn transient_resolutions_are_fresh() {
    let mut services = new_service_collection();
    services.register_service(descriptor("Counter", ServiceLifetime::Transient, 2, 5));
    let mut provider = services.build().unwrap();
    let h1 = provider.get_service_any(&key("Counter")).unwrap();
    let h2 = provider.get_service_any(&key("Counter")).unwrap();
    let h3 = provider.get_service_any(&key("Counter")).unwrap();
    assert_eq!(h1.value, 5);
    assert_eq!(h2.value, 5);
    assert_eq!(h3.value, 5);
    assert_ne!(h1.instance, h2.instance);
    assert_ne!(h1.instance, h3.instance);
    assert_ne!(h2.instance, h3.instance);
    assert_eq!(provider.instances_created(), 3);
}

#[test]
fn scoped_is_resolved_like_transient() {
    let mut services = new_service_collection();
    services.register_service(descriptor("Scoped", ServiceLifetime::Scoped, 3, 8));
    let mut provider = services.build().unwrap();
    let h1 = provider.get_service_any(&key("Scoped")).unwrap();
    let h2 = provider.get_service_any(&key("Scoped")).unwrap();
    assert_ne!(h1.instance, h2.instance);
    assert_eq!(provider.instances_created(), 2);
}

#[test]
fn first_registration_wins() {
    let mut services = new_service_collection();
    services.register_service(descriptor("Multi", ServiceLifetime::Transient, 10, 111));
    services.register_service(descriptor("Multi", ServiceLifetime::Transient, 11, 222));
    let mut provider = services.build().unwrap();
    let h = provider.get_service_any(&key("Multi")).unwrap();
    assert_eq!(h.value, 111);
    assert_eq!(h.service_type, ServiceTypeId(10));
}

#[test]
fn missing_service_fails_with_service_not_found() {
    let services = new_service_collection();
    let mut provider = services.build().unwrap();
    match provider.get_service_any(&key("Missing")) {
        Err(ResolutionError::ServiceNotFound(e)) => {
            assert_eq!(e.0 .0, "Missing");
            assert_eq!(e.message(), "Service with key 'Missing' not found");
        }
        other => panic!("expected a missing-service error, got {:?}", other),
    }
}

#[test]
fn downcast_mismatch_is_reported_as_not_found() {
    let mut services = new_service_collection();
    services.register_service(descriptor("Example", ServiceLifetime::Singleton, 1, 0));
    let mut provider = services.build().unwrap();
    match provider.get_service(&key("Example"), ServiceTypeId(99)) {
        Err(ResolutionError::ServiceNotFound(e)) => assert_eq!(e.0 .0, "Example"),
        other => panic!("expected a missing-service error, got {:?}", other),
    }
}

#[test]
fn downcast_probe_is_non_destructive() {
    let mut services = new_service_collection();
    services.register_service(descriptor("Example", ServiceLifetime::Transient, 4, 7));
    let mut provider = services.build().unwrap();
    let h = provider.get_service_any(&key("Example")).unwrap();
    assert!(h.is(ServiceTypeId(4)));
    assert!(!h.is(ServiceTypeId(5)));
    let back = h.downcast(ServiceTypeId(5)).unwrap_err();
    assert_eq!(back, h);
    let typed = back.downcast(ServiceTypeId(4)).unwrap();
    assert_eq!(typed, h);
    assert_eq!(h.clone_arc(), h);
}

#[test]
fn factory_failure_is_wrapped_with_its_code() {
    let mut services = new_service_collection();
    services.register_service(ServiceDescriptor {
        identifier: key("Broken"),
        lifetime: ServiceLifetime::Transient,
        dependencies: Vec::new(),
        service_type: ServiceTypeId(6),
        factory: ServiceFactory::Fail { code: 9 },
    });
    let mut provider = services.build().unwrap();
    match provider.get_service_any(&key("Broken")) {
        Err(ResolutionError::ConstructionFailed(k, ConstructionCause::FactoryFailure(code))) => {
            assert_eq!(k.0, "Broken");
            assert_eq!(code, 9);
        }
        other => panic!("expected a construction failure, got {:?}", other),
    }
    assert_eq!(provider.instances_created(), 0);
}

#[test]
fn factory_resolves_its_dependency_through_the_provider() {
    let mut services = new_service_collection();
    services.register_service(descriptor("Dep", ServiceLifetime::Singleton, 20, 1));
    services.register_service(descriptor_with_needs(
        "Root",
        ServiceLifetime::Transient,
        21,
        2,
        vec![key("Dep")],
    ));
    let mut provider = services.build().unwrap();
    let h = provider.get_service_any(&key("Root")).unwrap();
    assert_eq!(h.value, 2);
    // the dependency was constructed once and is now cached
    assert_eq!(provider.instances_created(), 2);
    let dep = provider.get_service(&key("Dep"), ServiceTypeId(20)).unwrap();
    assert_eq!(dep.value, 1);
    assert_eq!(provider.instances_created(), 2);
}

#[test]
fn missing_dependency_propagates_as_construction_failure() {
    let mut services = new_service_collection();
    services.register_service(descriptor_with_needs(
        "Root",
        ServiceLifetime::Transient,
        21,
        2,
        vec![key("Missing")],
    ));
    let mut provider = services.build().unwrap();
    match provider.get_service_any(&key("Root")) {
        Err(ResolutionError::ConstructionFailed(k, ConstructionCause::DependencyFailure(inner))) => {
            assert_eq!(k.0, "Root");
            match *inner {
                ResolutionError::ServiceNotFound(e) => assert_eq!(e.0 .0, "Missing"),
                other => panic!("expected a missing-service cause, got {:?}", other),
            }
        }
        other => panic!("expected a construction failure, got {:?}", other),
    }
}

#[test]
fn dependency_cycle_is_detected() {
    let mut services = new_service_collection();
    services.register_service(descriptor_with_needs(
        "Selfish",
        ServiceLifetime::Transient,
        30,
        0,
        vec![key("Selfish")],
    ));
    let mut provider = services.build().unwrap();
    let mut err = provider.get_service_any(&key("Selfish")).unwrap_err();
    // unwrap the dependency-failure chain down to the cycle report
    loop {
        match err {
            ResolutionError::ConstructionFailed(k, cause) => {
                assert_eq!(k.0, "Selfish");
                match cause {
                    ConstructionCause::DependencyFailure(inner) => err = *inner,
                    ConstructionCause::CircularDependency => break,
                    other => panic!("expected a cycle report, got {:?}", other),
                }
            }
            other => panic!("expected a construction failure, got {:?}", other),
        }
    }
}

#[test]
fn registration_order_is_kept_per_key() {
    let mut services = new_service_collection();
    services.register_service(descriptor("Multi", ServiceLifetime::Transient, 10, 111));
    services.register_service(descriptor("Other", ServiceLifetime::Transient, 12, 333));
    services.register_service(descriptor("Multi", ServiceLifetime::Transient, 11, 222));
    let found = services.get_services(&key("Multi"));
    assert_eq!(found.len(), 2);
    assert_eq!(found[0].service_type(), ServiceTypeId(10));
    assert_eq!(found[1].service_type(), ServiceTypeId(11));
    assert_eq!(found[0].identifier().0, "Multi");
    assert_eq!(found[0].lifetime(), ServiceLifetime::Transient);
    assert_eq!(services.get_services(&key("Nowhere")).len(), 0);
    assert_eq!(services.len(), 3);
}

#[test]
fn singleton_cache_is_keyed_by_type_tag() {
    // two singleton keys with distinct tags get distinct cached instances
    let mut services = new_service_collection();
    services.register_service(descriptor("A", ServiceLifetime::Singleton, 40, 1));
    services.register_service(descriptor("B", ServiceLifetime::Singleton, 41, 2));
    let mut provider = services.build().unwrap();
    let a = provider.get_service_any(&key("A")).unwrap();
    let b = provider.get_service_any(&key("B")).unwrap();
    assert_ne!(a.instance, b.instance);
    assert_eq!(provider.instances_created(), 2);
    assert_eq!(provider.get_service_any(&key("A")).unwrap().instance, a.instance);
    assert_eq!(provider.get_service_any(&key("B")).unwrap().instance, b.instance);
    assert_eq!(provider.instances_created(), 2);
}
