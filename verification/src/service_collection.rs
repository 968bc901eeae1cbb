//! The service registry: an append-only collection of descriptors, viewed
//! as a mapping from each key to the ordered list of descriptors registered
//! under it (multiple registrations per key are legal).

use vstd::prelude::*;

use crate::service_traits::{ServiceCollection, ServiceDescriptor, ServiceKey};

verus! {

/// The descriptors among `descriptors` whose identifier is `key`, in
/// registration order.
pub open spec fn lookup_in(descriptors: Seq<ServiceDescriptor>, key: Seq<char>) -> Seq<
    ServiceDescriptor,
>
    decreases descriptors.len(),
{
    if descriptors.len() == 0 {
        Seq::empty()
    } else if descriptors[0].identifier@ == key {
        seq![descriptors[0]] + lookup_in(descriptors.drop_first(), key)
    } else {
        lookup_in(descriptors.drop_first(), key)
    }
}

/// Appending a descriptor extends the lookup for its own key by that
/// descriptor and leaves the lookup for every other key unchanged.
pub proof fn lemma_lookup_push(
    descriptors: Seq<ServiceDescriptor>,
    d: ServiceDescriptor,
    key: Seq<char>,
)
    ensures
        d.identifier@ == key ==> lookup_in(descriptors.push(d), key) == lookup_in(
            descriptors,
            key,
        ).push(d),
        d.identifier@ != key ==> lookup_in(descriptors.push(d), key) == lookup_in(
            descriptors,
            key,
        ),
    decreases descriptors.len(),
{
    let pushed = descriptors.push(d);
    if descriptors.len() == 0 {
        assert(pushed[0] == d);
        assert(pushed.drop_first() =~= Seq::<ServiceDescriptor>::empty());
        assert(lookup_in(pushed.drop_first(), key) == Seq::<ServiceDescriptor>::empty());
        if d.identifier@ == key {
            assert(lookup_in(pushed, key) == seq![d] + Seq::<ServiceDescriptor>::empty());
            assert(seq![d] + Seq::<ServiceDescriptor>::empty() =~= Seq::<
                ServiceDescriptor,
            >::empty().push(d));
        }
    } else {
        lemma_lookup_push(descriptors.drop_first(), d, key);
        assert(pushed.drop_first() =~= descriptors.drop_first().push(d));
        assert(pushed[0] == descriptors[0]);
        if descriptors[0].identifier@ == key {
            if d.identifier@ == key {
                assert(lookup_in(pushed, key) == seq![descriptors[0]] + lookup_in(
                    descriptors.drop_first(),
                    key,
                ).push(d));
                assert(seq![descriptors[0]] + lookup_in(descriptors.drop_first(), key).push(d)
                    =~= (seq![descriptors[0]] + lookup_in(descriptors.drop_first(), key)).push(d));
            }
        }
    }
}

/// Registration order determinism, on the registry side: registering two
/// descriptors under one identifier, first `d1` then `d2`, lists `d1`
/// before `d2` under that identifier — so resolution, which selects the
/// first listed descriptor, is answered by `d1`.
pub proof fn lemma_registration_order(
    before: Seq<ServiceDescriptor>,
    d1: ServiceDescriptor,
    d2: ServiceDescriptor,
    key: Seq<char>,
)
    requires
        d1.identifier@ == key,
        d2.identifier@ == key,
        lookup_in(before, key).len() == 0,
    ensures
        lookup_in(before.push(d1).push(d2), key) == seq![d1, d2],
{
    lemma_lookup_push(before, d1, key);
    lemma_lookup_push(before.push(d1), d2, key);
    assert(lookup_in(before, key).push(d1).push(d2) =~= seq![d1, d2]);
}

/// Service collection: the registry that `build` turns into a provider.
pub struct ServiceCollectionImpl {
    service_descriptors: Vec<ServiceDescriptor>,
}

impl ServiceCollectionImpl {
    /// All registered descriptors, in registration order.
    pub closed spec fn descriptors(self) -> Seq<ServiceDescriptor> {
        self.service_descriptors@
    }

    /// How many descriptors are registered.
    pub open spec fn descriptor_count(self) -> nat {
        self.descriptors().len()
    }

    /// The ordered list of descriptors registered under `key`; empty when
    /// the key is unknown.
    pub open spec fn lookup(self, key: Seq<char>) -> Seq<ServiceDescriptor> {
        lookup_in(self.descriptors(), key)
    }

    /// Creates an empty service collection.
    pub fn new() -> (r: Self)
        ensures
            r.descriptors() == Seq::<ServiceDescriptor>::empty(),
    {
        ServiceCollectionImpl { service_descriptors: Vec::new() }
    }

    /// A reference to the first descriptor registered under `service_key`:
    /// the one that resolution selects. `None` when the key is unknown.
    pub fn find_first<'a>(&'a self, service_key: &ServiceKey) -> (r: Option<&'a ServiceDescriptor>)
        ensures
            match r {
                Some(d) => self.lookup(service_key@).len() > 0 && *d == self.lookup(
                    service_key@,
                )[0],
                None => self.lookup(service_key@).len() == 0,
            },
    {
        let ghost key = service_key@;
        let mut i: usize = 0;
        let n = self.service_descriptors.len();
        proof {
            assert(self.descriptors().skip(0) =~= self.descriptors());
        }
        while i < n
            invariant
                i <= n,
                n == self.descriptors().len(),
                self.lookup(key) == lookup_in(self.descriptors().skip(i as int), key),
                key == service_key@,
            decreases n - i,
        {
            let ghost rest = self.descriptors().skip(i as int);
            proof {
                assert(rest.drop_first() =~= self.descriptors().skip(i as int + 1));
                assert(rest[0] == self.descriptors()[i as int]);
            }
            let d = &self.service_descriptors[i];
            if d.identifier == *service_key {
                return Some(d);
            }
            i = i + 1;
        }
        proof {
            assert(self.descriptors().skip(n as int) =~= Seq::<ServiceDescriptor>::empty());
        }
        None
    }

    /// How many descriptors are registered.
    pub fn len(&self) -> (r: usize)
        ensures
            r == self.descriptor_count(),
    {
        self.service_descriptors.len()
    }
}

impl ServiceCollection for ServiceCollectionImpl {
    open spec fn descriptors_spec(&self) -> Seq<ServiceDescriptor> {
        self.descriptors()
    }

    fn register_service(&mut self, service_descriptor: ServiceDescriptor) {
        self.service_descriptors.push(service_descriptor);
    }

    fn get_services<'a>(&'a self, service_key: &ServiceKey) -> (r: Vec<&'a ServiceDescriptor>) {
        let ghost key = service_key@;
        let mut out: Vec<&'a ServiceDescriptor> = Vec::new();
        let mut i: usize = 0;
        let n = self.service_descriptors.len();
        proof {
            assert(self.descriptors().skip(0) =~= self.descriptors());
            assert(out@.map_values(|d: &ServiceDescriptor| *d) + self.lookup(key) =~= self.lookup(
                key,
            ));
        }
        while i < n
            invariant
                i <= n,
                n == self.descriptors().len(),
                self.lookup(key) == out@.map_values(|d: &ServiceDescriptor| *d) + lookup_in(
                    self.descriptors().skip(i as int),
                    key,
                ),
                key == service_key@,
            decreases n - i,
        {
            let ghost rest = self.descriptors().skip(i as int);
            proof {
                assert(rest.drop_first() =~= self.descriptors().skip(i as int + 1));
                assert(rest[0] == self.descriptors()[i as int]);
            }
            let d = &self.service_descriptors[i];
            if d.identifier == *service_key {
                out.push(d);
                proof {
                    assert(out@.map_values(|x: &ServiceDescriptor| *x) =~= out@.drop_last()
                        .map_values(|x: &ServiceDescriptor| *x).push(*d));
                    assert(out@.drop_last().map_values(|x: &ServiceDescriptor| *x).push(*d)
                        + lookup_in(self.descriptors().skip(i as int + 1), key) =~= out@.drop_last()
                        .map_values(|x: &ServiceDescriptor| *x) + lookup_in(rest, key));
                }
            }
            i = i + 1;
        }
        proof {
            assert(self.descriptors().skip(n as int) =~= Seq::<ServiceDescriptor>::empty());
            assert(self.lookup(key) =~= out@.map_values(|d: &ServiceDescriptor| *d));
        }
        out
    }
}

} // verus!
