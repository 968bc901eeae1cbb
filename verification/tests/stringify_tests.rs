use mixus_di::service_ref::{
    service_ref_key, stringify_path, stringify_type, GenericArg, PathRef, PathSegment,
    StringifyError, TypeBound, TypeRef,
};

fn segment(name: &str, arguments: Vec<GenericArg>) -> PathSegment {
    PathSegment { ident: String::from(name), arguments }
}

fn named(name: &str) -> TypeRef {
    TypeRef::Path(PathRef { segments: vec![segment(name, Vec::new())] })
}

#[test]
fn test_stringify_service_def() {
    // dyn ExampleService<dyn Asd + Send> + Send
    let inner = TypeRef::TraitObject(vec![
        TypeBound::Trait(PathRef { segments: vec![segment("Asd", Vec::new())] }),
        TypeBound::Trait(PathRef { segments: vec![segment("Send", Vec::new())] }),
    ]);
    let outer = TypeRef::TraitObject(vec![
        TypeBound::Trait(PathRef {
            segments: vec![segment("ExampleService", vec![GenericArg::Type(inner)])],
        }),
        TypeBound::Trait(PathRef { segments: vec![segment("Send", Vec::new())] }),
    ]);
    let asd = stringify_type(&outer).unwrap();
    assert_eq!(asd, "ExampleService<Asd>")
}

#[test]
fn plain_name_renders_as_itself() {
    assert_eq!(stringify_type(&named("ExampleService")).unwrap(), "ExampleService");
}

#[test]
fn only_the_last_path_segment_is_rendered() {
    let path = PathRef {
        segments: vec![
            segment("crates", Vec::new()),
            segment("services", Vec::new()),
            segment("Name", Vec::new()),
        ],
    };
    assert_eq!(stringify_path(&path).unwrap(), "Name");
}

#[test]
fn arguments_are_joined_with_comma_and_space() {
    let ty = TypeRef::Path(PathRef {
        segments: vec![segment(
            "Pair",
            vec![GenericArg::Type(named("First")), GenericArg::Type(named("Second"))],
        )],
    });
    assert_eq!(stringify_type(&ty).unwrap(), "Pair<First, Second>");
}

#[test]
fn parentheses_are_transparent() {
    let ty = TypeRef::Paren(Box::new(named("Wrapped")));
    assert_eq!(stringify_type(&ty).unwrap(), "Wrapped");
}

#[test]
fn lifetime_bounds_are_skipped() {
    let ty = TypeRef::TraitObject(vec![
        TypeBound::Lifetime,
        TypeBound::Trait(PathRef { segments: vec![segment("Asd", Vec::new())] }),
    ]);
    assert_eq!(stringify_type(&ty).unwrap(), "Asd");
}

#[test]
fn empty_path_is_an_error() {
    let path = PathRef { segments: Vec::new() };
    assert_eq!(stringify_path(&path).unwrap_err(), StringifyError::EmptyType);
}

#[test]
fn lifetime_argument_is_an_error() {
    let ty = TypeRef::Path(PathRef {
        segments: vec![segment("Holder", vec![GenericArg::Lifetime])],
    });
    assert_eq!(stringify_type(&ty).unwrap_err(), StringifyError::InvalidArgument);
}

#[test]
fn trait_object_without_trait_bound_is_an_error() {
    let ty = TypeRef::TraitObject(vec![TypeBound::Lifetime]);
    assert_eq!(stringify_type(&ty).unwrap_err(), StringifyError::InvalidTraitObject);
}

#[test]
fn unsupported_type_is_an_error() {
    assert_eq!(stringify_type(&TypeRef::Unsupported).unwrap_err(), StringifyError::InvalidType);
}

#[test]
fn service_key_is_the_canonical_name() {
    let ty = TypeRef::Path(PathRef {
        segments: vec![segment("ExampleService", vec![GenericArg::Type(named("Other"))])],
    });
    let k = service_ref_key(&ty).unwrap();
    assert_eq!(k.0, "ExampleService<Other>");
}
