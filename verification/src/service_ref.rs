//! Canonical rendering of a service reference: the string under which a
//! declared interface is keyed, derived deterministically from the
//! interface's type name with its rendered generic parameters (e.g.
//! `"ExampleService<Other>"`).
//!
//! A reference is modeled as a small type tree: a (possibly parenthesized)
//! path with generic arguments, or a trait object whose first trait bound
//! names the interface. Lifetimes and marker bounds do not appear in the
//! canonical string.

use vstd::prelude::*;

use crate::service_traits::ServiceKey;

verus! {

/// A type reference to be rendered into a canonical service name.
#[derive(Debug)]
pub enum TypeRef {
    /// A (possibly qualified) named type, e.g. `a::b::Name<Args>`.
    Path(PathRef),
    /// A parenthesized type; renders as its inner type.
    Paren(Box<TypeRef>),
    /// A trait object: renders as its first trait bound.
    TraitObject(Vec<TypeBound>),
    /// Any other form of type; rendering it is an error.
    Unsupported,
}

/// A path: its segments in order; only the last segment is rendered.
#[derive(Debug)]
pub struct PathRef {
    pub segments: Vec<PathSegment>,
}

/// One path segment: an identifier with its generic arguments, if any.
#[derive(Debug)]
pub struct PathSegment {
    pub ident: String,
    pub arguments: Vec<GenericArg>,
}

/// One generic argument of a segment.
#[derive(Debug)]
pub enum GenericArg {
    /// A type argument; rendered recursively.
    Type(TypeRef),
    /// A lifetime argument; rendering it is an error.
    Lifetime,
}

/// One bound of a trait object.
#[derive(Debug)]
pub enum TypeBound {
    /// A lifetime bound; skipped when the interface trait is searched for.
    Lifetime,
    /// A trait bound; the first one names the interface.
    Trait(PathRef),
}

/// Why a type reference cannot be rendered.
#[derive(Clone, Copy, Debug, PartialEq, Eq, Structural)]
pub enum StringifyError {
    /// The path has no segments.
    EmptyType,
    /// A generic argument is not a type.
    InvalidArgument,
    /// The trait object has no trait bound.
    InvalidTraitObject,
    /// The type has an unsupported form.
    InvalidType,
}

/// The canonical rendering of a type reference.
pub open spec fn render_type(ty: TypeRef) -> Result<Seq<char>, StringifyError>
    decreases ty,
{
    match ty {
        TypeRef::Paren(inner) => render_type(*inner),
        TypeRef::Path(path) => render_path(path),
        TypeRef::TraitObject(bounds) => render_bounds(bounds@),
        TypeRef::Unsupported => Err(StringifyError::InvalidType),
    }
}

/// The canonical rendering of a trait object: its first trait bound.
pub open spec fn render_bounds(bounds: Seq<TypeBound>) -> Result<Seq<char>, StringifyError>
    decreases bounds,
{
    if bounds.len() == 0 {
        Err(StringifyError::InvalidTraitObject)
    } else {
        match bounds[0] {
            TypeBound::Trait(path) => render_path(path),
            TypeBound::Lifetime => render_bounds(bounds.drop_first()),
        }
    }
}

/// The canonical rendering of a path: the last segment's identifier,
/// followed by its rendered generic arguments in angle brackets when it has
/// any.
pub open spec fn render_path(path: PathRef) -> Result<Seq<char>, StringifyError>
    decreases path,
{
    if path.segments@.len() == 0 {
        Err(StringifyError::EmptyType)
    } else {
        let last = path.segments@.last();
        if last.arguments@.len() == 0 {
            Ok(last.ident@)
        } else {
            match render_args(last.arguments@) {
                Err(e) => Err(e),
                Ok(rendered) => Ok(last.ident@ + "<"@ + rendered + ">"@),
            }
        }
    }
}

/// The canonical rendering of a nonempty argument list: the rendered
/// arguments joined by `", "`.
pub open spec fn render_args(args: Seq<GenericArg>) -> Result<Seq<char>, StringifyError>
    decreases args,
{
    if args.len() == 0 {
        Ok(Seq::empty())
    } else {
        match args[0] {
            GenericArg::Lifetime => Err(StringifyError::InvalidArgument),
            GenericArg::Type(ty) => match render_type(ty) {
                Err(e) => Err(e),
                Ok(first) => if args.len() == 1 {
                    Ok(first)
                } else {
                    match render_args(args.drop_first()) {
                        Err(e) => Err(e),
                        Ok(rest) => Ok(first + ", "@ + rest),
                    }
                },
            },
        }
    }
}

/// Renders a type reference into its canonical service name.
pub fn stringify_type(ty: &TypeRef) -> (r: Result<String, StringifyError>)
    ensures
        match r {
            Ok(s) => render_type(*ty) == Ok::<Seq<char>, StringifyError>(s@),
            Err(e) => render_type(*ty) == Err::<Seq<char>, StringifyError>(e),
        },
    decreases *ty,
{
    match ty {
        TypeRef::Paren(inner) => stringify_type(inner),
        TypeRef::Path(path) => stringify_path(path),
        TypeRef::TraitObject(bounds) => {
            let mut i: usize = 0;
            let n = bounds.len();
            proof {
                assert(bounds@.skip(0) =~= bounds@);
            }
            while i < n
                invariant
                    i <= n,
                    n == bounds@.len(),
                    render_bounds(bounds@) == render_bounds(bounds@.skip(i as int)),
                    *ty matches TypeRef::TraitObject(b) && b@ == bounds@,
                decreases n - i,
            {
                let ghost rest = bounds@.skip(i as int);
                proof {
                    assert(rest.drop_first() =~= bounds@.skip(i as int + 1));
                    assert(rest[0] == bounds@[i as int]);
                }
                match &bounds[i] {
                    TypeBound::Trait(path) => {
                        proof {
                            assert(decreases_to!(bounds@ => bounds@[i as int]));
                        }
                        return stringify_path(path);
                    },
                    TypeBound::Lifetime => {},
                }
                i = i + 1;
            }
            proof {
                assert(bounds@.skip(n as int) =~= Seq::<TypeBound>::empty());
            }
            Err(StringifyError::InvalidTraitObject)
        },
        TypeRef::Unsupported => Err(StringifyError::InvalidType),
    }
}

/// Renders a path into its canonical service name.
pub fn stringify_path(path: &PathRef) -> (r: Result<String, StringifyError>)
    ensures
        match r {
            Ok(s) => render_path(*path) == Ok::<Seq<char>, StringifyError>(s@),
            Err(e) => render_path(*path) == Err::<Seq<char>, StringifyError>(e),
        },
    decreases *path,
{
    let n = path.segments.len();
    if n == 0 {
        return Err(StringifyError::EmptyType);
    }
    let last = &path.segments[n - 1];
    proof {
        assert(path.segments@.last() == path.segments@[n - 1]);
    }
    if last.arguments.len() == 0 {
        Ok(String::from_str(last.ident.as_str()))
    } else {
        proof {
            assert(decreases_to!(path.segments@ => path.segments@[n - 1]));
            assert(last.arguments@.skip(0) =~= last.arguments@);
        }
        match stringify_args_from(&last.arguments, 0) {
            Err(e) => Err(e),
            Ok(rendered) => {
                let mut s = String::from_str(last.ident.as_str());
                s.append("<");
                s.append(rendered.as_str());
                s.append(">");
                Ok(s)
            },
        }
    }
}

/// Renders the argument list from position `start` on, the arguments
/// joined by `", "`.
fn stringify_args_from(args: &Vec<GenericArg>, start: usize) -> (r: Result<
    String,
    StringifyError,
>)
    requires
        start < args@.len(),
    ensures
        match r {
            Ok(s) => render_args(args@.skip(start as int)) == Ok::<Seq<char>, StringifyError>(s@),
            Err(e) => render_args(args@.skip(start as int)) == Err::<Seq<char>, StringifyError>(e),
        },
    decreases args@.skip(start as int),
{
    let ghost rest = args@.skip(start as int);
    proof {
        assert(rest[0] == args@[start as int]);
        assert(rest.drop_first() =~= args@.skip(start as int + 1));
    }
    match &args[start] {
        GenericArg::Lifetime => Err(StringifyError::InvalidArgument),
        GenericArg::Type(ty) => {
            proof {
                assert(decreases_to!(rest => rest[0]));
                assert(decreases_to!(args@[start as int] => args@[start as int]->Type_0));
                assert(*ty == args@[start as int]->Type_0);
            }
            match stringify_type(ty) {
                Err(e) => Err(e),
                Ok(first) => {
                    if start + 1 == args.len() {
                        proof {
                            assert(rest.len() == 1);
                        }
                        Ok(first)
                    } else {
                        proof {
                            assert(decreases_to!(rest => rest.drop_first()));
                        }
                        match stringify_args_from(args, start + 1) {
                            Err(e) => Err(e),
                            Ok(more) => {
                                let mut s = first;
                                s.append(", ");
                                s.append(more.as_str());
                                Ok(s)
                            },
                        }
                    }
                },
            }
        },
    }
}

/// Derives the service key under which a declared interface is registered:
/// its canonical rendered name.
pub fn service_ref_key(ty: &TypeRef) -> (r: Result<ServiceKey, StringifyError>)
    ensures
        match r {
            Ok(k) => render_type(*ty) == Ok::<Seq<char>, StringifyError>(k@),
            Err(e) => render_type(*ty) == Err::<Seq<char>, StringifyError>(e),
        },
{
    match stringify_type(ty) {
        Ok(s) => Ok(ServiceKey(s)),
        Err(e) => Err(e),
    }
}

} // verus!
