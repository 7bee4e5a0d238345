use vstd::prelude::*;
use vstd::string::StringExecFns;

verus! {

broadcast use vstd::std_specs::vec::group_vec_axioms;

/// A path type such as `a::b::Foo<T>`: its segments, whether the last segment
/// carries angle-bracketed arguments, and the type arguments among them.
#[derive(Debug)]
pub struct TypePath {
    pub segments: Vec<String>,
    pub angle: bool,
    pub args: Vec<TypeRef>,
}

/// The shape of a declared Rust type, as far as resolution and marshaling read it.
#[derive(Debug)]
pub enum TypeRef {
    Path(TypePath),
    Reference { mutable: bool, elem: Box<TypeRef> },
    /// a slice, array, pointer or parenthesized type, by its element type
    Wrapped(Box<TypeRef>),
    Unit,
    Infer,
    Other,
}

/// The path type consisting of the single plain identifier `name`.
pub open spec fn is_plain_ident(p: TypePath, name: Seq<char>) -> bool {
    &&& p.segments@.len() == 1
    &&& p.segments@[0]@ == name
    &&& !p.angle
}

/// Whether `t` is exactly the plain path type `name`.
pub open spec fn is_named(t: TypeRef, name: Seq<char>) -> bool {
    match t {
        TypeRef::Path(p) => is_plain_ident(p, name),
        _ => false,
    }
}

/// Whether `t` is exactly `Result<inst, String>`.
pub open spec fn is_result_of(t: TypeRef, inst: Seq<char>) -> bool {
    match t {
        TypeRef::Path(p) => {
            &&& p.segments@.len() == 1
            &&& p.segments@[0]@ == "Result"@
            &&& p.angle
            &&& p.args@.len() == 2
            &&& is_named(p.args@[0], inst)
            &&& is_named(p.args@[1], "String"@)
        },
        _ => false,
    }
}

/// The innermost path type named by `t`: through references, and through the
/// first type argument of a generic path, down to a path without arguments.
pub open spec fn inner_path(t: TypeRef) -> Option<TypePath>
    decreases t,
{
    match t {
        TypeRef::Path(p) => {
            if p.segments@.len() == 0 {
                None
            } else if !p.angle {
                Some(p)
            } else if p.args@.len() > 0 {
                inner_path(p.args@[0])
            } else {
                None
            }
        },
        TypeRef::Reference { elem, .. } => inner_path(*elem),
        TypeRef::Wrapped(elem) => inner_path(*elem),
        _ => None,
    }
}

/// The innermost path type found always has a segment.
pub proof fn lemma_inner_path_has_segment(t: TypeRef)
    ensures
        inner_path(t) matches Some(p) ==> p.segments@.len() > 0,
    decreases t,
{
    match t {
        TypeRef::Path(p) => {
            if p.segments@.len() > 0 && p.angle && p.args@.len() > 0 {
                assert(decreases_to!(p.args => p.args[0]));
                lemma_inner_path_has_segment(p.args@[0]);
            }
        },
        TypeRef::Reference { elem, .. } => lemma_inner_path_has_segment(*elem),
        TypeRef::Wrapped(elem) => lemma_inner_path_has_segment(*elem),
        _ => {},
    }
}

impl TypePath {
    /// A path type of one plain identifier.
    pub fn ident(name: &str) -> (r: TypePath)
        ensures
            is_plain_ident(r, name@),
            r.args@.len() == 0,
    {
        let mut segments: Vec<String> = Vec::new();
        segments.push(String::from_str(name));
        TypePath { segments, angle: false, args: Vec::new() }
    }
}

impl TypeRef {
    /// Whether this is the plain path type `name`.
    pub fn is_named_exec(&self, name: &String) -> (r: bool)
        ensures
            r == is_named(*self, name@),
    {
        match self {
            TypeRef::Path(p) => p.segments.len() == 1 && p.segments[0] == *name && !p.angle,
            _ => false,
        }
    }

    /// Whether this is exactly `Result<inst, String>`.
    pub fn is_result_of_exec(&self, inst: &String) -> (r: bool)
        ensures
            r == is_result_of(*self, inst@),
    {
        match self {
            TypeRef::Path(p) => {
                let result_name = String::from_str("Result");
                let string_name = String::from_str("String");
                p.segments.len() == 1 && p.segments[0] == result_name && p.angle && p.args.len()
                    == 2 && p.args[0].is_named_exec(inst) && p.args[1].is_named_exec(&string_name)
            },
            _ => false,
        }
    }

    /// Finds the innermost path type, as `inner_path` describes.
    pub fn find_inner_type(&self) -> (r: Option<&TypePath>)
        ensures
            match r {
                Some(p) => inner_path(*self) == Some(*p),
                None => inner_path(*self) is None,
            },
        decreases self,
    {
        match self {
            TypeRef::Path(p) => {
                if p.segments.len() == 0 {
                    None
                } else if !p.angle {
                    Some(p)
                } else if p.args.len() > 0 {
                    assert(decreases_to!(p.args => p.args[0]));
                    p.args[0].find_inner_type()
                } else {
                    None
                }
            },
            TypeRef::Reference { elem, .. } => (**elem).find_inner_type(),
            TypeRef::Wrapped(elem) => (**elem).find_inner_type(),
            _ => None,
        }
    }
}

} // verus!
