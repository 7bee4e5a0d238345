use vstd::prelude::*;
use vstd::string::StringExecFns;
use crate::types::{TypeRef, TypePath, is_named};
use crate::naming::{generate_class_type_name, generate_wrapper_type_name, prefixed_name};
use crate::decl::{
    Param, FnSig, MethodAttrs, MethodDecl, DeclError, ValidFn, ParamKind, params_of, named_in,
    kind_of, has_param_named, missing_object_errors, setter_error, getter_error, resolve_errors,
    resolved_as, returns_unit, is_wrapper_type,
};

verus! {

broadcast use vstd::std_specs::vec::group_vec_axioms;

/// Whether some parameter is named `n`.
fn param_named(params: &Vec<Param>, n: &String) -> (r: bool)
    ensures
        r == has_param_named(params@, n@),
{
    let mut i: usize = 0;
    while i < params.len()
        invariant
            i <= params@.len(),
            forall|k: int|
                0 <= k < i ==> match #[trigger] params@[k].name {
                    Some(m) => m@ != n@,
                    None => true,
                },
        decreases params@.len() - i,
    {
        match params[i].name.as_ref() {
            Some(m) => {
                if *m == *n {
                    return true;
                }
            },
            None => {},
        }
        i += 1;
    }
    false
}

/// Whether `p` is one of the object parameters named in `object`.
fn is_object_param(object: &Vec<String>, p: &Param) -> (r: bool)
    ensures
        r == named_in(object@, *p),
{
    match p.name.as_ref() {
        Some(n) => {
            let mut j: usize = 0;
            while j < object.len()
                invariant
                    j <= object@.len(),
                    p.name == Some(*n),
                    forall|k: int| 0 <= k < j ==> #[trigger] object@[k]@ != n@,
                decreases object@.len() - j,
            {
                if object[j] == *n {
                    assert(object@[j as int]@ == n@);
                    return true;
                }
                j += 1;
            }
            false
        },
        None => false,
    }
}

/// The kind of each parameter, position by position.
fn param_kinds(object: &Vec<String>, params: &Vec<Param>) -> (r: Vec<ParamKind>)
    ensures
        r@.len() == params@.len(),
        forall|i: int| 0 <= i < params@.len() ==> #[trigger] r@[i] == kind_of(object@, params@[i]),
{
    let mut r: Vec<ParamKind> = Vec::new();
    let mut i: usize = 0;
    while i < params.len()
        invariant
            i <= params@.len(),
            r@.len() == i,
            forall|k: int| 0 <= k < i ==> #[trigger] r@[k] == kind_of(object@, params@[k]),
        decreases params@.len() - i,
    {
        if is_object_param(object, &params[i]) {
            r.push(ParamKind::Object);
        } else {
            r.push(ParamKind::Plain);
        }
        i += 1;
    }
    r
}

/// One error for each object name that no parameter carries.
fn missing_objects(object: &Vec<String>, params: &Vec<Param>) -> (r: Vec<DeclError>)
    ensures
        r@ == missing_object_errors(object@, params@),
{
    let mut r: Vec<DeclError> = Vec::new();
    let mut j: usize = 0;
    while j < object.len()
        invariant
            j <= object@.len(),
            r@ == missing_object_errors(object@.subrange(0, j as int), params@),
        decreases object@.len() - j,
    {
        assert(object@.subrange(0, j + 1).drop_last() =~= object@.subrange(0, j as int));
        if !param_named(params, &object[j]) {
            r.push(DeclError::MissingObjectArgument { name: object[j].clone() });
        }
        j += 1;
    }
    assert(object@.subrange(0, object@.len() as int) =~= object@);
    r
}

fn output_is_unit(output: &crate::decl::ReturnDecl) -> (r: bool)
    ensures
        r == returns_unit(*output),
{
    match output {
        crate::decl::ReturnDecl::Default => true,
        crate::decl::ReturnDecl::Type(t) => match t {
            TypeRef::Unit => true,
            _ => false,
        },
    }
}

/// The combined view type `name<'a>` of the logical type `ty`.
fn wrapper_type(ty: &str) -> (r: TypeRef)
    ensures
        is_wrapper_type(r, crate::naming::wrapper_name_of(ty@)),
{
    let mut segments: Vec<String> = Vec::new();
    segments.push(generate_wrapper_type_name(ty));
    TypeRef::Path(TypePath { segments, angle: true, args: Vec::new() })
}

/// Resolves one method declared for the logical type `ty`: its receiver, its
/// role, the kind of each parameter and the name it is dispatched under. Every
/// problem found is reported, in one list.
pub fn resolve_method(ty: &str, m: MethodDecl) -> (r: Result<ValidFn, Vec<DeclError>>)
    requires
        m.sig.inputs@.len() < usize::MAX,
    ensures
        match r {
            Ok(v) => resolve_errors(m).len() == 0 && resolved_as(ty@, m, v) && v.output
                == m.sig.output,
            Err(e) => resolve_errors(m).len() > 0 && e@ == resolve_errors(m),
        },
{
    let ghost m0 = m;
    let MethodDecl { sig, attrs } = m;
    let FnSig { name, has_self, inputs, output } = sig;
    let mut params = inputs;
    if !has_self && params.len() == 0 {
        let mut errors: Vec<DeclError> = Vec::new();
        errors.push(DeclError::MissingReceiver { method: name });
        return Err(errors);
    }
    let receiver = if has_self {
        if attrs.instance {
            wrapper_type(ty)
        } else {
            let cname = generate_class_type_name(ty);
            TypeRef::Path(TypePath::ident(cname.as_str()))
        }
    } else {
        let first = params.remove(0);
        first.ty
    };
    assert(params@ == params_of(m0.sig));
    let mut errors = missing_objects(&attrs.object, &params);
    let n = params.len();
    let count = if has_self {
        n + 1
    } else {
        n
    };
    if attrs.setter && !(n == 1 && output_is_unit(&output)) {
        errors.push(DeclError::BadSetter { method: name.clone(), arg_count: count, returns: output });
        if attrs.getter && n != 0 {
            errors.push(DeclError::BadGetter { method: name, arg_count: count });
        }
        assert(errors@ =~= resolve_errors(m0));
        return Err(errors);
    }
    if attrs.getter && n != 0 {
        errors.push(DeclError::BadGetter { method: name.clone(), arg_count: count });
    }
    assert(errors@ =~= resolve_errors(m0));
    if errors.len() > 0 {
        return Err(errors);
    }
    let kinds = param_kinds(&attrs.object, &params);
    let (dispatch, source_name) = if attrs.getter {
        (prefixed_name("getter_", name.as_str()), Some(name))
    } else if attrs.setter {
        (prefixed_name("setter_", name.as_str()), Some(name))
    } else {
        (name, None)
    };
    Ok(
        ValidFn {
            receiver,
            is_static: !attrs.instance,
            is_setter: attrs.setter,
            is_getter: attrs.getter,
            source_name,
            name: dispatch,
            params,
            kinds,
            output,
        },
    )
}

} // verus!
