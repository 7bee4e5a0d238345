use vstd::prelude::*;
use crate::types::{TypeRef, is_named, is_result_of};
use crate::naming::{class_name_of, instance_name_of, wrapper_name_of, prefixed};

verus! {

/// One typed, non-receiver parameter: its name (when its pattern is a plain
/// identifier) and its declared type.
pub struct Param {
    pub name: Option<String>,
    pub ty: TypeRef,
}

/// A declared return type: none written, or a type.
#[derive(Debug)]
pub enum ReturnDecl {
    Default,
    Type(TypeRef),
}

/// A method signature: `has_self` tells whether it takes `self`; `inputs`
/// holds its typed parameters in order (without `self`).
pub struct FnSig {
    pub name: String,
    pub has_self: bool,
    pub inputs: Vec<Param>,
    pub output: ReturnDecl,
}

/// The role flags of a method, and the names of its object parameters.
pub struct MethodAttrs {
    pub allocator: bool,
    pub constructor: bool,
    pub instance: bool,
    pub getter: bool,
    pub setter: bool,
    pub ignore: bool,
    pub object: Vec<String>,
}

pub struct MethodDecl {
    pub sig: FnSig,
    pub attrs: MethodAttrs,
}

/// The methods declared for the logical type named `ty`.
pub struct ImplDecl {
    pub ty: String,
    pub items: Vec<MethodDecl>,
}

/// How a parameter is taken from its slot.
#[derive(Clone, Copy, PartialEq, Eq, Structural, Debug)]
pub enum ParamKind {
    /// converted directly from the slot's value
    Plain,
    /// located as another type's instance record through the slot
    Object,
}

/// A problem found in a declaration.
#[derive(Debug)]
pub enum DeclError {
    /// a method without `self` and without any parameter that could be its receiver
    MissingReceiver { method: String },
    /// a name listed as an object parameter that no parameter carries
    MissingObjectArgument { name: String },
    /// a setter that does not take exactly one parameter and return nothing;
    /// `arg_count` counts every parameter, `self` included, and `returns` is
    /// its declared return type
    BadSetter { method: String, arg_count: usize, returns: ReturnDecl },
    /// a getter that takes parameters; `arg_count` counts every parameter,
    /// `self` included
    BadGetter { method: String, arg_count: usize },
    /// more than one allocator
    TooManyAllocators { found: usize },
    /// more than one constructor
    TooManyConstructors { found: usize },
    /// an allocator that takes parameters or `self`
    AllocatorHasParameters,
    /// an allocator whose return type is not the class record
    AllocatorReturnType,
    /// a constructor whose return type is not `Result<instance, String>`
    ConstructorReturnType { returned: ReturnDecl },
    /// a constructor whose receiver is not the class record
    /// (`declared` is the receiver's declared type; none where the receiver
    /// is `self` of an instance method, that is the combined view)
    ConstructorReceiver { declared: Option<TypeRef> },
}

/// A method that passed resolution.
pub struct ValidFn {
    /// the type of the receiver the method is called on
    pub receiver: TypeRef,
    pub is_static: bool,
    pub is_setter: bool,
    pub is_getter: bool,
    /// the declared name, kept where the method was renamed
    pub source_name: Option<String>,
    /// the name the method is dispatched under
    pub name: String,
    /// the non-receiver parameters, in declaration order
    pub params: Vec<Param>,
    /// the kind of each parameter, position by position
    pub kinds: Vec<ParamKind>,
    pub output: ReturnDecl,
}

/// A declared allocator after validation: its name and its return type, with
/// a return type left out or written `_` completed to the class record.
pub struct AllocatorFn {
    pub name: String,
    pub output: TypeRef,
}

/// A type's declarations after validation.
pub struct ValidImpl {
    pub ty: String,
    /// the declared allocator, if one was declared
    pub allocator: Option<AllocatorFn>,
    pub constructor: Option<ValidFn>,
    pub others: Vec<ValidFn>,
}

/// The non-receiver parameters of a signature: without `self`, the first typed
/// parameter is the receiver.
pub open spec fn params_of(sig: FnSig) -> Seq<Param> {
    if sig.has_self {
        sig.inputs@
    } else {
        sig.inputs@.drop_first()
    }
}

pub open spec fn has_receiver(sig: FnSig) -> bool {
    sig.has_self || sig.inputs@.len() > 0
}

/// Whether `p` carries one of the names in `object`.
pub open spec fn named_in(object: Seq<String>, p: Param) -> bool {
    match p.name {
        Some(n) => exists|j: int| 0 <= j < object.len() && #[trigger] object[j]@ == n@,
        None => false,
    }
}

pub open spec fn kind_of(object: Seq<String>, p: Param) -> ParamKind {
    if named_in(object, p) {
        ParamKind::Object
    } else {
        ParamKind::Plain
    }
}

/// Whether some parameter in `params` is named `n`.
pub open spec fn has_param_named(params: Seq<Param>, n: Seq<char>) -> bool {
    exists|i: int|
        0 <= i < params.len() && match #[trigger] params[i].name {
            Some(m) => m@ == n,
            None => false,
        }
}

/// One error for each object name that no parameter carries, in the order listed.
pub open spec fn missing_object_errors(object: Seq<String>, params: Seq<Param>) -> Seq<DeclError>
    decreases object.len(),
{
    if object.len() == 0 {
        Seq::empty()
    } else {
        let prev = missing_object_errors(object.drop_last(), params);
        if has_param_named(params, object.last()@) {
            prev
        } else {
            prev.push(DeclError::MissingObjectArgument { name: object.last() })
        }
    }
}

pub open spec fn returns_unit(output: ReturnDecl) -> bool {
    match output {
        ReturnDecl::Default => true,
        ReturnDecl::Type(t) => t is Unit,
    }
}

/// The number of parameters a method takes, `self` included.
pub open spec fn arg_count_of(sig: FnSig) -> nat {
    if sig.has_self {
        sig.inputs@.len() + 1
    } else {
        params_of(sig).len()
    }
}

pub open spec fn setter_error(sig: FnSig, attrs: MethodAttrs) -> Seq<DeclError> {
    if attrs.setter && !(params_of(sig).len() == 1 && returns_unit(sig.output)) {
        seq![
            DeclError::BadSetter {
                method: sig.name,
                arg_count: arg_count_of(sig) as usize,
                returns: sig.output,
            },
        ]
    } else {
        Seq::empty()
    }
}

pub open spec fn getter_error(sig: FnSig, attrs: MethodAttrs) -> Seq<DeclError> {
    if attrs.getter && params_of(sig).len() != 0 {
        seq![DeclError::BadGetter { method: sig.name, arg_count: arg_count_of(sig) as usize }]
    } else {
        Seq::empty()
    }
}

/// Every problem that resolution finds in one method, in the order reported.
pub open spec fn resolve_errors(m: MethodDecl) -> Seq<DeclError> {
    if !has_receiver(m.sig) {
        seq![DeclError::MissingReceiver { method: m.sig.name }]
    } else {
        missing_object_errors(m.attrs.object@, params_of(m.sig)) + setter_error(m.sig, m.attrs)
            + getter_error(m.sig, m.attrs)
    }
}

/// `t` is the combined view type `wrapper<'a>`.
pub open spec fn is_wrapper_type(t: TypeRef, wrapper: Seq<char>) -> bool {
    match t {
        TypeRef::Path(p) => {
            &&& p.segments@.len() == 1
            &&& p.segments@[0]@ == wrapper
            &&& p.angle
            &&& p.args@.len() == 0
        },
        _ => false,
    }
}

/// The receiver type of a method of the logical type `ty`.
pub open spec fn receiver_ok(ty: Seq<char>, m: MethodDecl, receiver: TypeRef) -> bool {
    if m.sig.has_self {
        if m.attrs.instance {
            is_wrapper_type(receiver, wrapper_name_of(ty))
        } else {
            is_named(receiver, class_name_of(ty))
        }
    } else {
        receiver == m.sig.inputs@[0].ty
    }
}

/// The dispatch names of a resolved method: getters and setters get a prefix
/// and keep their declared name as the source name.
pub open spec fn names_ok(m: MethodDecl, v: ValidFn) -> bool {
    if m.attrs.getter {
        &&& v.name@ == prefixed("getter_"@, m.sig.name@)
        &&& v.source_name == Some(m.sig.name)
    } else if m.attrs.setter {
        &&& v.name@ == prefixed("setter_"@, m.sig.name@)
        &&& v.source_name == Some(m.sig.name)
    } else {
        &&& v.name == m.sig.name
        &&& v.source_name is None
    }
}

/// `v` is what resolution makes of `m`, its return type aside.
pub open spec fn resolved_as(ty: Seq<char>, m: MethodDecl, v: ValidFn) -> bool {
    &&& receiver_ok(ty, m, v.receiver)
    &&& v.is_static == !m.attrs.instance
    &&& v.is_setter == m.attrs.setter
    &&& v.is_getter == m.attrs.getter
    &&& names_ok(m, v)
    &&& v.params@ == params_of(m.sig)
    &&& v.kinds@.len() == v.params@.len()
    &&& forall|i: int|
        0 <= i < v.params@.len() ==> #[trigger] v.kinds@[i] == kind_of(
            m.attrs.object@,
            v.params@[i],
        )
}

/// Number of parameters of the given kind.
pub open spec fn count_kind(kinds: Seq<ParamKind>, k: ParamKind) -> nat
    decreases kinds.len(),
{
    if kinds.len() == 0 {
        0
    } else {
        count_kind(kinds.drop_last(), k) + if kinds.last() == k {
            1nat
        } else {
            0nat
        }
    }
}

pub open spec fn arity_of(v: ValidFn) -> nat {
    v.params@.len()
}

/// Whether an allocator's declared return type is acceptable: none written,
/// `_`, or a path whose last segment is the class record's name.
pub open spec fn allocator_return_ok(ty: Seq<char>, output: ReturnDecl) -> bool {
    match output {
        ReturnDecl::Default => true,
        ReturnDecl::Type(t) => match t {
            TypeRef::Path(p) => p.segments@.len() > 0 && p.segments@.last()@ == class_name_of(ty),
            TypeRef::Infer => true,
            _ => false,
        },
    }
}

/// Every problem found in an allocator, in the order reported.
pub open spec fn allocator_errors(ty: Seq<char>, sig: FnSig) -> Seq<DeclError> {
    (if sig.has_self || sig.inputs@.len() > 0 {
        seq![DeclError::AllocatorHasParameters]
    } else {
        Seq::empty()
    }) + (if allocator_return_ok(ty, sig.output) {
        Seq::empty()
    } else {
        seq![DeclError::AllocatorReturnType]
    })
}

/// Whether a constructor's declared return type is acceptable: none written,
/// `_`, or exactly `Result<instance, String>`.
pub open spec fn constructor_output_ok(ty: Seq<char>, output: ReturnDecl) -> bool {
    match output {
        ReturnDecl::Default => true,
        ReturnDecl::Type(t) => t is Infer || is_result_of(t, instance_name_of(ty)),
    }
}

/// Whether a constructor receives the class record, by value or by reference.
pub open spec fn constructor_receiver_ok(ty: Seq<char>, m: MethodDecl) -> bool {
    if m.sig.has_self {
        !m.attrs.instance
    } else {
        match m.sig.inputs@[0].ty {
            TypeRef::Reference { elem, .. } => is_named(*elem, class_name_of(ty)),
            TypeRef::Path(p) => is_named(TypeRef::Path(p), class_name_of(ty)),
            _ => false,
        }
    }
}

/// Every problem found in a constructor, in the order reported.
pub open spec fn constructor_errors(ty: Seq<char>, m: MethodDecl) -> Seq<DeclError> {
    if resolve_errors(m).len() > 0 {
        resolve_errors(m)
    } else if !constructor_output_ok(ty, m.sig.output) {
        seq![DeclError::ConstructorReturnType { returned: m.sig.output }]
    } else if !constructor_receiver_ok(ty, m) {
        seq![
            DeclError::ConstructorReceiver {
                declared: if m.sig.has_self {
                    None
                } else {
                    Some(m.sig.inputs@[0].ty)
                },
            },
        ]
    } else {
        Seq::empty()
    }
}

/// A method that is neither skipped nor an allocator nor a constructor.
pub open spec fn is_other(m: MethodDecl) -> bool {
    !m.attrs.ignore && !m.attrs.constructor && !m.attrs.allocator
}

impl MethodAttrs {
    /// Whether a method with these flags is an ordinary method: one that gets
    /// an adapter and a row in the dispatch table.
    pub fn is_ordinary(&self) -> (r: bool)
        ensures
            r == (!self.ignore && !self.constructor && !self.allocator),
    {
        !self.ignore && !self.constructor && !self.allocator
    }
}

pub open spec fn allocator_items(items: Seq<MethodDecl>) -> Seq<MethodDecl>
    decreases items.len(),
{
    if items.len() == 0 {
        Seq::empty()
    } else if items.last().attrs.allocator {
        allocator_items(items.drop_last()).push(items.last())
    } else {
        allocator_items(items.drop_last())
    }
}

pub open spec fn constructor_items(items: Seq<MethodDecl>) -> Seq<MethodDecl>
    decreases items.len(),
{
    if items.len() == 0 {
        Seq::empty()
    } else if items.last().attrs.constructor {
        constructor_items(items.drop_last()).push(items.last())
    } else {
        constructor_items(items.drop_last())
    }
}

pub open spec fn other_items(items: Seq<MethodDecl>) -> Seq<MethodDecl>
    decreases items.len(),
{
    if items.len() == 0 {
        Seq::empty()
    } else if is_other(items.last()) {
        other_items(items.drop_last()).push(items.last())
    } else {
        other_items(items.drop_last())
    }
}

/// The problems of all ordinary methods, method by method.
pub open spec fn others_errors(items: Seq<MethodDecl>) -> Seq<DeclError>
    decreases items.len(),
{
    if items.len() == 0 {
        Seq::empty()
    } else {
        others_errors(items.drop_last()) + if is_other(items.last()) {
            resolve_errors(items.last())
        } else {
            Seq::empty()
        }
    }
}

/// The problems of the allocators, one after another.
pub open spec fn allocators_errors(ty: Seq<char>, allocs: Seq<MethodDecl>) -> Seq<DeclError>
    decreases allocs.len(),
{
    if allocs.len() == 0 {
        Seq::empty()
    } else {
        allocators_errors(ty, allocs.drop_last()) + allocator_errors(ty, allocs.last().sig)
    }
}

/// The problems of the constructors, one after another.
pub open spec fn constructors_errors(ty: Seq<char>, ctors: Seq<MethodDecl>) -> Seq<DeclError>
    decreases ctors.len(),
{
    if ctors.len() == 0 {
        Seq::empty()
    } else {
        constructors_errors(ty, ctors.drop_last()) + constructor_errors(ty, ctors.last())
    }
}

/// More than one allocator, and more than one constructor, each reported once.
pub open spec fn duplicate_errors(items: Seq<MethodDecl>) -> Seq<DeclError> {
    (if allocator_items(items).len() > 1 {
        seq![DeclError::TooManyAllocators { found: allocator_items(items).len() as usize }]
    } else {
        Seq::empty()
    }) + (if constructor_items(items).len() > 1 {
        seq![DeclError::TooManyConstructors { found: constructor_items(items).len() as usize }]
    } else {
        Seq::empty()
    })
}

/// Every problem found in a type's declarations, in one batch: duplicate
/// allocators or constructors, then the problems of each allocator, of each
/// constructor, and of each other method.
pub open spec fn impl_errors(ty: Seq<char>, items: Seq<MethodDecl>) -> Seq<DeclError> {
    duplicate_errors(items) + allocators_errors(ty, allocator_items(items)) + constructors_errors(
        ty,
        constructor_items(items),
    ) + others_errors(items)
}

/// The return type an allocator ends up with: the class record where none
/// was written or `_` was, else the declared one.
pub open spec fn allocator_output_ok(ty: Seq<char>, declared: ReturnDecl, out: TypeRef) -> bool {
    match declared {
        ReturnDecl::Default => is_named(out, class_name_of(ty)),
        ReturnDecl::Type(t) => if t is Infer {
            is_named(out, class_name_of(ty))
        } else {
            out == t
        },
    }
}

/// Every parameter count fits in a `usize`, `self` included.
pub open spec fn counts_fit(items: Seq<MethodDecl>) -> bool {
    forall|i: int| 0 <= i < items.len() ==> (#[trigger] items[i]).sig.inputs@.len() < usize::MAX
}

/// `v` is the validated form of the declarations `items` of the type `ty`.
pub open spec fn validated_as(ty: String, items: Seq<MethodDecl>, v: ValidImpl) -> bool {
    &&& v.ty == ty
    &&& match v.allocator {
        Some(a) => {
            &&& allocator_items(items).len() == 1
            &&& a.name == allocator_items(items)[0].sig.name
            &&& allocator_output_ok(ty@, allocator_items(items)[0].sig.output, a.output)
        },
        None => allocator_items(items).len() == 0,
    }
    &&& match v.constructor {
        Some(c) => {
            &&& constructor_items(items).len() == 1
            &&& resolved_as(ty@, constructor_items(items)[0], c)
            &&& c.output matches ReturnDecl::Type(t) && is_result_of(t, instance_name_of(ty@))
        },
        None => constructor_items(items).len() == 0,
    }
    &&& v.others@.len() == other_items(items).len()
    &&& forall|k: int|
        0 <= k < v.others@.len() ==> {
            &&& resolved_as(ty@, other_items(items)[k], #[trigger] v.others@[k])
            &&& v.others@[k].output == other_items(items)[k].sig.output
        }
}

} // verus!
