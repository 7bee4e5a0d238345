use vstd::prelude::*;
use vstd::string::StringExecFns;
use crate::types::{TypeRef, TypePath, is_result_of};
use crate::naming::{generate_class_type_name, generate_instance_type_name, instance_name_of};
use crate::decl::{
    MethodDecl, ImplDecl, DeclError, ValidFn, ValidImpl, ReturnDecl, FnSig, AllocatorFn,
    allocator_errors, constructor_errors, constructor_output_ok, constructor_receiver_ok,
    resolve_errors, resolved_as, is_other, has_receiver, params_of, returns_unit, arg_count_of,
    allocator_items, constructor_items, other_items, others_errors, impl_errors, validated_as,
    allocators_errors, constructors_errors, duplicate_errors, allocator_output_ok, counts_fit,
};
use crate::resolve::resolve_method;

verus! {

broadcast use vstd::std_specs::vec::group_vec_axioms;

proof fn lemma_others_include(items: Seq<MethodDecl>, k: int, e: DeclError)
    requires
        0 <= k < items.len(),
        is_other(items[k]),
        resolve_errors(items[k]).contains(e),
    ensures
        others_errors(items).contains(e),
    decreases items.len(),
{
    let prev = others_errors(items.drop_last());
    let own = resolve_errors(items.last());
    if k == items.len() - 1 {
        let i = choose|i: int| 0 <= i < own.len() && own[i] == e;
        assert(others_errors(items)[prev.len() + i] == e);
    } else {
        lemma_others_include(items.drop_last(), k, e);
        let i = choose|i: int| 0 <= i < prev.len() && prev[i] == e;
        assert(others_errors(items)[i] == e);
    }
}

/// Declaration problems are reported as one batch: a getter that takes
/// parameters, and a setter that does not take exactly one parameter and
/// return nothing, are each reported, and so is every problem of every other
/// ordinary method.
pub proof fn lemma_accessor_errors_reported(ty: String, items: Seq<MethodDecl>, k: int)
    requires
        0 <= k < items.len(),
        is_other(items[k]),
        has_receiver(items[k].sig),
    ensures
        items[k].attrs.getter && params_of(items[k].sig).len() != 0 ==> impl_errors(
            ty@,
            items,
        ).contains(
            DeclError::BadGetter {
                method: items[k].sig.name,
                arg_count: arg_count_of(items[k].sig) as usize,
            },
        ),
        items[k].attrs.setter && !(params_of(items[k].sig).len() == 1 && returns_unit(
            items[k].sig.output,
        )) ==> impl_errors(ty@, items).contains(
            DeclError::BadSetter {
                method: items[k].sig.name,
                arg_count: arg_count_of(items[k].sig) as usize,
                returns: items[k].sig.output,
            },
        ),
        forall|k2: int, e: DeclError|
            0 <= k2 < items.len() && is_other(items[k2]) && #[trigger] resolve_errors(
                items[k2],
            ).contains(e) ==> impl_errors(ty@, items).contains(e),
{
    let errs = impl_errors(ty@, items);
    let o = others_errors(items);
    let head = errs.len() - o.len();
    assert forall|k2: int, e: DeclError|
        0 <= k2 < items.len() && is_other(items[k2]) && #[trigger] resolve_errors(
            items[k2],
        ).contains(e) implies errs.contains(e) by {
        lemma_others_include(items, k2, e);
        let i = choose|i: int| 0 <= i < o.len() && o[i] == e;
        assert(errs[head + i] == e);
    }
    let m = items[k];
    let r = resolve_errors(m);
    let miss = crate::decl::missing_object_errors(m.attrs.object@, params_of(m.sig));
    let set = crate::decl::setter_error(m.sig, m.attrs);
    if m.attrs.setter && !(params_of(m.sig).len() == 1 && returns_unit(m.sig.output)) {
        assert(r[miss.len() as int] == set[0]);
        assert(r.contains(set[0]));
    }
    if m.attrs.getter && params_of(m.sig).len() != 0 {
        let g = crate::decl::getter_error(m.sig, m.attrs);
        assert(r[(miss.len() + set.len()) as int] == g[0]);
        assert(r.contains(g[0]));
    }
}

/// `Result<instance, String>` for the logical type `ty`.
fn instance_result_type(ty: &str) -> (r: TypeRef)
    ensures
        is_result_of(r, instance_name_of(ty@)),
{
    let iname = generate_instance_type_name(ty);
    let mut segments: Vec<String> = Vec::new();
    segments.push(String::from_str("Result"));
    let mut args: Vec<TypeRef> = Vec::new();
    args.push(TypeRef::Path(TypePath::ident(iname.as_str())));
    args.push(TypeRef::Path(TypePath::ident("String")));
    proof {
        reveal_strlit("Result");
        reveal_strlit("String");
    }
    TypeRef::Path(TypePath { segments, angle: true, args })
}

impl FnSig {
    /// Checks this signature as the allocator of the logical type `ty`: it
    /// takes nothing and returns the class record.
    pub fn validate_allocator(&self, ty: &str) -> (r: Result<(), Vec<DeclError>>)
        ensures
            r is Ok <==> allocator_errors(ty@, *self).len() == 0,
            r matches Err(e) ==> e@ == allocator_errors(ty@, *self),
    {
        let cname = generate_class_type_name(ty);
        let mut errors: Vec<DeclError> = Vec::new();
        if self.has_self || self.inputs.len() > 0 {
            errors.push(DeclError::AllocatorHasParameters);
        }
        let return_ok = match &self.output {
            ReturnDecl::Default => true,
            ReturnDecl::Type(t) => match t {
                TypeRef::Path(p) => p.segments.len() > 0 && p.segments[p.segments.len() - 1]
                    == cname,
                TypeRef::Infer => true,
                _ => false,
            },
        };
        if !return_ok {
            errors.push(DeclError::AllocatorReturnType);
        }
        assert(errors@ =~= allocator_errors(ty@, *self));
        if errors.len() > 0 {
            Err(errors)
        } else {
            Ok(())
        }
    }
}

/// Resolves the constructor of the logical type `ty`; a return type left out
/// or written `_` becomes `Result<instance, String>`.
pub fn validate_constructor(ty: &str, m: MethodDecl) -> (r: Result<ValidFn, Vec<DeclError>>)
    requires
        m.sig.inputs@.len() < usize::MAX,
    ensures
        match r {
            Ok(c) => {
                &&& constructor_errors(ty@, m).len() == 0
                &&& resolved_as(ty@, m, c)
                &&& c.output matches ReturnDecl::Type(t) && is_result_of(t, instance_name_of(ty@))
            },
            Err(e) => constructor_errors(ty@, m).len() > 0 && e@ == constructor_errors(ty@, m),
        },
{
    let ghost m0 = m;
    let has_self = m.sig.has_self;
    let instance = m.attrs.instance;
    let mut c = match resolve_method(ty, m) {
        Ok(c) => c,
        Err(e) => {
            return Err(e);
        },
    };
    let complete = match &c.output {
        ReturnDecl::Default => true,
        ReturnDecl::Type(t) => matches!(t, TypeRef::Infer),
    };
    let iname = generate_instance_type_name(ty);
    let output_ok = complete || match &c.output {
        ReturnDecl::Type(t) => t.is_result_of_exec(&iname),
        ReturnDecl::Default => false,
    };
    assert(output_ok == constructor_output_ok(ty@, m0.sig.output));
    if !output_ok {
        let mut errors: Vec<DeclError> = Vec::new();
        errors.push(DeclError::ConstructorReturnType { returned: c.output });
        return Err(errors);
    }
    let cname = generate_class_type_name(ty);
    let receiver_ok = if has_self {
        !instance
    } else {
        match &c.receiver {
            TypeRef::Reference { elem, .. } => (**elem).is_named_exec(&cname),
            TypeRef::Path(_) => c.receiver.is_named_exec(&cname),
            _ => false,
        }
    };
    assert(receiver_ok == constructor_receiver_ok(ty@, m0));
    if !receiver_ok {
        let mut errors: Vec<DeclError> = Vec::new();
        let declared = if has_self {
            None
        } else {
            Some(c.receiver)
        };
        errors.push(DeclError::ConstructorReceiver { declared });
        return Err(errors);
    }
    if complete {
        c.output = ReturnDecl::Type(instance_result_type(ty));
    }
    Ok(c)
}

/// The allocator's name and its return type, completed to the class record
/// where none was written or `_` was.
pub fn complete_allocator(ty: &str, sig: FnSig) -> (r: AllocatorFn)
    ensures
        r.name == sig.name,
        allocator_output_ok(ty@, sig.output, r.output),
{
    let FnSig { name, output, .. } = sig;
    let output = match output {
        ReturnDecl::Default => {
            let cname = generate_class_type_name(ty);
            TypeRef::Path(TypePath::ident(cname.as_str()))
        },
        ReturnDecl::Type(t) => {
            if matches!(t, TypeRef::Infer) {
                let cname = generate_class_type_name(ty);
                TypeRef::Path(TypePath::ident(cname.as_str()))
            } else {
                t
            }
        },
    };
    AllocatorFn { name, output }
}

/// A method that is both an allocator and a constructor always has a problem:
/// an allocator takes nothing, and a constructor needs a receiver.
proof fn lemma_dual_role_fails(ty: Seq<char>, m: MethodDecl)
    ensures
        allocator_errors(ty, m.sig).len() > 0 || constructor_errors(ty, m).len() > 0,
{
}

/// What validation has gathered from the methods seen so far.
struct Collected {
    alloc_errors: Vec<DeclError>,
    allocator: Option<AllocatorFn>,
    ctor_errors: Vec<DeclError>,
    constructor: Option<ValidFn>,
    other_errors: Vec<DeclError>,
    others: Vec<ValidFn>,
}

impl Collected {
    spec fn allocator_ok(self, ty: Seq<char>, pre: Seq<MethodDecl>) -> bool {
        let allocs = allocator_items(pre);
        &&& self.alloc_errors@ == allocators_errors(ty, allocs)
        &&& match self.allocator {
            Some(a) => {
                &&& allocs.len() >= 1
                &&& a.name == allocs.last().sig.name
                &&& allocator_output_ok(ty, allocs.last().sig.output, a.output)
            },
            None => allocs.len() == 0 || self.alloc_errors@.len() > 0 || self.ctor_errors@.len()
                > 0,
        }
    }

    spec fn constructor_ok(self, ty: Seq<char>, pre: Seq<MethodDecl>) -> bool {
        let ctors = constructor_items(pre);
        &&& self.ctor_errors@ == constructors_errors(ty, ctors)
        &&& match self.constructor {
            Some(c) => {
                &&& ctors.len() >= 1
                &&& resolved_as(ty, ctors.last(), c)
                &&& c.output matches ReturnDecl::Type(t) && is_result_of(
                    t,
                    instance_name_of(ty),
                )
            },
            None => ctors.len() == 0 || self.ctor_errors@.len() > 0,
        }
    }

    spec fn others_ok(self, ty: Seq<char>, pre: Seq<MethodDecl>) -> bool {
        &&& self.other_errors@ == others_errors(pre)
        &&& self.other_errors@.len() == 0 ==> {
            let os = other_items(pre);
            &&& self.others@.len() == os.len()
            &&& forall|k: int|
                0 <= k < self.others@.len() ==> {
                    &&& resolved_as(ty, os[k], #[trigger] self.others@[k])
                    &&& self.others@[k].output == os[k].sig.output
                }
        }
    }

    #[verifier::opaque]
    spec fn holds_for(self, ty: Seq<char>, pre: Seq<MethodDecl>) -> bool {
        &&& self.allocator_ok(ty, pre)
        &&& self.constructor_ok(ty, pre)
        &&& self.others_ok(ty, pre)
    }

    fn absorb(&mut self, ty: &str, m: MethodDecl, Ghost(pre): Ghost<Seq<MethodDecl>>)
        requires
            old(self).holds_for(ty@, pre),
            m.sig.inputs@.len() < usize::MAX,
        ensures
            final(self).holds_for(ty@, pre.push(m)),
    {
        let ghost post = pre.push(m);
        assert(post.drop_last() =~= pre);
        reveal(Collected::holds_for);
        let ghost allocs = allocator_items(pre);
        let ghost ctors = constructor_items(pre);
        assert(allocator_items(post) == if m.attrs.allocator {
            allocs.push(m)
        } else {
            allocs
        });
        assert(constructor_items(post) == if m.attrs.constructor {
            ctors.push(m)
        } else {
            ctors
        });
        assert(other_items(post) == if is_other(m) {
            other_items(pre).push(m)
        } else {
            other_items(pre)
        });
        assert(others_errors(post) == others_errors(pre) + if is_other(m) {
            resolve_errors(m)
        } else {
            Seq::empty()
        });
        assert(allocs.push(m).drop_last() =~= allocs);
        assert(ctors.push(m).drop_last() =~= ctors);
        assert(old(self).allocator_ok(ty@, pre));
        assert(old(self).constructor_ok(ty@, pre));
        if m.attrs.allocator && m.attrs.constructor {
            proof {
                lemma_dual_role_fails(ty@, m);
            }
            match m.sig.validate_allocator(ty) {
                Ok(()) => {},
                Err(mut e) => {
                    self.alloc_errors.append(&mut e);
                },
            }
            self.allocator = None;
            match validate_constructor(ty, m) {
                Ok(c) => {
                    self.constructor = Some(c);
                },
                Err(mut e) => {
                    self.ctor_errors.append(&mut e);
                    self.constructor = None;
                },
            }
            assert(others_errors(post) =~= others_errors(pre));
        } else if m.attrs.allocator {
            match m.sig.validate_allocator(ty) {
                Ok(()) => {
                    assert(self.alloc_errors@ =~= allocators_errors(ty@, allocs.push(m)));
                },
                Err(mut e) => {
                    self.alloc_errors.append(&mut e);
                },
            }
            let MethodDecl { sig, .. } = m;
            self.allocator = Some(complete_allocator(ty, sig));
            assert(others_errors(post) =~= others_errors(pre));
        } else if m.attrs.constructor {
            match validate_constructor(ty, m) {
                Ok(c) => {
                    assert(self.ctor_errors@ =~= constructors_errors(ty@, ctors.push(m)));
                    self.constructor = Some(c);
                },
                Err(mut e) => {
                    self.ctor_errors.append(&mut e);
                    self.constructor = None;
                },
            }
            assert(others_errors(post) =~= others_errors(pre));
        } else if !m.attrs.ignore {
            let ghost prev_others = self.others@;
            match resolve_method(ty, m) {
                Ok(v) => {
                    self.others.push(v);
                },
                Err(mut e) => {
                    self.other_errors.append(&mut e);
                },
            }
            proof {
                if self.other_errors@.len() == 0 {
                    assert(self.others@ == prev_others.push(self.others@.last()));
                }
            }
        } else {
            assert(others_errors(post) =~= others_errors(pre));
        }
        assert(self.allocator_ok(ty@, post));
        assert(self.constructor_ok(ty@, post));
        assert(self.others_ok(ty@, post));
    }
}

impl ImplDecl {
    /// Validates every declaration of the type and reports every problem in
    /// one batch, duplicate allocators and constructors included.
    pub fn validate(self) -> (r: Result<ValidImpl, Vec<DeclError>>)
        requires
            counts_fit(self.items@),
        ensures
            match r {
                Ok(v) => impl_errors(self.ty@, self.items@).len() == 0 && validated_as(
                    self.ty,
                    self.items@,
                    v,
                ),
                Err(e) => impl_errors(self.ty@, self.items@).len() > 0 && e@ == impl_errors(
                    self.ty@,
                    self.items@,
                ),
            },
    {
        let ghost orig = self.items@;
        let ImplDecl { ty, items } = self;
        let mut n_alloc: usize = 0;
        let mut n_ctor: usize = 0;
        let mut i: usize = 0;
        while i < items.len()
            invariant
                i <= items@.len(),
                n_alloc <= i,
                n_ctor <= i,
                n_alloc == allocator_items(items@.subrange(0, i as int)).len(),
                n_ctor == constructor_items(items@.subrange(0, i as int)).len(),
            decreases items@.len() - i,
        {
            assert(items@.subrange(0, i + 1).drop_last() =~= items@.subrange(0, i as int));
            if items[i].attrs.allocator {
                n_alloc += 1;
            }
            if items[i].attrs.constructor {
                n_ctor += 1;
            }
            i += 1;
        }
        assert(items@.subrange(0, items@.len() as int) =~= items@);
        let mut errors: Vec<DeclError> = Vec::new();
        if n_alloc > 1 {
            errors.push(DeclError::TooManyAllocators { found: n_alloc });
        }
        if n_ctor > 1 {
            errors.push(DeclError::TooManyConstructors { found: n_ctor });
        }
        assert(errors@ =~= duplicate_errors(orig));
        let mut items = items;
        assert(items@.len() == items.len());
        let mut acc = Collected {
            alloc_errors: Vec::new(),
            allocator: None,
            ctor_errors: Vec::new(),
            constructor: None,
            other_errors: Vec::new(),
            others: Vec::new(),
        };
        let mut i: usize = 0;
        proof {
            let e = orig.subrange(0, 0);
            assert(e =~= Seq::<MethodDecl>::empty());
            assert(others_errors(e) =~= acc.other_errors@);
            assert(allocators_errors(ty@, allocator_items(e)) =~= acc.alloc_errors@);
            assert(constructors_errors(ty@, constructor_items(e)) =~= acc.ctor_errors@);
            reveal(Collected::holds_for);
        }
        while items.len() > 0
            invariant
                i + items@.len() == orig.len(),
                orig.len() <= usize::MAX,
                items@ == orig.subrange(i as int, orig.len() as int),
                counts_fit(orig),
                acc.holds_for(ty@, orig.subrange(0, i as int)),
            decreases items@.len(),
        {
            let ghost pre = orig.subrange(0, i as int);
            let ghost post = orig.subrange(0, i + 1);
            let m = items.remove(0);
            assert(m == orig[i as int]);
            assert(post =~= pre.push(m));
            acc.absorb(ty.as_str(), m, Ghost(pre));
            i += 1;
            assert(items@ =~= orig.subrange(i as int, orig.len() as int));
        }
        assert(orig.subrange(0, i as int) =~= orig);
        reveal(Collected::holds_for);
        let Collected { alloc_errors, allocator, ctor_errors, constructor, other_errors, others } =
            acc;
        let mut alloc_errors = alloc_errors;
        let mut ctor_errors = ctor_errors;
        let mut other_errors = other_errors;
        errors.append(&mut alloc_errors);
        errors.append(&mut ctor_errors);
        errors.append(&mut other_errors);
        assert(errors@ =~= impl_errors(ty@, orig));
        if errors.len() > 0 {
            return Err(errors);
        }
        proof {
            if allocator_items(orig).len() == 1 {
                assert(allocator_items(orig).last() == allocator_items(orig)[0]);
            }
            if constructor_items(orig).len() == 1 {
                assert(constructor_items(orig).last() == constructor_items(orig)[0]);
            }
        }
        Ok(ValidImpl { ty, allocator, constructor, others })
    }
}

} // verus!
