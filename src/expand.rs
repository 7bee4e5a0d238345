use vstd::prelude::*;
use crate::naming::prefixed;
use crate::decl::{
    ImplDecl, ValidImpl, DeclError, impl_errors, validated_as, counts_fit};
use crate::plan::{VmFn, NativeFn, plan_of};
use crate::registry::{ClassRegistration, registration_of};

verus! {

broadcast use vstd::std_specs::vec::group_vec_axioms;

/// Everything the adapters of a type are made from: its validated
/// declarations, the constructor's adapter, one raw entry point per ordinary
/// method (in declaration order), and the class's registration.
pub struct ImplExpansion {
    pub valid: ValidImpl,
    pub constructor: Option<VmFn>,
    pub natives: Vec<NativeFn>,
    pub registration: ClassRegistration,
}

/// `x` is the expansion of the validated declarations `x.valid`.
pub open spec fn expansion_ok(x: ImplExpansion) -> bool {
    let v = x.valid;
    &&& match v.constructor {
        Some(c) => x.constructor matches Some(f) && f.name@ == prefixed("vm_"@, c.name@) && plan_of(
            c,
            v.ty@,
            true,
            f.plan,
        ),
        None => x.constructor is None,
    }
    &&& x.natives@.len() == v.others@.len()
    &&& forall|k: int|
        0 <= k < x.natives@.len() ==> {
            let n = #[trigger] x.natives@[k];
            &&& n.name@ == prefixed("native_vm_"@, v.others@[k].name@)
            &&& n.vm_fn.name@ == prefixed("vm_"@, v.others@[k].name@)
            &&& plan_of(v.others@[k], v.ty@, false, n.vm_fn.plan)
        }
    &&& registration_of(v, x.registration)
}

/// Validates a type's declarations and, where they are sound, derives the
/// adapters and the registration from them.
pub fn wren_impl_expand(decl: ImplDecl) -> (r: Result<ImplExpansion, Vec<DeclError>>)
    requires
        counts_fit(decl.items@),
    ensures
        match r {
            Ok(x) => impl_errors(decl.ty@, decl.items@).len() == 0 && validated_as(
                decl.ty,
                decl.items@,
                x.valid,
            ) && expansion_ok(x),
            Err(e) => impl_errors(decl.ty@, decl.items@).len() > 0 && e@ == impl_errors(
                decl.ty@,
                decl.items@,
            ),
        },
{
    let ghost ty = decl.ty;
    let ghost items = decl.items@;
    let valid = match decl.validate() {
        Ok(v) => v,
        Err(e) => {
            return Err(e);
        },
    };
    assert(validated_as(ty, items, valid));
    let constructor = match &valid.constructor {
        Some(c) => Some(c.gen_vm_fn_constructor(valid.ty.as_str())),
        None => None,
    };
    let mut natives: Vec<NativeFn> = Vec::new();
    let mut k: usize = 0;
    while k < valid.others.len()
        invariant
            validated_as(ty, items, valid),
            k <= valid.others@.len(),
            natives@.len() == k,
            forall|j: int|
                0 <= j < k ==> {
                    let n = #[trigger] natives@[j];
                    &&& n.name@ == prefixed("native_vm_"@, valid.others@[j].name@)
                    &&& n.vm_fn.name@ == prefixed("vm_"@, valid.others@[j].name@)
                    &&& plan_of(valid.others@[j], valid.ty@, false, n.vm_fn.plan)
                },
        decreases valid.others@.len() - k,
    {
        natives.push(valid.others[k].gen_native_vm_fn(valid.ty.as_str()));
        k += 1;
    }
    let registration = valid.registration();
    Ok(ImplExpansion { valid, constructor, natives, registration })
}

} // verus!
