use vstd::prelude::*;
use crate::types::TypePath;
use crate::naming::{
    class_name_of, instance_name_of, wrapper_name_of, prefixed, renamed_last, slashes_for_underscores,
    generate_class_type_name, generate_instance_type_name, generate_wrapper_type_name, prefixed_name,
    rename_last_segment, module_name,
};
use crate::decl::{
    MethodDecl, ValidFn, ValidImpl, resolve_errors, allocator_items, constructor_items, other_items,
    others_errors, impl_errors, validated_as, is_other, allocators_errors, constructors_errors,
    duplicate_errors,
};

verus! {

broadcast use vstd::std_specs::vec::group_vec_axioms;

/// The script-visible signature of a method.
pub enum Signature {
    Getter(String),
    Setter(String),
    Function { name: String, arity: usize },
}

/// One row of a class's dispatch table.
pub struct MethodEntry {
    pub is_static: bool,
    pub signature: Signature,
    /// the type that holds the raw entry point
    pub owner: String,
    /// the raw entry point's name
    pub pointer: String,
}

/// Where an allocator or a constructor comes from.
pub enum Provided {
    /// made from the logical type's default value
    Default,
    /// the declared function of this name
    Declared(String),
}

/// What a class hands to the VM's registry.
pub struct ClassRegistration {
    pub class_type: String,
    pub instance_type: String,
    pub allocator: Provided,
    pub constructor: Provided,
    pub methods: Vec<MethodEntry>,
}

/// The name the script sees for `v`.
pub open spec fn script_name(v: ValidFn) -> String {
    match v.source_name {
        Some(n) => n,
        None => v.name,
    }
}

/// `e` is the dispatch table row of the method `v` of the logical type `src`.
pub open spec fn entry_of(src: Seq<char>, v: ValidFn, e: MethodEntry) -> bool {
    &&& e.is_static == v.is_static
    &&& if v.is_getter {
        e.signature == Signature::Getter(script_name(v))
    } else if v.is_setter {
        e.signature == Signature::Setter(script_name(v))
    } else {
        e.signature == Signature::Function {
            name: script_name(v),
            arity: v.params@.len() as usize,
        }
    }
    &&& e.owner@ == if v.is_static {
        class_name_of(src)
    } else {
        wrapper_name_of(src)
    }
    &&& e.pointer@ == prefixed("native_vm_"@, v.name@)
}

/// `r` is the registration of the validated declarations `v`.
pub open spec fn registration_of(v: ValidImpl, r: ClassRegistration) -> bool {
    &&& r.class_type@ == class_name_of(v.ty@)
    &&& r.instance_type@ == instance_name_of(v.ty@)
    &&& match v.allocator {
        Some(a) => r.allocator == Provided::Declared(a.name),
        None => r.allocator is Default,
    }
    &&& match v.constructor {
        Some(c) => r.constructor matches Provided::Declared(n) && n@ == prefixed("vm_"@, c.name@),
        None => r.constructor is Default,
    }
    &&& r.methods@.len() == v.others@.len()
    &&& forall|k: int|
        0 <= k < r.methods@.len() ==> entry_of(v.ty@, v.others@[k], #[trigger] r.methods@[k])
}

impl ValidFn {
    /// This method's row in the dispatch table of the logical type `src`.
    pub fn method_entry(&self, src: &str) -> (r: MethodEntry)
        ensures
            entry_of(src@, *self, r),
    {
        let name = self.source_name().clone();
        let signature = if self.is_getter {
            Signature::Getter(name)
        } else if self.is_setter {
            Signature::Setter(name)
        } else {
            Signature::Function { name, arity: self.arity() }
        };
        let owner = if self.is_static {
            generate_class_type_name(src)
        } else {
            generate_wrapper_type_name(src)
        };
        MethodEntry {
            is_static: self.is_static,
            signature,
            owner,
            pointer: prefixed_name("native_vm_", self.name.as_str()),
        }
    }
}

impl ValidImpl {
    /// The class's registration: its allocator and constructor, declared or
    /// defaulted, and one dispatch row per method.
    pub fn registration(&self) -> (r: ClassRegistration)
        ensures
            registration_of(*self, r),
    {
        let allocator = match &self.allocator {
            Some(a) => Provided::Declared(a.name.clone()),
            None => Provided::Default,
        };
        let constructor = match &self.constructor {
            Some(c) => Provided::Declared(prefixed_name("vm_", c.name.as_str())),
            None => Provided::Default,
        };
        let mut methods: Vec<MethodEntry> = Vec::new();
        let mut k: usize = 0;
        while k < self.others.len()
            invariant
                k <= self.others@.len(),
                methods@.len() == k,
                forall|j: int|
                    0 <= j < k ==> entry_of(self.ty@, self.others@[j], #[trigger] methods@[j]),
            decreases self.others@.len() - k,
        {
            methods.push(self.others[k].method_entry(self.ty.as_str()));
            k += 1;
        }
        ClassRegistration {
            class_type: generate_class_type_name(self.ty.as_str()),
            instance_type: generate_instance_type_name(self.ty.as_str()),
            allocator,
            constructor,
            methods,
        }
    }
}

proof fn lemma_others_clean(items: Seq<MethodDecl>)
    requires
        forall|k: int|
            0 <= k < other_items(items).len() ==> resolve_errors(#[trigger] other_items(items)[k]).len()
                == 0,
    ensures
        others_errors(items).len() == 0,
    decreases items.len(),
{
    if items.len() > 0 {
        let prev = items.drop_last();
        if is_other(items.last()) {
            assert(other_items(items) == other_items(prev).push(items.last()));
            assert(other_items(items)[other_items(prev).len() as int] == items.last());
            assert forall|k: int| 0 <= k < other_items(prev).len() implies resolve_errors(
                #[trigger] other_items(prev)[k],
            ).len() == 0 by {
                assert(other_items(items)[k] == other_items(prev)[k]);
            }
        } else {
            assert(other_items(items) == other_items(prev));
        }
        lemma_others_clean(prev);
    }
}

/// With no allocator and no constructor declared, declarations whose methods
/// each resolve cleanly validate, and the class is registered with the
/// allocator and constructor made from the logical type's default value.
pub proof fn lemma_defaults_when_undeclared(
    ty: String,
    items: Seq<MethodDecl>,
    v: ValidImpl,
    r: ClassRegistration,
)
    requires
        allocator_items(items).len() == 0,
        constructor_items(items).len() == 0,
        forall|k: int|
            0 <= k < other_items(items).len() ==> resolve_errors(#[trigger] other_items(items)[k]).len()
                == 0,
    ensures
        impl_errors(ty@, items).len() == 0,
        validated_as(ty, items, v) && registration_of(v, r) ==> r.allocator is Default
            && r.constructor is Default,
{
    lemma_others_clean(items);
    assert(duplicate_errors(items) =~= Seq::<crate::decl::DeclError>::empty());
    assert(allocators_errors(ty@, allocator_items(items)) =~= Seq::<crate::decl::DeclError>::empty());
    assert(constructors_errors(ty@, constructor_items(items)) =~= Seq::<crate::decl::DeclError>::empty());
}

/// A module declaration: its name and the logical types it publishes.
pub struct ModuleDecl {
    pub name: String,
    pub items: Vec<TypePath>,
}

/// One published class: the logical type, and the paths of its class and
/// instance record types.
pub struct ModuleClass {
    pub source: TypePath,
    pub class_path: Vec<String>,
    pub instance_path: Vec<String>,
}

/// What a module hands to the VM's module library.
pub struct ModulePlan {
    /// the script-side module path
    pub module_name: String,
    pub classes: Vec<ModuleClass>,
}

/// Builds a module's plan: its script-side path, and for each published type
/// its class and instance record types.
pub fn module_plan(decl: ModuleDecl) -> (r: ModulePlan)
    requires
        forall|i: int| 0 <= i < decl.items@.len() ==> (#[trigger] decl.items@[i]).segments@.len() > 0,
    ensures
        r.module_name@ == slashes_for_underscores(decl.name@),
        r.classes@.len() == decl.items@.len(),
        forall|i: int|
            0 <= i < r.classes@.len() ==> {
                let c = #[trigger] r.classes@[i];
                &&& c.source == decl.items@[i]
                &&& renamed_last(decl.items@[i].segments@, c.class_path@, "Class"@)
                &&& renamed_last(decl.items@[i].segments@, c.instance_path@, "Instance"@)
            },
{
    let ModuleDecl { name, items } = decl;
    let ghost orig = items@;
    let mut items = items;
    assert(items@.len() == items.len());
    let mut classes: Vec<ModuleClass> = Vec::new();
    let mut i: usize = 0;
    while items.len() > 0
        invariant
            i + items@.len() == orig.len(),
            orig.len() <= usize::MAX,
            items@ == orig.subrange(i as int, orig.len() as int),
            forall|k: int| 0 <= k < orig.len() ==> (#[trigger] orig[k]).segments@.len() > 0,
            classes@.len() == i,
            forall|k: int|
                0 <= k < i ==> {
                    let c = #[trigger] classes@[k];
                    &&& c.source == orig[k]
                    &&& renamed_last(orig[k].segments@, c.class_path@, "Class"@)
                    &&& renamed_last(orig[k].segments@, c.instance_path@, "Instance"@)
                },
        decreases items@.len(),
    {
        let tp = items.remove(0);
        assert(tp == orig[i as int]);
        let class_path = rename_last_segment(&tp.segments, "Class");
        let instance_path = rename_last_segment(&tp.segments, "Instance");
        classes.push(ModuleClass { source: tp, class_path, instance_path });
        i += 1;
        assert(items@ =~= orig.subrange(i as int, orig.len() as int));
    }
    ModulePlan { module_name: module_name(name.as_str()), classes }
}

} // verus!
