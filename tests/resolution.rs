use ruwren_macros::decl::{
    DeclError, FnSig, ImplDecl, MethodAttrs, MethodDecl, Param, ParamKind, ReturnDecl,
};
use ruwren_macros::expand::wren_impl_expand;
use ruwren_macros::registry::{Provided, Signature};
use ruwren_macros::resolve::resolve_method;
use ruwren_macros::types::{TypePath, TypeRef};

fn named(n: &str) -> TypeRef {
    TypeRef::Path(TypePath::ident(n))
}

fn generic(n: &str, args: Vec<TypeRef>) -> TypeRef {
    TypeRef::Path(TypePath { segments: vec![n.to_string()], angle: true, args })
}

fn param(n: &str, ty: TypeRef) -> Param {
    Param { name: Some(n.to_string()), ty }
}

fn attrs() -> MethodAttrs {
    MethodAttrs {
        allocator: false,
        constructor: false,
        instance: false,
        getter: false,
        setter: false,
        ignore: false,
        object: vec![],
    }
}

fn method(name: &str, has_self: bool, inputs: Vec<Param>, output: ReturnDecl, a: MethodAttrs) -> MethodDecl {
    MethodDecl { sig: FnSig { name: name.to_string(), has_self, inputs, output }, attrs: a }
}

#[test]
fn arity_counts_plain_and_object_params() {
    let mut a = attrs();
    a.instance = true;
    a.object = vec!["other".to_string()];
    let m = method(
        "combine",
        true,
        vec![param("x", named("i32")), param("other", named("Point")), param("y", named("f64"))],
        ReturnDecl::Default,
        a,
    );
    let v = resolve_method("Point", m).ok().unwrap();
    assert_eq!(v.arity(), 3);
    assert_eq!(v.kinds, vec![ParamKind::Plain, ParamKind::Object, ParamKind::Plain]);
    assert!(!v.is_static);
    assert_eq!(v.base_name(), "combine");
    assert_eq!(v.source_name(), "combine");
}

#[test]
fn arity_is_the_same_whatever_the_order() {
    let mut a = attrs();
    a.object = vec!["other".to_string()];
    let first = method(
        "f",
        true,
        vec![param("other", named("Point")), param("x", named("i32"))],
        ReturnDecl::Default,
        a,
    );
    let mut b = attrs();
    b.object = vec!["other".to_string()];
    let second = method(
        "f",
        true,
        vec![param("x", named("i32")), param("other", named("Point"))],
        ReturnDecl::Default,
        b,
    );
    let v1 = resolve_method("Point", first).ok().unwrap();
    let v2 = resolve_method("Point", second).ok().unwrap();
    assert_eq!(v1.arity(), 2);
    assert_eq!(v2.arity(), 2);
}

#[test]
fn receiver_without_self_is_first_param() {
    let m = method(
        "make",
        false,
        vec![param("class", named("PointClass")), param("x", named("i32"))],
        ReturnDecl::Default,
        attrs(),
    );
    let v = resolve_method("Point", m).ok().unwrap();
    assert_eq!(v.arity(), 1);
    assert!(v.receiver.is_named_exec(&"PointClass".to_string()));
}

#[test]
fn static_method_receiver_is_class_record() {
    let m = method("count", true, vec![], ReturnDecl::Default, attrs());
    let v = resolve_method("Point", m).ok().unwrap();
    assert!(v.is_static);
    assert!(v.receiver.is_named_exec(&"PointClass".to_string()));
}

#[test]
fn missing_receiver_is_rejected() {
    let m = method("lonely", false, vec![], ReturnDecl::Default, attrs());
    let e = resolve_method("Point", m).err().unwrap();
    assert_eq!(e.len(), 1);
    assert!(matches!(&e[0], DeclError::MissingReceiver { method } if method == "lonely"));
}

#[test]
fn missing_object_argument_is_rejected() {
    let mut a = attrs();
    a.object = vec!["ghost".to_string(), "x".to_string(), "phantom".to_string()];
    let m = method("f", true, vec![param("x", named("Point"))], ReturnDecl::Default, a);
    let e = resolve_method("Point", m).err().unwrap();
    assert_eq!(e.len(), 2);
    assert!(matches!(&e[0], DeclError::MissingObjectArgument { name } if name == "ghost"));
    assert!(matches!(&e[1], DeclError::MissingObjectArgument { name } if name == "phantom"));
}

#[test]
fn getter_with_param_is_rejected() {
    let mut a = attrs();
    a.getter = true;
    a.instance = true;
    let m = method("x", true, vec![param("y", named("i32"))], ReturnDecl::Default, a);
    let e = resolve_method("Point", m).err().unwrap();
    assert_eq!(e.len(), 1);
    assert!(matches!(&e[0], DeclError::BadGetter { method, arg_count: 2 } if method == "x"));
}

#[test]
fn setter_without_param_is_rejected() {
    let mut a = attrs();
    a.setter = true;
    let m = method("x", true, vec![], ReturnDecl::Default, a);
    let e = resolve_method("Point", m).err().unwrap();
    assert!(matches!(&e[0], DeclError::BadSetter { method, arg_count: 1, returns: ReturnDecl::Default } if method == "x"));
}

#[test]
fn setter_with_return_value_is_rejected() {
    let mut a = attrs();
    a.setter = true;
    let m = method("x", true, vec![param("v", named("i32"))], ReturnDecl::Type(named("i32")), a);
    let e = resolve_method("Point", m).err().unwrap();
    assert!(matches!(&e[0], DeclError::BadSetter { arg_count: 2, returns: ReturnDecl::Type(t), .. } if t.is_named_exec(&"i32".to_string())));
}

#[test]
fn setter_returning_unit_is_accepted_and_renamed() {
    let mut a = attrs();
    a.setter = true;
    a.instance = true;
    let m = method("x", true, vec![param("v", named("i32"))], ReturnDecl::Type(TypeRef::Unit), a);
    let v = resolve_method("Point", m).ok().unwrap();
    assert_eq!(v.name, "setter_x");
    assert_eq!(v.source_name(), "x");
    assert!(v.is_setter);
}

#[test]
fn getter_is_renamed() {
    let mut a = attrs();
    a.getter = true;
    let m = method("x", true, vec![], ReturnDecl::Default, a);
    let v = resolve_method("Point", m).ok().unwrap();
    assert_eq!(v.name, "getter_x");
    assert_eq!(v.source_name, Some("x".to_string()));
}

#[test]
fn accessor_errors_are_reported_together() {
    let mut g = attrs();
    g.getter = true;
    let mut s = attrs();
    s.setter = true;
    let mut o = attrs();
    o.object = vec!["nope".to_string()];
    let decl = ImplDecl {
        ty: "Point".to_string(),
        items: vec![
            method("a", true, vec![param("p", named("i32"))], ReturnDecl::Default, g),
            method("b", true, vec![], ReturnDecl::Default, s),
            method("c", true, vec![], ReturnDecl::Default, o),
        ],
    };
    let e = decl.validate().err().unwrap();
    assert_eq!(e.len(), 3);
    assert!(matches!(&e[0], DeclError::BadGetter { method, .. } if method == "a"));
    assert!(matches!(&e[1], DeclError::BadSetter { method, .. } if method == "b"));
    assert!(matches!(&e[2], DeclError::MissingObjectArgument { name } if name == "nope"));
}

#[test]
fn accessor_counts_without_self() {
    let mut g = attrs();
    g.getter = true;
    let m = method("x", false, vec![param("class", named("PointClass")), param("y", named("i32"))], ReturnDecl::Default, g);
    let e = resolve_method("Point", m).err().unwrap();
    assert!(matches!(&e[0], DeclError::BadGetter { arg_count: 1, .. }));
}

#[test]
fn duplicates_are_reported_with_every_other_problem() {
    let mut a1 = attrs();
    a1.allocator = true;
    let mut a2 = attrs();
    a2.allocator = true;
    let mut bad = attrs();
    bad.getter = true;
    let decl = ImplDecl {
        ty: "Point".to_string(),
        items: vec![
            method("alloc1", false, vec![], ReturnDecl::Default, a1),
            method("alloc2", false, vec![], ReturnDecl::Default, a2),
            method("g", true, vec![param("p", named("i32"))], ReturnDecl::Default, bad),
        ],
    };
    let e = decl.validate().err().unwrap();
    assert_eq!(e.len(), 2);
    assert!(matches!(e[0], DeclError::TooManyAllocators { found: 2 }));
    assert!(matches!(&e[1], DeclError::BadGetter { method, arg_count: 2 } if method == "g"));
}

#[test]
fn duplicate_allocators_and_constructors_are_both_reported() {
    let mut a1 = attrs();
    a1.allocator = true;
    let mut a2 = attrs();
    a2.allocator = true;
    let mut c1 = attrs();
    c1.constructor = true;
    let mut c2 = attrs();
    c2.constructor = true;
    let decl = ImplDecl {
        ty: "Point".to_string(),
        items: vec![
            method("alloc1", false, vec![], ReturnDecl::Default, a1),
            method("new1", true, vec![], ReturnDecl::Default, c1),
            method("alloc2", false, vec![param("x", named("i32"))], ReturnDecl::Default, a2),
            method("new2", true, vec![], ReturnDecl::Default, c2),
        ],
    };
    let e = decl.validate().err().unwrap();
    assert_eq!(e.len(), 3);
    assert!(matches!(e[0], DeclError::TooManyAllocators { found: 2 }));
    assert!(matches!(e[1], DeclError::TooManyConstructors { found: 2 }));
    assert!(matches!(e[2], DeclError::AllocatorHasParameters));
}

#[test]
fn allocator_return_type_is_completed() {
    let mut a = attrs();
    a.allocator = true;
    let decl = ImplDecl {
        ty: "Point".to_string(),
        items: vec![method("alloc", false, vec![], ReturnDecl::Type(TypeRef::Infer), a)],
    };
    let v = decl.validate().ok().unwrap();
    let alloc = v.allocator.unwrap();
    assert_eq!(alloc.name, "alloc");
    assert!(alloc.output.is_named_exec(&"PointClass".to_string()));
}

#[test]
fn allocator_with_params_and_wrong_return_is_rejected() {
    let mut a = attrs();
    a.allocator = true;
    let decl = ImplDecl {
        ty: "Point".to_string(),
        items: vec![method("alloc", false, vec![param("x", named("i32"))], ReturnDecl::Type(named("i32")), a)],
    };
    let e = decl.validate().err().unwrap();
    assert_eq!(e.len(), 2);
    assert!(matches!(e[0], DeclError::AllocatorHasParameters));
    assert!(matches!(e[1], DeclError::AllocatorReturnType));
}

#[test]
fn allocator_returning_class_or_placeholder_is_accepted() {
    let sig = FnSig {
        name: "alloc".to_string(),
        has_self: false,
        inputs: vec![],
        output: ReturnDecl::Type(named("PointClass")),
    };
    assert!(sig.validate_allocator("Point").is_ok());
    let sig = FnSig { name: "alloc".to_string(), has_self: false, inputs: vec![], output: ReturnDecl::Type(TypeRef::Infer) };
    assert!(sig.validate_allocator("Point").is_ok());
    let sig = FnSig { name: "alloc".to_string(), has_self: true, inputs: vec![], output: ReturnDecl::Default };
    assert!(sig.validate_allocator("Point").is_err());
}

#[test]
fn constructor_with_wrong_return_is_rejected() {
    let mut c = attrs();
    c.constructor = true;
    let decl = ImplDecl {
        ty: "Point".to_string(),
        items: vec![method("new", true, vec![], ReturnDecl::Type(named("PointInstance")), c)],
    };
    let e = decl.validate().err().unwrap();
    assert_eq!(e.len(), 1);
    assert!(matches!(&e[0], DeclError::ConstructorReturnType { returned: ReturnDecl::Type(t) } if t.is_named_exec(&"PointInstance".to_string())));
}

#[test]
fn constructor_on_instance_is_rejected() {
    let mut c = attrs();
    c.constructor = true;
    c.instance = true;
    let decl = ImplDecl {
        ty: "Point".to_string(),
        items: vec![method("new", true, vec![], ReturnDecl::Default, c)],
    };
    let e = decl.validate().err().unwrap();
    assert_eq!(e.len(), 1);
    assert!(matches!(e[0], DeclError::ConstructorReceiver { declared: None }));
}

#[test]
fn constructor_with_wrong_receiver_names_it() {
    let mut c = attrs();
    c.constructor = true;
    let decl = ImplDecl {
        ty: "Point".to_string(),
        items: vec![method("new", false, vec![param("class", named("Other"))], ReturnDecl::Default, c)],
    };
    let e = decl.validate().err().unwrap();
    assert_eq!(e.len(), 1);
    assert!(matches!(&e[0], DeclError::ConstructorReceiver { declared: Some(t) } if t.is_named_exec(&"Other".to_string())));
}

#[test]
fn constructor_return_type_is_completed() {
    let mut c = attrs();
    c.constructor = true;
    let decl = ImplDecl {
        ty: "Point".to_string(),
        items: vec![method(
            "new",
            false,
            vec![param("class", TypeRef::Reference { mutable: true, elem: Box::new(named("PointClass")) }), param("x", named("i32"))],
            ReturnDecl::Default,
            c,
        )],
    };
    let v = decl.validate().ok().unwrap();
    let ctor = v.constructor.unwrap();
    match &ctor.output {
        ReturnDecl::Type(t) => assert!(t.is_result_of_exec(&"PointInstance".to_string())),
        ReturnDecl::Default => panic!("return type was not completed"),
    }
    assert_eq!(ctor.arity(), 1);
}

#[test]
fn explicit_constructor_return_type_is_accepted() {
    let mut c = attrs();
    c.constructor = true;
    let ret = generic("Result", vec![named("PointInstance"), named("String")]);
    let decl = ImplDecl {
        ty: "Point".to_string(),
        items: vec![method("new", true, vec![], ReturnDecl::Type(ret), c)],
    };
    assert!(decl.validate().is_ok());
}

#[test]
fn no_allocator_or_constructor_uses_defaults() {
    let mut inst = attrs();
    inst.instance = true;
    let decl = ImplDecl {
        ty: "Point".to_string(),
        items: vec![
            method("len", true, vec![], ReturnDecl::Type(named("f64")), inst),
            method("origin", true, vec![], ReturnDecl::Default, attrs()),
        ],
    };
    let x = wren_impl_expand(decl).ok().unwrap();
    assert!(matches!(x.registration.allocator, Provided::Default));
    assert!(matches!(x.registration.constructor, Provided::Default));
    assert!(x.constructor.is_none());
    assert_eq!(x.registration.class_type, "PointClass");
    assert_eq!(x.registration.instance_type, "PointInstance");
    assert_eq!(x.natives.len(), 2);
    assert_eq!(x.natives[0].name, "native_vm_len");
    assert_eq!(x.natives[0].vm_fn.name, "vm_len");
    assert_eq!(x.registration.methods[0].owner, "PointWrapper");
    assert_eq!(x.registration.methods[1].owner, "PointClass");
    assert!(!x.registration.methods[0].is_static);
    assert!(x.registration.methods[1].is_static);
}

#[test]
fn declared_allocator_and_constructor_are_registered() {
    let mut a = attrs();
    a.allocator = true;
    let mut c = attrs();
    c.constructor = true;
    let decl = ImplDecl {
        ty: "Point".to_string(),
        items: vec![
            method("alloc", false, vec![], ReturnDecl::Default, a),
            method("new", true, vec![param("x", named("i32"))], ReturnDecl::Default, c),
        ],
    };
    let x = wren_impl_expand(decl).ok().unwrap();
    assert!(matches!(&x.registration.allocator, Provided::Declared(n) if n == "alloc"));
    assert!(x.valid.allocator.as_ref().unwrap().output.is_named_exec(&"PointClass".to_string()));
    assert!(matches!(&x.registration.constructor, Provided::Declared(n) if n == "vm_new"));
    assert_eq!(x.constructor.unwrap().name, "vm_new");
    assert!(x.natives.is_empty());
}

#[test]
fn ignored_methods_are_not_registered() {
    let mut ig = attrs();
    ig.ignore = true;
    let decl = ImplDecl {
        ty: "Point".to_string(),
        items: vec![
            method("helper", false, vec![], ReturnDecl::Default, ig),
            method("visible", true, vec![], ReturnDecl::Default, attrs()),
        ],
    };
    let x = wren_impl_expand(decl).ok().unwrap();
    assert_eq!(x.registration.methods.len(), 1);
    assert!(matches!(&x.registration.methods[0].signature, Signature::Function { name, arity: 0 } if name == "visible"));
}

#[test]
fn accessor_signatures_use_declared_names() {
    let mut g = attrs();
    g.getter = true;
    g.instance = true;
    let mut s = attrs();
    s.setter = true;
    s.instance = true;
    let decl = ImplDecl {
        ty: "Point".to_string(),
        items: vec![
            method("x", true, vec![], ReturnDecl::Type(named("f64")), g),
            method("x", true, vec![param("v", named("f64"))], ReturnDecl::Default, s),
        ],
    };
    let x = wren_impl_expand(decl).ok().unwrap();
    assert!(matches!(&x.registration.methods[0].signature, Signature::Getter(n) if n == "x"));
    assert!(matches!(&x.registration.methods[1].signature, Signature::Setter(n) if n == "x"));
    assert_eq!(x.registration.methods[0].pointer, "native_vm_getter_x");
    assert_eq!(x.registration.methods[1].pointer, "native_vm_setter_x");
}
