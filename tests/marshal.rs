use ruwren_macros::call::{call_effect, decide_call, failure_message, CallDecision, CallEffect, SlotRead};
use ruwren_macros::decl::{FnSig, MethodAttrs, MethodDecl, Param, ParamKind, ReturnDecl, ValidFn};
use ruwren_macros::plan::{Cursor, FailureMode, ResultMode};
use ruwren_macros::resolve::resolve_method;
use ruwren_macros::types::{TypePath, TypeRef};

fn named(n: &str) -> TypeRef {
    TypeRef::Path(TypePath::ident(n))
}

fn param(n: &str, ty: TypeRef) -> Param {
    Param { name: Some(n.to_string()), ty }
}

/// An instance method `mix(a: i32, other: &Other, b: String, pair: Option<Pair>)`
/// of `Point`, with `other` and `pair` object parameters.
fn mixed(instance: bool) -> ValidFn {
    let attrs = MethodAttrs {
        allocator: false,
        constructor: false,
        instance,
        getter: false,
        setter: false,
        ignore: false,
        object: vec!["other".to_string(), "pair".to_string()],
    };
    let other = TypeRef::Reference { mutable: false, elem: Box::new(named("Other")) };
    let pair = TypeRef::Path(TypePath {
        segments: vec!["Option".to_string()],
        angle: true,
        args: vec![TypeRef::Path(TypePath {
            segments: vec!["shapes".to_string(), "Pair".to_string()],
            angle: false,
            args: vec![],
        })],
    });
    let m = MethodDecl {
        sig: FnSig {
            name: "mix".to_string(),
            has_self: true,
            inputs: vec![param("a", named("i32")), param("other", other), param("b", named("String")), param("pair", pair)],
            output: ReturnDecl::Default,
        },
        attrs,
    };
    resolve_method("Point", m).ok().unwrap()
}

#[test]
fn plan_orders_steps_by_position_with_chained_cursors() {
    let v = mixed(true);
    let p = v.gen_vm_fn_body("Point", false);
    assert_eq!(p.arity, 4);
    assert_eq!(p.steps.len(), 4);
    assert_eq!(p.steps[0].cursor, Cursor::Fresh { slot: 1, arity: 4 });
    assert_eq!(p.steps[1].cursor, Cursor::Chained { slot: 2, prev: 0 });
    assert_eq!(p.steps[3].cursor, Cursor::Chained { slot: 4, prev: 2 });
    for (i, s) in p.steps.iter().enumerate() {
        assert_eq!(s.position, i);
        assert_eq!(s.slot, i + 1);
    }
    assert_eq!(p.steps[0].kind, ParamKind::Plain);
    assert_eq!(p.steps[1].kind, ParamKind::Object);
    assert_eq!(p.check_order, vec![0, 2, 1, 3]);
    assert_eq!(p.failure, FailureMode::AbortFiber);
    assert_eq!(p.result, ResultMode::WriteSlot { slot: 0, scratch: 1 });
    assert_eq!(p.callee_type, "PointWrapper");
    assert_eq!(p.method, "mix");
}

#[test]
fn object_params_locate_instance_records() {
    let v = mixed(true);
    let p = v.gen_vm_fn_body("Point", false);
    assert_eq!(p.steps[0].source, None);
    assert_eq!(p.steps[1].source, Some(vec!["OtherInstance".to_string()]));
    assert_eq!(p.steps[3].source, Some(vec!["shapes".to_string(), "PairInstance".to_string()]));
}

#[test]
fn object_inside_slice_is_found() {
    let attrs = MethodAttrs {
        allocator: false,
        constructor: false,
        instance: true,
        getter: false,
        setter: false,
        ignore: false,
        object: vec!["all".to_string()],
    };
    let slice = TypeRef::Reference { mutable: false, elem: Box::new(TypeRef::Wrapped(Box::new(named("Foo")))) };
    let m = MethodDecl {
        sig: FnSig { name: "f".to_string(), has_self: true, inputs: vec![param("all", slice)], output: ReturnDecl::Default },
        attrs,
    };
    let v = resolve_method("Point", m).ok().unwrap();
    let p = v.gen_vm_fn_body("Point", false);
    assert_eq!(p.steps[0].source, Some(vec!["FooInstance".to_string()]));
}

#[test]
fn static_plan_calls_through_class() {
    let v = mixed(false);
    let p = v.gen_vm_fn_body("Point", false);
    assert!(p.is_static);
    assert_eq!(p.callee_type, "PointClass");
}

#[test]
fn constructor_plan_returns_instance() {
    let v = mixed(false);
    let f = v.gen_vm_fn_constructor("Point");
    assert_eq!(f.name, "vm_mix");
    assert_eq!(f.plan.failure, FailureMode::ReturnError);
    assert_eq!(f.plan.result, ResultMode::ReturnInstance);
    let n = v.gen_native_vm_fn("Point");
    assert_eq!(n.name, "native_vm_mix");
    assert_eq!(n.vm_fn.plan.failure, FailureMode::AbortFiber);
}

#[test]
fn wrong_plain_slot_aborts_fiber_without_invoking() {
    let v = mixed(true);
    let p = v.gen_vm_fn_body("Point", false);
    let mut invoked = 0;
    let reads = vec![SlotRead::Found, SlotRead::Found, SlotRead::Missing, SlotRead::Found];
    let d = decide_call(&p, &reads);
    if d == CallDecision::Invoke {
        invoked += 1;
    }
    assert_eq!(d, CallDecision::Fail { position: 2, slot: 3 });
    assert_eq!(invoked, 0);
    assert_eq!(call_effect(true, &p, d), CallEffect::FiberAborted { slot: 3 });
    assert_eq!(failure_message("alloc::string::String", 3), "failed to get value of type alloc::string::String for slot 3");
}

#[test]
fn plain_failures_are_checked_before_object_lookups() {
    let v = mixed(true);
    let p = v.gen_vm_fn_body("Point", false);
    let reads = vec![SlotRead::Found, SlotRead::Missing, SlotRead::Missing, SlotRead::Found];
    assert_eq!(decide_call(&p, &reads), CallDecision::Fail { position: 2, slot: 3 });
    let reads = vec![SlotRead::Found, SlotRead::Missing, SlotRead::Found, SlotRead::Found];
    assert_eq!(decide_call(&p, &reads), CallDecision::Fail { position: 1, slot: 2 });
}

#[test]
fn wrong_object_class_panics_and_is_contained() {
    let v = mixed(true);
    let p = v.gen_vm_fn_body("Point", false);
    let reads = vec![SlotRead::Found, SlotRead::Found, SlotRead::Found, SlotRead::WrongClass];
    let d = decide_call(&p, &reads);
    assert_eq!(d, CallDecision::Panic { position: 3, slot: 4 });
    assert_eq!(call_effect(true, &p, d), CallEffect::PanicContained);
}

#[test]
fn all_slots_good_invokes_and_writes_result() {
    let v = mixed(true);
    let p = v.gen_vm_fn_body("Point", false);
    let reads = vec![SlotRead::Found; 4];
    let d = decide_call(&p, &reads);
    assert_eq!(d, CallDecision::Invoke);
    assert_eq!(call_effect(true, &p, d), CallEffect::ResultWritten);
    let c = v.gen_vm_fn_constructor("Point");
    assert_eq!(call_effect(true, &c.plan, CallDecision::Invoke), CallEffect::InstanceInstalled);
}

#[test]
fn lost_session_aborts_host() {
    let v = mixed(true);
    let p = v.gen_vm_fn_body("Point", false);
    assert_eq!(call_effect(false, &p, CallDecision::Invoke), CallEffect::HostAbort);
}

#[test]
fn failure_message_names_type_and_slot() {
    assert_eq!(failure_message("i32", 12), "failed to get value of type i32 for slot 12");
    assert_eq!(failure_message("f64", 0), "failed to get value of type f64 for slot 0");
}
