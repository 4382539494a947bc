use mozjs::context::Context;
use mozjs::context::FIRST_ADDRESS;
use mozjs::context::NULL_ADDRESS;
use mozjs::handle::Handle;
use mozjs::handle::HandleObject;
use mozjs::handle::HandleValue;
use mozjs::handle::MutableHandle;
use mozjs::kind::RootKind;
use mozjs::kind::TracedKind;
use mozjs::kind::KIND_COUNT;
use mozjs::laws::store_then_load;
use mozjs::refs::FlatStringRef;
use mozjs::refs::FunctionRef;
use mozjs::refs::JsId;
use mozjs::refs::ObjectRef;
use mozjs::refs::ScriptRef;
use mozjs::refs::StringRef;
use mozjs::refs::SymbolRef;
use mozjs::rooted::Rooted;
use mozjs::rooted::RootedGuard;
use mozjs::runtime::native_stack_quota;
use mozjs::runtime::Runtime;
use mozjs::value::Value;

const ALL_KINDS: [TracedKind; 7] = [
    TracedKind::Object,
    TracedKind::String,
    TracedKind::Script,
    TracedKind::Function,
    TracedKind::Symbol,
    TracedKind::Value,
    TracedKind::Identifier,
];

fn heads(cx: &Context) -> Vec<usize> {
    ALL_KINDS.iter().map(|kind| cx.head(*kind)).collect()
}

#[test]
fn every_kind_has_its_own_entry() {
    assert_eq!(KIND_COUNT, 7);
    for (i, kind) in ALL_KINDS.iter().enumerate() {
        assert_eq!(kind.index(), i);
        assert_eq!(TracedKind::from_index(i), Some(*kind));
    }
    assert_eq!(TracedKind::from_index(7), None);
    assert_eq!(TracedKind::from_index(usize::MAX), None);
}

#[test]
fn each_type_of_reference_has_one_kind() {
    assert_eq!(ObjectRef::rootKind(), TracedKind::Object);
    assert_eq!(StringRef::rootKind(), TracedKind::String);
    assert_eq!(FlatStringRef::rootKind(), TracedKind::String);
    assert_eq!(FunctionRef::rootKind(), TracedKind::Function);
    assert_eq!(SymbolRef::rootKind(), TracedKind::Symbol);
    assert_eq!(ScriptRef::rootKind(), TracedKind::Script);
    assert_eq!(JsId::rootKind(), TracedKind::Identifier);
    assert_eq!(Value::rootKind(), TracedKind::Value);
}

#[test]
fn a_new_context_has_nothing_rooted() {
    let cx = Context::new(0xc000);
    assert_eq!(heads(&cx), vec![NULL_ADDRESS; 7]);
    assert!(cx.has_room());
}

#[test]
fn a_new_slot_is_not_linked() {
    let slot = Rooted::new_unrooted(ObjectRef(0x10));
    assert!(!slot.is_linked());
}

#[test]
fn two_roots_of_one_kind_nest() {
    let mut cx = Context::new(0xc000);
    let mut slot_a = Rooted::new_unrooted(ObjectRef(0x10));
    let mut slot_b = Rooted::new_unrooted(ObjectRef(0x20));

    let a = RootedGuard::new(&mut cx, &mut slot_a);
    let a_address = a.address();
    assert_eq!(a_address, FIRST_ADDRESS);
    assert_eq!(a.previous(), NULL_ADDRESS);
    assert_eq!(cx.head(TracedKind::Object), a_address);

    let b = RootedGuard::new(&mut cx, &mut slot_b);
    let b_address = b.address();
    assert_ne!(b_address, a_address);
    assert_eq!(cx.head(TracedKind::Object), b_address);
    assert_eq!(b.previous(), a_address);

    b.destroy(&mut cx);
    assert_eq!(cx.head(TracedKind::Object), a_address);
    a.destroy(&mut cx);
    assert_eq!(cx.head(TracedKind::Object), NULL_ADDRESS);

    assert!(!slot_a.is_linked());
    assert!(!slot_b.is_linked());
}

#[test]
fn nested_roots_of_many_kinds_restore_every_head() {
    let mut cx = Context::new(0xc000);
    let mut outer_slot = Rooted::new_unrooted(Value::Int32(1));
    let outer = RootedGuard::new(&mut cx, &mut outer_slot);
    let before = heads(&cx);

    let mut s1 = Rooted::new_unrooted(ObjectRef(1));
    let mut s2 = Rooted::new_unrooted(StringRef(2));
    let mut s3 = Rooted::new_unrooted(Value::Boolean(true));
    let mut s4 = Rooted::new_unrooted(ObjectRef(4));
    let mut s5 = Rooted::new_unrooted(JsId { bits: 5 });
    let mut s6 = Rooted::new_unrooted(FunctionRef(6));
    let g1 = RootedGuard::new(&mut cx, &mut s1);
    let g2 = RootedGuard::new(&mut cx, &mut s2);
    let g3 = RootedGuard::new(&mut cx, &mut s3);
    let g4 = RootedGuard::new(&mut cx, &mut s4);
    let g5 = RootedGuard::new(&mut cx, &mut s5);
    let g6 = RootedGuard::new(&mut cx, &mut s6);
    assert_eq!(cx.head(TracedKind::Object), g4.address());
    assert_eq!(cx.head(TracedKind::String), g2.address());
    assert_eq!(cx.head(TracedKind::Value), g3.address());
    assert_eq!(cx.head(TracedKind::Identifier), g5.address());
    assert_eq!(cx.head(TracedKind::Function), g6.address());
    assert_eq!(g3.previous(), outer.address());
    assert_eq!(g4.previous(), g1.address());

    g6.destroy(&mut cx);
    g5.destroy(&mut cx);
    g4.destroy(&mut cx);
    g3.destroy(&mut cx);
    g2.destroy(&mut cx);
    g1.destroy(&mut cx);
    assert_eq!(heads(&cx), before);

    outer.destroy(&mut cx);
    assert_eq!(heads(&cx), vec![NULL_ADDRESS; 7]);
}

#[test]
fn roots_of_different_kinds_need_not_nest() {
    let mut cx = Context::new(0xc000);
    let mut object_slot = Rooted::new_unrooted(ObjectRef(1));
    let mut value_slot = Rooted::new_unrooted(Value::Null);
    let object = RootedGuard::new(&mut cx, &mut object_slot);
    let value = RootedGuard::new(&mut cx, &mut value_slot);
    assert!(object.try_destroy(&mut cx).is_ok());
    assert_eq!(cx.head(TracedKind::Object), NULL_ADDRESS);
    assert_eq!(cx.head(TracedKind::Value), value.address());
    assert!(value.try_destroy(&mut cx).is_ok());
    assert_eq!(cx.head(TracedKind::Value), NULL_ADDRESS);
}

#[test]
fn destroying_out_of_order_is_refused() {
    let mut cx = Context::new(0xc000);
    let mut slot_a = Rooted::new_unrooted(ObjectRef(0x10));
    let mut slot_b = Rooted::new_unrooted(ObjectRef(0x20));
    let a = RootedGuard::new(&mut cx, &mut slot_a);
    let b = RootedGuard::new(&mut cx, &mut slot_b);
    let b_address = b.address();

    let a = match a.try_destroy(&mut cx) {
        Ok(()) => panic!("the outer root was destroyed before the inner one"),
        Err(a) => a,
    };
    assert_eq!(cx.head(TracedKind::Object), b_address);
    assert_eq!(a.get(), ObjectRef(0x10));

    assert!(b.try_destroy(&mut cx).is_ok());
    assert_eq!(cx.head(TracedKind::Object), a.address());
    assert!(a.try_destroy(&mut cx).is_ok());
    assert_eq!(cx.head(TracedKind::Object), NULL_ADDRESS);
}

#[test]
fn a_root_under_a_root_of_another_kind_and_its_own_is_refused() {
    let mut cx = Context::new(0xc000);
    let mut s1 = Rooted::new_unrooted(StringRef(1));
    let mut s2 = Rooted::new_unrooted(Value::Undefined);
    let mut s3 = Rooted::new_unrooted(StringRef(3));
    let g1 = RootedGuard::new(&mut cx, &mut s1);
    let g2 = RootedGuard::new(&mut cx, &mut s2);
    let g3 = RootedGuard::new(&mut cx, &mut s3);
    let g1 = match g1.try_destroy(&mut cx) {
        Ok(()) => panic!("a covered root was destroyed"),
        Err(g1) => g1,
    };
    g2.destroy(&mut cx);
    g3.destroy(&mut cx);
    g1.destroy(&mut cx);
    assert_eq!(heads(&cx), vec![NULL_ADDRESS; 7]);
}

#[test]
fn a_root_is_only_destroyed_in_its_own_context() {
    let mut home = Context::new(0xc000);
    let mut other = Context::new(0xd000);
    assert_eq!(home.address(), 0xc000);
    assert_eq!(other.address(), 0xd000);
    let mut slot_a = Rooted::new_unrooted(ObjectRef(1));
    let mut slot_b = Rooted::new_unrooted(ObjectRef(2));
    let a = RootedGuard::new(&mut home, &mut slot_a);
    let b = RootedGuard::new(&mut other, &mut slot_b);
    assert_eq!(a.address(), b.address());
    let a = match a.try_destroy(&mut other) {
        Ok(()) => panic!("a root was destroyed in a context that is not its own"),
        Err(a) => a,
    };
    assert_eq!(other.head(TracedKind::Object), b.address());
    assert_eq!(home.head(TracedKind::Object), a.address());
    assert!(a.try_destroy(&mut home).is_ok());
    assert!(b.try_destroy(&mut other).is_ok());
    assert_eq!(home.head(TracedKind::Object), NULL_ADDRESS);
    assert_eq!(other.head(TracedKind::Object), NULL_ADDRESS);
}

#[test]
fn the_table_refuses_a_linkage_that_is_not_innermost() {
    let mut cx = Context::new(0xc000);
    let first = cx.link(TracedKind::Script);
    let second = cx.link(TracedKind::Script);
    assert_eq!(first.table(), 0xc000);
    assert_eq!(first.kind(), TracedKind::Script);
    assert_eq!(first.address(), 1);
    assert_eq!(first.previous(), 0);
    assert_eq!(second.address(), 2);
    assert_eq!(second.previous(), 1);
    assert!(!cx.is_innermost(&first));
    assert!(cx.is_innermost(&second));
    let first = cx.try_unlink(first).unwrap_err();
    assert_eq!(cx.head(TracedKind::Script), 2);
    cx.unlink(second);
    assert_eq!(cx.head(TracedKind::Script), 1);
    assert!(cx.try_unlink(first).is_ok());
    assert_eq!(cx.head(TracedKind::Script), 0);
}

#[test]
fn an_address_is_never_handed_out_twice() {
    let mut cx = Context::new(0xc000);
    let mut slot = Rooted::new_unrooted(ObjectRef(1));
    let first = RootedGuard::new(&mut cx, &mut slot);
    let first_address = first.address();
    first.destroy(&mut cx);
    let again = RootedGuard::new(&mut cx, &mut slot);
    assert_ne!(again.address(), first_address);
    assert_ne!(again.address(), NULL_ADDRESS);
    assert_eq!(again.previous(), NULL_ADDRESS);
    again.destroy(&mut cx);
}

#[test]
fn a_read_view_shows_what_a_mutable_view_stored() {
    let mut cx = Context::new(0xc000);
    let mut slot = Rooted::new_unrooted(Value::Undefined);
    let mut root = RootedGuard::new(&mut cx, &mut slot);
    assert_eq!(root.handle().get(), Value::Undefined);
    {
        let mut writer = root.handle_mut();
        assert_eq!(writer.get(), Value::Undefined);
        writer.set(Value::Int32(7));
        assert_eq!(writer.get(), Value::Int32(7));
        assert_eq!(writer.handle().get(), Value::Int32(7));
    }
    assert_eq!(root.handle().get(), Value::Int32(7));
    assert_eq!(root.get(), Value::Int32(7));
    assert_eq!(store_then_load(&mut root, Value::Boolean(true)), Value::Boolean(true));
    assert_eq!(root.get(), Value::Boolean(true));
    root.set(Value::Null);
    assert_eq!(root.handle().get(), Value::Null);
    root.destroy(&mut cx);
}

#[test]
fn a_store_through_a_view_leaves_the_table_alone() {
    let mut cx = Context::new(0xc000);
    let mut slot = Rooted::new_unrooted(SymbolRef(1));
    let mut root = RootedGuard::new(&mut cx, &mut slot);
    let address = root.address();
    let previous = root.previous();
    let before = heads(&cx);
    root.handle_mut().set(SymbolRef(2));
    root.set(SymbolRef(3));
    assert_eq!(root.address(), address);
    assert_eq!(root.previous(), previous);
    assert_eq!(heads(&cx), before);
    assert!(root.try_destroy(&mut cx).is_ok());
    assert!(!slot.is_linked());
}

#[test]
fn a_slot_keeps_its_value_when_its_root_is_gone() {
    let mut cx = Context::new(0xc000);
    let mut slot = Rooted::new_unrooted(ObjectRef(1));
    let mut root = RootedGuard::new(&mut cx, &mut slot);
    root.set(ObjectRef(9));
    root.destroy(&mut cx);
    let root = RootedGuard::new(&mut cx, &mut slot);
    assert_eq!(root.get(), ObjectRef(9));
    root.destroy(&mut cx);
}

#[test]
fn linking_a_slot_by_hand() {
    let mut cx = Context::new(0xc000);
    let mut slot = Rooted::new_unrooted(ScriptRef(3));
    slot.add_to_root_stack(&mut cx);
    assert!(slot.is_linked());
    assert_eq!(cx.head(TracedKind::Script), FIRST_ADDRESS);
    slot.remove_from_root_stack(&mut cx);
    assert!(!slot.is_linked());
    assert_eq!(cx.head(TracedKind::Script), NULL_ADDRESS);
}

#[test]
fn views_of_marked_locations() {
    let value = Value::Int32(3);
    let view = Handle::from_marked_location(&value);
    assert_eq!(view.get(), Value::Int32(3));
    let mut place = ObjectRef(1);
    {
        let mut writer = MutableHandle::from_marked_location(&mut place);
        writer.set(ObjectRef(2));
    }
    assert_eq!(place, ObjectRef(2));
}

#[test]
fn a_view_reads_like_a_reference() {
    let mut cx = Context::new(0xc000);
    let mut slot = Rooted::new_unrooted(Value::Int32(5));
    let mut root = RootedGuard::new(&mut cx, &mut slot);
    assert_eq!(*root, Value::Int32(5));
    assert!(root.is_int32());
    let view = root.handle();
    let copy = view;
    assert_eq!(*view, Value::Int32(5));
    assert_eq!(*copy, Value::Int32(5));
    assert_eq!(copy.clone().get(), Value::Int32(5));
    let writer = root.handle_mut();
    assert_eq!(*writer, Value::Int32(5));
    root.destroy(&mut cx);
}

#[test]
fn the_default_views_need_no_context() {
    assert_eq!(HandleValue::null().get(), Value::Null);
    assert_eq!(HandleValue::undefined().get(), Value::Undefined);
    assert_eq!(HandleObject::null().get(), ObjectRef(0));
    assert!(HandleObject::null().get().is_null());
}

#[test]
fn a_runtime_roots_in_its_own_context() {
    let mut runtime = Runtime::new(0x5000, 0xc000);
    assert_eq!(runtime.rt(), 0x5000);
    let mut slot = Rooted::new_unrooted(ObjectRef(1));
    let root = RootedGuard::new(runtime.cx(), &mut slot);
    assert_eq!(runtime.cx().head(TracedKind::Object), root.address());
    root.destroy(runtime.cx());
    assert_eq!(runtime.cx().head(TracedKind::Object), NULL_ADDRESS);
    assert_eq!(runtime.rt(), 0x5000);
}

#[test]
fn the_stack_quota_of_a_runtime() {
    let quota = native_stack_quota();
    assert_eq!(quota.system_code, 128 * 8 * 1024);
    assert_eq!(quota.trusted_script, 128 * 8 * 1024 - 10 * 1024);
    assert_eq!(quota.untrusted_script, 128 * 8 * 1024 - 10 * 1024 - 8 * 12800);
}
