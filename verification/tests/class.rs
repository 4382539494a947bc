use mozjs::class::global_class_flags;
use mozjs::class::is_dom_class;
use mozjs::class::is_global_class;
use mozjs::class::methods_are_terminated;
use mozjs::class::properties_are_terminated;
use mozjs::class::JSClass;
use mozjs::class::JSFunctionSpec;
use mozjs::class::JSNativeWrapper;
use mozjs::class::JSPropertySpec;
use mozjs::class::ObjectOpResult;
use mozjs::class::OBJECT_OP_OK;
use mozjs::consts::default_heapsize;
use mozjs::consts::default_stacksize;
use mozjs::consts::JSCLASS_HIGH_FLAGS_SHIFT;
use mozjs::consts::JSCLASS_IMPLEMENTS_BARRIERS;
use mozjs::consts::JSCLASS_IS_DOMJSCLASS;
use mozjs::consts::JSCLASS_IS_GLOBAL;
use mozjs::consts::JSCLASS_IS_PROXY;
use mozjs::consts::JSCLASS_RESERVED_SLOTS_MASK;
use mozjs::consts::JSCLASS_RESERVED_SLOTS_SHIFT;
use mozjs::consts::JSCLASS_RESERVED_SLOTS_WIDTH;
use mozjs::consts::JSCLASS_USERBIT1;
use mozjs::consts::JSID_TYPE_VOID;
use mozjs::jsfriendapi::DOMCallbacks;
use mozjs::jsfriendapi::DOMProxyShadowsResult;
use mozjs::jsfriendapi::JSJitInfo;
use mozjs::jsfriendapi::OpType;

const ZERO_WRAPPER: JSNativeWrapper = JSNativeWrapper { op: None, info: 0 };

const ZERO_METHOD: JSFunctionSpec =
    JSFunctionSpec { name: 0, call: ZERO_WRAPPER, nargs: 0, flags: 0, selfHostedName: 0 };

const ZERO_PROPERTY: JSPropertySpec =
    JSPropertySpec { name: 0, flags: 0, getter: ZERO_WRAPPER, setter: ZERO_WRAPPER };

#[test]
fn the_constants_that_are_made_of_others() {
    assert_eq!(default_heapsize, 32 * 1024 * 1024);
    assert_eq!(default_stacksize, 8192);
    assert_eq!(JSID_TYPE_VOID, 2);
    assert_eq!(JSCLASS_RESERVED_SLOTS_MASK, (1 << JSCLASS_RESERVED_SLOTS_WIDTH) - 1);
    assert_eq!(
        JSCLASS_HIGH_FLAGS_SHIFT,
        JSCLASS_RESERVED_SLOTS_SHIFT + JSCLASS_RESERVED_SLOTS_WIDTH
    );
    assert_eq!(JSCLASS_IS_GLOBAL, 1 << (JSCLASS_HIGH_FLAGS_SHIFT + 1));
    assert_eq!(JSCLASS_IS_PROXY, 1 << (JSCLASS_HIGH_FLAGS_SHIFT + 4));
    assert_eq!(JSCLASS_IS_DOMJSCLASS, 1 << 4);
    assert_eq!(JSCLASS_IMPLEMENTS_BARRIERS, 1 << 5);
    assert_eq!(JSCLASS_USERBIT1, 1 << 7);
}

#[test]
fn a_class_of_the_embedder_has_its_flag() {
    let plain = JSClass { name: 0x10, flags: 0, cOps: 0 };
    let dom = JSClass { name: 0x10, flags: JSCLASS_IS_DOMJSCLASS | JSCLASS_USERBIT1, cOps: 0 };
    let all_but = JSClass { name: 0x10, flags: !JSCLASS_IS_DOMJSCLASS, cOps: 0 };
    assert!(!is_dom_class(&plain));
    assert!(is_dom_class(&dom));
    assert!(!is_dom_class(&all_but));
    assert!(!is_global_class(&dom));
    assert!(is_global_class(&all_but));
}

#[test]
fn the_flags_of_a_class_of_global_objects() {
    assert_eq!(global_class_flags(0), 0x2_0000);
    assert_eq!(global_class_flags(5), 0x2_0500);
    assert_eq!(global_class_flags(0xff), 0x2_ff00);
    assert_eq!(global_class_flags(0x1_23), 0x2_2300);
    let global = JSClass { name: 0, flags: global_class_flags(170), cOps: 0x80 };
    assert!(is_global_class(&global));
    assert!(!is_dom_class(&global));
}

#[test]
fn an_operation_is_set_to_success() {
    let mut result = ObjectOpResult { code_: usize::MAX };
    assert!(result.succeed());
    assert_eq!(result.code_, OBJECT_OP_OK);
    assert_eq!(result.code_, 0);
}

#[test]
fn a_wrapper_is_zeroed_when_it_has_neither_part() {
    assert!(ZERO_WRAPPER.is_zeroed());
    assert!(!JSNativeWrapper { op: Some(0x10), info: 0 }.is_zeroed());
    assert!(!JSNativeWrapper { op: None, info: 0x10 }.is_zeroed());
    assert!(!JSNativeWrapper { op: Some(0), info: 0 }.is_zeroed());
}

#[test]
fn a_table_of_methods_ends_with_a_zeroed_entry() {
    let puts = JSFunctionSpec {
        name: 0x100,
        call: JSNativeWrapper { op: Some(0x200), info: 0 },
        nargs: 1,
        flags: 0,
        selfHostedName: 0,
    };
    assert!(ZERO_METHOD.is_zeroed());
    assert!(!puts.is_zeroed());
    assert!(!JSFunctionSpec { nargs: 1, ..ZERO_METHOD }.is_zeroed());
    assert!(!JSFunctionSpec { flags: 1, ..ZERO_METHOD }.is_zeroed());
    assert!(!JSFunctionSpec { selfHostedName: 1, ..ZERO_METHOD }.is_zeroed());
    assert!(!JSFunctionSpec { name: 1, ..ZERO_METHOD }.is_zeroed());
    assert!(methods_are_terminated(&[puts, ZERO_METHOD]));
    assert!(methods_are_terminated(&[ZERO_METHOD]));
    assert!(!methods_are_terminated(&[]));
    assert!(!methods_are_terminated(&[puts]));
    assert!(!methods_are_terminated(&[ZERO_METHOD, puts]));
}

#[test]
fn a_table_of_properties_ends_with_a_zeroed_entry() {
    let length = JSPropertySpec {
        name: 0x100,
        flags: 1,
        getter: JSNativeWrapper { op: Some(0x200), info: 0x300 },
        setter: ZERO_WRAPPER,
    };
    assert!(ZERO_PROPERTY.is_zeroed());
    assert!(!length.is_zeroed());
    assert!(!JSPropertySpec { flags: 1, ..ZERO_PROPERTY }.is_zeroed());
    assert!(!JSPropertySpec { setter: JSNativeWrapper { op: Some(1), info: 0 }, ..ZERO_PROPERTY }
        .is_zeroed());
    assert!(properties_are_terminated(&[length, ZERO_PROPERTY]));
    assert!(!properties_are_terminated(&[]));
    assert!(!properties_are_terminated(&[ZERO_PROPERTY, length]));
}

#[test]
fn the_numbers_of_the_friend_interface() {
    assert_eq!(OpType::Getter.code(), 0);
    assert_eq!(OpType::Setter.code(), 1);
    assert_eq!(OpType::Method.code(), 2);
    assert_eq!(DOMProxyShadowsResult::ShadowCheckFailed.code(), 0);
    assert_eq!(DOMProxyShadowsResult::Shadows.code(), 1);
    assert_eq!(DOMProxyShadowsResult::DoesntShadow.code(), 2);
    assert_eq!(DOMProxyShadowsResult::DoesntShadowUnique.code(), 3);
    let info = JSJitInfo {
        op: 0x10,
        protoID: 1,
        depth: 2,
        type_and_aliasSet: OpType::Method.code(),
        returnType: 0,
        infallible_and_isMovable_and_isInSlot_and_isTypedMethod_and_slotIndex: 0,
    };
    assert_eq!(info.type_and_aliasSet, 2);
    let callbacks = DOMCallbacks { instanceClassMatchesProto: None };
    assert_eq!(callbacks.instanceClassMatchesProto, None);
}
