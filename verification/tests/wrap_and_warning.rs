use mozjs::handle::MutableHandle;
use mozjs::name_pool::name_pool;
use mozjs::refs::ObjectRef;
use mozjs::value::Value;
use mozjs::warning::latin1_to_string;
use mozjs::warning::message_length;
use mozjs::warning::report_warning;
use mozjs::warning::JSErrorReport;
use mozjs::wrap::maybe_wrap_object_or_null_value;
use mozjs::wrap::maybe_wrap_object_value;
use mozjs::wrap::maybe_wrap_value;
use mozjs::wrap::try_to_outerize;
use mozjs::wrap::ObjectFacts;
use mozjs::wrap::WrapAction;

#[test]
fn what_a_value_needs_before_the_context_sees_it() {
    let here_dom = ObjectFacts { in_context_compartment: true, is_dom_object: true };
    let here_plain = ObjectFacts { in_context_compartment: true, is_dom_object: false };
    let there_dom = ObjectFacts { in_context_compartment: false, is_dom_object: true };
    let there_plain = ObjectFacts { in_context_compartment: false, is_dom_object: false };
    let object = Value::Object(ObjectRef(0x10));

    assert_eq!(maybe_wrap_object_value(&object, here_dom), WrapAction::TryToOuterize);
    assert_eq!(maybe_wrap_object_value(&object, here_plain), WrapAction::Wrap);
    assert_eq!(maybe_wrap_object_value(&object, there_dom), WrapAction::Wrap);
    assert_eq!(maybe_wrap_object_value(&object, there_plain), WrapAction::Wrap);

    assert_eq!(maybe_wrap_object_or_null_value(&Value::Null, here_dom), WrapAction::Keep);
    assert_eq!(maybe_wrap_object_or_null_value(&object, here_dom), WrapAction::TryToOuterize);
    assert_eq!(maybe_wrap_object_or_null_value(&object, there_dom), WrapAction::Wrap);

    assert_eq!(maybe_wrap_value(&object, here_dom), WrapAction::TryToOuterize);
    assert_eq!(maybe_wrap_value(&object, there_plain), WrapAction::Wrap);
    assert_eq!(maybe_wrap_value(&Value::Int32(1), here_dom), WrapAction::Wrap);
    assert_eq!(maybe_wrap_value(&Value::Undefined, here_dom), WrapAction::Wrap);
}

#[test]
fn a_window_gives_way_to_its_proxy() {
    let mut place = Value::Object(ObjectRef(0x10));
    {
        let mut rval = MutableHandle::from_marked_location(&mut place);
        try_to_outerize(&mut rval, None);
        assert_eq!(rval.get(), Value::Object(ObjectRef(0x10)));
        try_to_outerize(&mut rval, Some(ObjectRef(0x20)));
        assert_eq!(rval.get(), Value::Object(ObjectRef(0x20)));
    }
    assert_eq!(place, Value::Object(ObjectRef(0x20)));
}

#[test]
fn a_pool_keeps_its_names_in_place() {
    let mut pool = name_pool();
    assert_eq!(pool.len(), 0);
    assert_eq!(pool.add(String::from("puts")), 0);
    assert_eq!(pool.add(String::from("print_stack")), 1);
    assert_eq!(pool.add(String::from("puts")), 2);
    assert_eq!(pool.len(), 3);
}

#[test]
fn latin_1_is_one_character_to_the_byte() {
    assert_eq!(latin1_to_string(b"test.js"), "test.js".chars().collect::<Vec<char>>());
    assert_eq!(latin1_to_string(&[0xe9, 0x74, 0xe9, 0xff, 0x00]), vec!['é', 't', 'é', 'ÿ', '\0']);
    assert_eq!(latin1_to_string(&[]), Vec::<char>::new());
}

#[test]
fn a_message_ends_with_its_first_zero_unit() {
    assert_eq!(message_length(&[0x68, 0x69, 0, 0x21, 0]), Some(2));
    assert_eq!(message_length(&[0]), Some(0));
    assert_eq!(message_length(&[0x68, 0x69]), None);
    assert_eq!(message_length(&[]), None);
}

#[test]
fn the_warning_that_a_report_stands_for() {
    let message: Vec<u16> = "x is not defined".encode_utf16().chain([0, 0x41]).collect();
    let report = JSErrorReport {
        filename: Some(b"caf\xe9.js".to_vec()),
        lineno: 3,
        column: 21,
        ucmessage: message,
    };
    let warning = report_warning(&report).unwrap();
    assert_eq!(warning.filename.iter().collect::<String>(), "café.js");
    assert_eq!(warning.lineno, 3);
    assert_eq!(warning.column, 21);
    assert_eq!(String::from_utf16_lossy(&warning.message), "x is not defined");

    let nameless = JSErrorReport { filename: None, lineno: 0, column: 0, ucmessage: vec![0] };
    let warning = report_warning(&nameless).unwrap();
    assert_eq!(warning.filename.iter().collect::<String>(), "none");
    assert!(warning.message.is_empty());

    let endless = JSErrorReport { filename: None, lineno: 0, column: 0, ucmessage: vec![0x41] };
    assert!(report_warning(&endless).is_none());
}
