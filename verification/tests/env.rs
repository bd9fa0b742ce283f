use rust_jni::env::{cstr_from_str, jsize, JNIEnv};
use rust_jni::ffi;
use rust_jni::ffi::constants::{JNI_EINVAL, JNI_ERR, JNI_VERSION_1_8};
use rust_jni::ffi::{ArrayFunction, FieldFunction, MethodFunction};
use rust_jni::types::{
    JClass, JFieldID, JMethodID, JNIVersion, JNativeType, JNativeVec, JNonVoidType, JObject,
    JType, JValue, JavaDownCast, ReleaseMode, ViewState,
};

const ENV: usize = 0x7f00_0000;

fn env() -> JNIEnv {
    JNIEnv::new(ENV, JNI_VERSION_1_8).expect("Couldn't make test environment")
}

#[test]
fn test_get_version() {
    let env = env();
    assert_eq!(env.get_version(JNI_VERSION_1_8), JNIVersion::Ver18);
    assert_eq!(env.version(), JNIVersion::Ver18);
}

#[test]
fn test_define_class() {
    let env = env();
    let name = cstr_from_str("TestClass").unwrap();
    assert_eq!(name, b"TestClass".to_vec());
    let cls = env.define_class(0x5000).expect("Couldn't define new test class");
    assert_eq!(cls.borrow_ptr(), 0x5000);
    let err = env.define_class(0).unwrap_err();
    assert_eq!(err.to_text(), "Error in JVM: message \"Could not define new Java Class\", code -1");
}

#[test]
fn test_find_class() {
    let env = env();
    assert_eq!(env.find_class_request("java.lang.String").unwrap(), b"Ljava/lang/String;".to_vec());
    env.find_class("java.lang.String", 0x10).expect("Couldn't get java.lang.String in test");
    assert_eq!(env.find_class_request("java.lang.Integer[]").unwrap(), b"[Ljava/lang/Integer;".to_vec());
    env.find_class("java.lang.Integer[]", 0x20).expect("Couldn't get java.lang.Integer[] in test");
    assert_eq!(env.find_class_request("int[]").unwrap(), b"[I".to_vec());
    env.find_class("int[]", 0x30).expect("Couldn't get int[] in test");
}

#[test]
fn find_class_not_found_names_the_class() {
    let env = env();
    let err = env.find_class("no.such.Class", 0).unwrap_err();
    assert_eq!(err.to_text(), "Error in JVM: message \"Could not find Java Class no.such.Class\", code -1");
    assert_eq!(err.code(), Some(JNI_ERR));
}

#[test]
fn find_class_refuses_malformed_name() {
    let env = env();
    let err = env.find_class_request("(int").unwrap_err();
    assert_eq!(err.to_text(), "Error in JVM: message \"Invalid class to mangle\", code -1");
}

#[test]
fn test_from_reflected_method() {
    let env = env();
    let lookup = env.get_method_id_request("isEmpty", "() -> boolean").unwrap();
    let id = env.get_method_id("isEmpty", &lookup, 0x4000).unwrap();
    env.to_reflected_method(0x4100).unwrap();

    let new_id = env
        .from_reflected_method(0x4000, "boolean", 0)
        .expect("Couldn't make ID from reflected method");

    assert_eq!(id, new_id);
}

#[test]
fn test_from_reflected_field() {
    let env = env();
    let lookup = env.get_static_field_id_request("CASE_INSENSITIVE_ORDER", "java.util.Comparator").unwrap();
    let id = env.get_static_field_id("CASE_INSENSITIVE_ORDER", &lookup, 0x4200).unwrap();
    env.to_reflected_field(0x4300).unwrap();

    let new_id = env
        .from_reflected_field(0x4200, "java.util.Comparator")
        .expect("Couldn't make ID from reflected field");

    assert_eq!(id, new_id);
}

#[test]
fn from_reflected_errors() {
    let env = env();
    let err = env.from_reflected_method(0, "int", 2).unwrap_err();
    assert_eq!(err.to_text(), "Error in JVM: message \"Could not find method ID\", code -1");
    let err = env.from_reflected_field(0, "int").unwrap_err();
    assert_eq!(err.to_text(), "Error in JVM: message \"Could not find field ID\", code -1");
    let err = env.from_reflected_field(0x10, "void").unwrap_err();
    assert_eq!(err.to_text(), "Error in JVM: message \"Expected field type to be non-void\", code -1");
}

#[test]
fn test_to_reflected_method() {
    let env = env();
    let lookup = env.get_method_id_request("isEmpty", "() -> boolean").unwrap();
    assert_eq!(lookup.name, b"isEmpty".to_vec());
    assert_eq!(lookup.signature, b"()Z".to_vec());
    assert_eq!(lookup.ret_type, JType::Boolean);
    assert_eq!(lookup.num_args, 0);
    let id = env.get_method_id("isEmpty", &lookup, 0x4000).unwrap();
    assert_eq!(id.ret_ty(), JType::Boolean);
    assert_eq!(id.num_args(), 0);

    env.to_reflected_method(0x4100).expect("Couldn't get reflected method of String.isEmpty()");
    let err = env.to_reflected_method(0).unwrap_err();
    assert_eq!(err.to_text(), "Error in JVM: message \"Could not find reflected method\", code -1");
}

#[test]
fn test_to_reflected_field() {
    let env = env();
    let lookup = env.get_static_field_id_request("CASE_INSENSITIVE_ORDER", "java.util.Comparator").unwrap();
    assert_eq!(lookup.signature, b"Ljava/util/Comparator;".to_vec());
    assert_eq!(lookup.ty, JNonVoidType::Object);
    env.get_static_field_id("CASE_INSENSITIVE_ORDER", &lookup, 0x4200).unwrap();

    env.to_reflected_field(0x4300).expect("Couldn't get reflected field of String.CASE_INSENSITIVE_ORDER");
    let err = env.to_reflected_field(0).unwrap_err();
    assert_eq!(err.to_text(), "Error in JVM: message \"Could not find reflected field\", code -1");
}

#[test]
fn test_get_superclass() {
    let env = env();
    let super_cls = env.get_superclass(0x6000).expect("Couldn't get String superclass");
    let obj: JObject = super_cls.downcast();
    assert_eq!(obj.borrow_ptr(), 0x6000);
    let err = env.get_superclass(0).unwrap_err();
    assert_eq!(err.to_text(), "Error in JVM: message \"Could not get object superclass\", code -1");
}

#[test]
fn test_throw_family() {
    let env = env();
    let lookup = env.get_method_id_request("<init>", "(java.lang.String) -> void").unwrap();
    assert_eq!(lookup.signature, b"(Ljava/lang/String;)V".to_vec());
    assert_eq!(lookup.ret_type, JType::Void);
    assert_eq!(lookup.num_args, 1);
    env.new_string_utf(0x7000).unwrap();
    assert_eq!(cstr_from_str("Example Exception").unwrap(), b"Example Exception".to_vec());
    env.new_object(0x7100).unwrap();

    env.throw(0).expect("Couldn't throw exception");
    let new_exc = env.exception_occurred(0x7100).unwrap();
    let obj: JObject = new_exc.downcast();
    assert_eq!(obj.borrow_ptr(), 0x7100);
    env.exception_clear(true).expect("Couldn't clear exception");

    env.throw_new(0).expect("Couldn't throw new exception");
    env.exception_clear(true).expect("Couldn't clear exception");

    assert_eq!(env.throw(-1).unwrap_err().to_text(), "Error in JVM: message \"Could not throw exception\", code -1");
    assert_eq!(env.throw(-4).unwrap_err().code(), Some(-4));
    assert_eq!(env.throw_new(7).unwrap_err().to_text(), "Error in JVM: message \"Could not throw exception\", code 7");
    assert_eq!(env.exception_clear(false).unwrap_err().to_text(), "Error in JVM: message \"No active error to clear\", code -1");
    assert_eq!(env.exception_describe(false).unwrap_err().to_text(), "Error in JVM: message \"No active exception to describe\", code -1");
    assert!(env.exception_describe(true).is_ok());
    assert_eq!(env.exception_occurred(0).unwrap_err().to_text(), "Error in JVM: message \"No active exception to retrieve\", code -1");
}

#[test]
fn test_ensure_local_capacity() {
    let env = env();
    env.ensure_local_capacity(100, 0).expect("Couldn't ensure capacity");
    let err = env.ensure_local_capacity(100, -4).unwrap_err();
    assert_eq!(err.to_text(), "Error in JVM: message \"Couldn't ensure local capacity of at least 100\", code -4");
    let err = env.push_local_frame(-16, -4).unwrap_err();
    assert_eq!(err.to_text(), "Error in JVM: message \"Couldn't push local from with capacity -16\", code -4");
    assert!(env.push_local_frame(16, 0).is_ok());
}

#[test]
fn new_env_from_null() {
    let err = JNIEnv::new(0, 0).unwrap_err();
    assert_eq!(err.to_text(), "Error in JNI: Pointer was null in JNIEnv Constructor");
    assert_eq!(err.code(), None);
    assert_eq!(env().borrow_ptr(), ENV);
}

#[test]
fn cstr_refuses_zero_byte() {
    let err = cstr_from_str("ab\0cd\0").unwrap_err();
    assert_eq!(err.to_text(), "Error occurred in JNI, source: nul byte found in provided data at position: 2");
    assert_eq!(cstr_from_str("").unwrap(), Vec::<u8>::new());
    assert_eq!(cstr_from_str("é").unwrap(), vec![0xc3, 0xa9]);
}

#[test]
fn jsize_range() {
    assert_eq!(jsize(0).unwrap(), 0);
    assert_eq!(jsize(0x7fff_ffff).unwrap(), i32::MAX);
    let err = jsize(0x8000_0000).unwrap_err();
    assert_eq!(err.to_text(), "Error in JVM: message \"Size out of range\", code -6");
    assert_eq!(err.code(), Some(JNI_EINVAL));
}

#[test]
fn coded_results_keep_the_code() {
    let env = env();
    assert!(env.register_natives(0).is_ok());
    assert_eq!(env.register_natives(-3).unwrap_err().to_text(), "Error in JVM: message \"Couldn't register native methods\", code -3");
    assert_eq!(env.unregister_natives(-2).unwrap_err().to_text(), "Error in JVM: message \"Couldn't unregister native methods\", code -2");
    assert_eq!(env.monitor_enter(-5).unwrap_err().to_text(), "Error in JVM: message \"Couldn't enter monitor\", code -5");
    assert_eq!(env.monitor_exit(-6).unwrap_err().to_text(), "Error in JVM: message \"Couldn't exit monitor\", code -6");
    assert!(env.monitor_enter(0).is_ok());
}

#[test]
fn pointer_results() {
    let env = env();
    let cases: Vec<(Result<usize, String>, &str)> = vec![
        (env.new_global_ref(0).map(|h| h.borrow_ptr()).map_err(|e| e.to_text()), "Couldn't create new globabl reference"),
        (env.new_local_ref(0).map(|h| h.borrow_ptr()).map_err(|e| e.to_text()), "Couldn't create new local reference"),
        (env.alloc_object(0).map(|h| h.borrow_ptr()).map_err(|e| e.to_text()), "Couldn't allocate object"),
        (env.new_object(0).map(|h| h.borrow_ptr()).map_err(|e| e.to_text()), "Couldn't create new object"),
        (env.get_object_class(0).map(|h| h.borrow_ptr()).map_err(|e| e.to_text()), "Couldn't get object class"),
        (env.new_string(0).map(|h| h.borrow_ptr()).map_err(|e| e.to_text()), "Couldn't create new string"),
        (env.new_string_utf(0).map(|h| h.borrow_ptr()).map_err(|e| e.to_text()), "Couldn't create string from UTF"),
        (env.new_object_array(0).map(|h| h.borrow_ptr()).map_err(|e| e.to_text()), "Couldn't create new object array"),
        (env.get_object_array_element(0).map(|h| h.borrow_ptr()).map_err(|e| e.to_text()), "Failed to get array element"),
        (env.new_weak_global_ref(0).map(|h| h.borrow_ptr()).map_err(|e| e.to_text()), "Couldn't create weak global reference"),
        (env.new_direct_byte_buffer(0).map(|h| h.borrow_ptr()).map_err(|e| e.to_text()), "Couldn't create direct byte buffer"),
        (env.get_module(0).map(|h| h.borrow_ptr()).map_err(|e| e.to_text()), "Couldn't get module for class"),
    ];
    for (got, msg) in cases {
        assert_eq!(got, Err(format!("Error in JVM: message \"{}\", code -1", msg)));
    }
    assert_eq!(env.new_global_ref(0x99).unwrap().borrow_ptr(), 0x99);
    assert_eq!(env.new_weak_global_ref(0x98).unwrap().borrow_ptr(), 0x98);
    assert_eq!(env.get_module(0x97).unwrap().borrow_ptr(), 0x97);
}

#[test]
fn pop_local_frame_passes_null_through() {
    let env = env();
    assert_eq!(env.pop_local_frame_request(None), 0);
    assert_eq!(env.pop_local_frame_request(Some(JObject::new(0x42).unwrap())), 0x42);
    assert!(env.pop_local_frame(0).is_none());
    assert_eq!(env.pop_local_frame(0x42).unwrap().borrow_ptr(), 0x42);
}

#[test]
fn method_lookup_errors() {
    let env = env();
    let err = env.get_method_id_request("length", "int").unwrap_err();
    assert_eq!(err.to_text(), "Error in JVM: message \"Expected method signature\", code -1");
    let err = env.get_static_method_id_request("f", "() -> () -> int").unwrap_err();
    assert_eq!(err.to_text(), "Error in JVM: message \"Expected method signature\", code -1");
    let err = env.get_method_id_request("f", "(int").unwrap_err();
    assert_eq!(err.to_text(), "Error in JVM: message \"Invalid class to mangle\", code -1");
    let err = env.get_method_id_request("a\0", "() -> int").unwrap_err();
    assert_eq!(err.to_text(), "Error occurred in JNI, source: nul byte found in provided data at position: 1");
    let err = env.get_method_id_request("f", "() -> a\0b").unwrap_err();
    assert_eq!(err.to_text(), "Error occurred in JNI, source: nul byte found in provided data at position: 4");

    let lookup = env.get_method_id_request("length", "() -> int").unwrap();
    let err = env.get_method_id("length", &lookup, 0).unwrap_err();
    assert_eq!(err.to_text(), "Error in JVM: message \"Couldn't get method id of length\", code -1");
    let err = env.get_static_method_id("valueOf", &lookup, 0).unwrap_err();
    assert_eq!(err.to_text(), "Error in JVM: message \"Couldn't get static method id of valueOf\", code -1");
}

#[test]
fn field_lookup_errors() {
    let env = env();
    let err = env.get_field_id_request("x", "void").unwrap_err();
    assert_eq!(err.to_text(), "Error in JVM: message \"Expected field type to be non-void\", code -1");
    let err = env.get_field_id_request("x", "() -> int").unwrap_err();
    assert_eq!(err.to_text(), "Error in JVM: message \"Expected field type to be non-void\", code -1");
    let lookup = env.get_field_id_request("count", "long").unwrap();
    assert_eq!(lookup.name, b"count".to_vec());
    assert_eq!(lookup.signature, b"J".to_vec());
    assert_eq!(lookup.ty, JNonVoidType::Long);
    let err = env.get_field_id("count", &lookup, 0).unwrap_err();
    assert_eq!(err.to_text(), "Error in JVM: message \"Couldn't get field id of count\", code -1");
    let err = env.get_static_field_id("count", &lookup, 0).unwrap_err();
    assert_eq!(err.to_text(), "Error in JVM: message \"Couldn't get static field id of count\", code -1");
    let id = env.get_field_id("count", &lookup, 0x10).unwrap();
    assert_eq!(id.ty(), JNonVoidType::Long);
    assert_eq!(id.borrow_ptr(), 0x10);
}

#[test]
fn is_empty_on_empty_string() {
    let env = env();
    let cls = env.find_class("java.lang.String", 0x100).unwrap();
    let lookup = env.get_method_id_request("isEmpty", "() -> boolean").unwrap();
    let id = env.get_method_id("isEmpty", &lookup, 0x200).unwrap();
    let units = env.new_string_request(&[]).unwrap();
    assert!(units.is_empty());
    let string = env.new_string(0x300).unwrap();
    let obj: JObject = string.downcast();

    let call = env.call_method_request(&obj, &id, &[]).unwrap();
    assert_eq!(call.function, MethodFunction::CallBooleanMethodA);
    assert_eq!(call.receiver, 0x300);
    assert_eq!(call.class, 0);
    assert_eq!(call.method, 0x200);
    assert!(call.args.is_empty());
    let result = env.call_method(Some(ffi::JValue::Z(true)), false).unwrap().unwrap();
    assert!(matches!(result, JValue::Bool(true)));
    assert_eq!(cls.borrow_ptr(), 0x100);
}

#[test]
fn static_method_that_throws() {
    let env = env();
    let cls = JClass::new(0x100).unwrap();
    let id = JMethodID::new(0x200, JType::Int, 1).unwrap();
    let call = env.call_static_method_request(&cls, &id, &[JValue::Int(7)]).unwrap();
    assert_eq!(call.function, MethodFunction::CallStaticIntMethodA);
    assert_eq!(call.receiver, 0);
    assert_eq!(call.class, 0x100);
    assert_eq!(call.args, vec![ffi::JValue::I(7)]);
    let pending = true;
    let err = env.call_static_method(Some(ffi::JValue::I(0)), pending).unwrap_err();
    assert_eq!(err.to_text(), "Error in JVM: message \"Error occured during method call\", code -1");
    let err = env.call_static_method(Some(ffi::JValue::C(0xD800)), pending).unwrap_err();
    assert_eq!(err.to_text(), "Error in JVM: message \"Error occured during method call\", code -1");
    assert!(env.call_method(Some(ffi::JValue::C(0xDFFF)), pending).is_err());
    assert!(env.call_nonvirtual_method(None, pending).is_err());
    assert!(pending);
}

#[test]
fn call_checks_number_of_arguments() {
    let env = env();
    let obj = JObject::new(0x10).unwrap();
    let cls = JClass::new(0x20).unwrap();
    let id = JMethodID::new(0x30, JType::Void, 2).unwrap();
    let err = env.call_method_request(&obj, &id, &[JValue::Int(1)]).unwrap_err();
    assert_eq!(err.to_text(), "Error in JVM: message \"Invalid number of arguement for method\", code -1");
    let err = env.call_nonvirtual_method_request(&obj, &cls, &id, &[]).unwrap_err();
    assert_eq!(err.to_text(), "Error in JVM: message \"Invalid number of arguments for method\", code -1");
    let err = env.call_static_method_request(&cls, &id, &[]).unwrap_err();
    assert_eq!(err.to_text(), "Error in JVM: message \"Invalid number of arguments for method\", code -1");

    let args = [JValue::Char('A'), JValue::Object(Some(JObject::new(0x44).unwrap()))];
    let call = env.call_nonvirtual_method_request(&obj, &cls, &id, &args).unwrap();
    assert_eq!(call.function, MethodFunction::CallNonvirtualVoidMethodA);
    assert_eq!(call.receiver, 0x10);
    assert_eq!(call.class, 0x20);
    assert_eq!(call.method, 0x30);
    assert_eq!(call.args, vec![ffi::JValue::C(65), ffi::JValue::L(0x44)]);
    assert!(env.call_nonvirtual_method(None, false).unwrap().is_none());
}

#[test]
fn call_results_by_type() {
    let env = env();
    assert!(matches!(env.call_method(Some(ffi::JValue::B(-3)), false), Ok(Some(JValue::Byte(-3)))));
    assert!(matches!(env.call_method(Some(ffi::JValue::C(0x263A)), false), Ok(Some(JValue::Char('\u{263A}')))));
    assert!(matches!(env.call_method(Some(ffi::JValue::S(-300)), false), Ok(Some(JValue::Short(-300)))));
    assert!(matches!(env.call_method(Some(ffi::JValue::I(70000)), false), Ok(Some(JValue::Int(70000)))));
    assert!(matches!(env.call_method(Some(ffi::JValue::J(1 << 40)), false), Ok(Some(JValue::Long(1099511627776)))));
    let bits = 1.5f32.to_bits();
    match env.call_method(Some(ffi::JValue::F(bits)), false) {
        Ok(Some(JValue::Float(f))) => assert_eq!(f32::from_bits(f), 1.5f32),
        _ => panic!("expected a float"),
    }
    let bits = (-2.25f64).to_bits();
    match env.call_method(Some(ffi::JValue::D(bits)), false) {
        Ok(Some(JValue::Double(d))) => assert_eq!(f64::from_bits(d), -2.25f64),
        _ => panic!("expected a double"),
    }
    assert!(matches!(env.call_method(Some(ffi::JValue::L(0)), false), Ok(Some(JValue::Object(None)))));
    match env.call_method(Some(ffi::JValue::L(0x77)), false) {
        Ok(Some(JValue::Object(Some(obj)))) => assert_eq!(obj.borrow_ptr(), 0x77),
        _ => panic!("expected an object"),
    }
}

#[test]
fn field_access() {
    let env = env();
    let obj = JObject::new(0x10).unwrap();
    let cls = JClass::new(0x20).unwrap();
    let id = JFieldID::new(0x30, JNonVoidType::Int).unwrap();
    let read = env.get_field_request(&obj, &id);
    assert_eq!(read.function, FieldFunction::GetIntField);
    assert_eq!((read.target, read.field), (0x10, 0x30));
    assert!(matches!(env.get_field(ffi::JValue::I(12)), Ok(JValue::Int(12))));
    let read = env.get_static_field_request(&cls, &id);
    assert_eq!(read.function, FieldFunction::GetStaticIntField);
    assert_eq!((read.target, read.field), (0x20, 0x30));
    assert!(matches!(env.get_static_field(ffi::JValue::L(0)), Ok(JValue::Object(None))));

    let write = env.set_field(&obj, &id, JValue::Int(-9)).unwrap();
    assert_eq!(write.function, FieldFunction::SetIntField);
    assert_eq!((write.target, write.field, write.value), (0x10, 0x30, ffi::JValue::I(-9)));
    let write = env.set_static_field(&cls, &id, JValue::Int(5)).unwrap();
    assert_eq!(write.function, FieldFunction::SetStaticIntField);
    assert_eq!((write.target, write.field, write.value), (0x20, 0x30, ffi::JValue::I(5)));

    let err = env.set_field(&obj, &id, JValue::Bool(true)).unwrap_err();
    assert_eq!(err.to_text(), "Error in JVM: message \"JValue isn't an integer, but a boolean\", code -1");
    let oid = JFieldID::new(0x31, JNonVoidType::Object).unwrap();
    let err = env.set_static_field(&cls, &oid, JValue::Long(1)).unwrap_err();
    assert_eq!(err.to_text(), "Error in JVM: message \"JValue isn't an object, but a long\", code -1");
    let write = env.set_field(&obj, &oid, JValue::Object(None)).unwrap();
    assert_eq!(write.function, FieldFunction::SetObjectField);
    assert_eq!(write.value, ffi::JValue::L(0));
}

#[test]
fn strings_both_ways() {
    let env = env();
    assert_eq!(env.new_string_request(&['h', 'i', '\u{263A}', '\u{1F600}']).unwrap(), vec![104, 105, 0x263A, 0xF600]);
    assert_eq!(env.get_string_chars(Some(&[104, 105, 0x263A])).unwrap(), vec!['h', 'i', '\u{263A}']);
    let err = env.get_string_chars(None).unwrap_err();
    assert_eq!(err.to_text(), "Error in JVM: message \"Couldn't get string characters\", code -1");
    assert_eq!(env.get_string_utf_chars(Some(&[0xc0, 0x80, 65])).unwrap(), vec![0xc0, 0x80, 65]);
    let err = env.get_string_utf_chars(None).unwrap_err();
    assert_eq!(err.to_text(), "Error in JVM: message \"Couldn't get string characters\", code -1");
    assert_eq!(env.get_string_region(&[65, 66]).unwrap(), vec!['A', 'B']);
    assert_eq!(env.get_string_utf_region(&[65, -1, -128, 0, 127]).unwrap(), vec![65, 255, 128, 0, 127]);
    assert_eq!(env.region_request(3, 4).unwrap(), (3, 4));
    assert!(env.region_request(0x8000_0000, 4).is_err());
    assert!(env.region_request(0, 0x8000_0000).is_err());
}

#[test]
fn object_arrays() {
    let env = env();
    let init = JObject::new(0x55).unwrap();
    assert_eq!(env.new_object_array_request(4, Some(&init)).unwrap(), (4, 0x55));
    assert_eq!(env.new_object_array_request(0, None).unwrap(), (0, 0));
    assert!(env.new_object_array_request(0x8000_0000, None).is_err());
    assert_eq!(env.get_object_array_element_request(2, 3).unwrap(), 2);
    let err = env.get_object_array_element_request(3, 3).unwrap_err();
    assert_eq!(err.to_text(), "Error in JVM: message \"Index outside array bounds\", code -1");
    assert_eq!(env.set_object_array_element(0, 1).unwrap(), 0);
    let err = env.set_object_array_element(0, 0).unwrap_err();
    assert_eq!(err.to_text(), "Error in JVM: message \"Index outside array bounds\", code -1");
}

#[test]
fn byte_array_view_and_region() {
    let env = env();
    let alloc = env.new_native_array_request(3, JNativeType::Byte).unwrap();
    assert_eq!(alloc.function, ArrayFunction::NewByteArray);
    assert_eq!(alloc.len, 3);
    let arr = env.new_native_array(0x800, JNativeType::Byte).unwrap();
    assert_eq!(arr.jtype(), JNativeType::Byte);

    let mut memory: Vec<i8> = vec![0, 0, 0];
    let req = env.get_native_array_elements_request(&arr);
    assert_eq!(req.function, ArrayFunction::GetByteArrayElements);
    assert_eq!(req.array, 0x800);
    let view = env.get_native_array_elements(&arr, 0x900, memory.len(), true).unwrap();
    assert_eq!(view.jtype(), JNativeType::Byte);
    assert_eq!(view.len(), 3);
    assert_eq!(view.borrow_ptr(), 0x900);
    assert_eq!(view.state(), ViewState::HeldView(true));
    memory.copy_from_slice(&[1, 2, 3]);
    let rel = env.release_native_array_elements(&arr, view, ReleaseMode::CopyFree).unwrap();
    assert_eq!(rel.function, ArrayFunction::ReleaseByteArrayElements);
    assert_eq!((rel.array, rel.elems, rel.mode), (0x800, 0x900, 0));

    let read = env.get_native_array_region_request(&arr, 0, 3).unwrap();
    assert_eq!(read.function, ArrayFunction::GetByteArrayRegion);
    assert_eq!((read.array, read.start, read.len), (0x800, 0, 3));
    let out = env.get_native_array_region(ffi::JBuffer::Byte(memory.clone())).unwrap();
    match out {
        JNativeVec::Byte(v) => assert_eq!(v, vec![1, 2, 3]),
        _ => panic!("expected bytes"),
    }
}

#[test]
fn array_errors() {
    let env = env();
    let err = env.new_native_array(0, JNativeType::Int).unwrap_err();
    assert_eq!(err.to_text(), "Error in JVM: message \"Couldn't create new native array\", code -1");
    assert!(env.new_native_array_request(0x8000_0000, JNativeType::Int).is_err());
    let ints = env.new_native_array(0x10, JNativeType::Int).unwrap();
    let longs = env.new_native_array(0x20, JNativeType::Long).unwrap();
    let err = env.get_native_array_elements(&ints, 0, 4, false).unwrap_err();
    assert_eq!(err.to_text(), "Error in JVM: message \"Couldn't get array elements\", code -1");
    let err = env.get_primitive_array_critical(&ints, 0, 4).unwrap_err();
    assert_eq!(err.to_text(), "Error in JVM: message \"Couldn't get array elements\", code -1");

    let view = env.get_native_array_elements(&ints, 0x30, 4, false).unwrap();
    assert_eq!(view.state(), ViewState::HeldView(false));
    let err = env.release_native_array_elements(&longs, view, ReleaseMode::Abort).unwrap_err();
    assert_eq!(err.to_text(), "Error in JVM: message \"Invalid array/slice combo: long array, int slice\", code -1");

    let critical = env.get_primitive_array_critical(&ints, 0x40, 4).unwrap();
    assert_eq!(critical.state(), ViewState::CriticalView);
    let err = env.release_primitive_array_critical(&longs, &critical, ReleaseMode::Commit).unwrap_err();
    assert_eq!(err.to_text(), "Error in JVM: message \"Invalid array/slice combo: long array, int slice\", code -1");
    let rel = env.release_primitive_array_critical(&ints, &critical, ReleaseMode::Commit).unwrap();
    assert_eq!((rel.array, rel.elems, rel.mode), (0x10, 0x40, 1));
    let again = env.get_primitive_array_critical(&ints, 0x40, 4).unwrap();
    let rel = env.release_primitive_array_critical(&ints, &again, ReleaseMode::Abort).unwrap();
    assert_eq!(rel.mode, 2);
}

#[test]
fn region_writes() {
    let env = env();
    let ints = env.new_native_array(0x10, JNativeType::Int).unwrap();
    let chars = env.new_native_array(0x20, JNativeType::Char).unwrap();
    let write = env.set_native_array_region(&ints, 1, 2, &JNativeVec::Int(vec![5, 6, 7])).unwrap();
    assert_eq!(write.function, ArrayFunction::SetIntArrayRegion);
    assert_eq!((write.array, write.start, write.len), (0x10, 1, 2));
    assert!(write.units.is_none());
    let write = env.set_native_array_region(&chars, 0, 2, &JNativeVec::Char(vec!['o', 'k'])).unwrap();
    assert_eq!(write.function, ArrayFunction::SetCharArrayRegion);
    assert_eq!(write.units, Some(vec![111, 107]));

    let err = env.set_native_array_region(&ints, 0, 1, &JNativeVec::Long(vec![1])).unwrap_err();
    assert_eq!(err.to_text(), "Error in JVM: message \"Invalid array/vec combo: int array, long vec\", code -1");
    let bytes = env.new_native_array(0x30, JNativeType::Byte).unwrap();
    let err = env.set_native_array_region(&bytes, 0, 1, &JNativeVec::Int(vec![1])).unwrap_err();
    assert_eq!(err.to_text(), "Error in JVM: message \"Invalid array/vec combo: byte array, int vec\", code -1");
    let err = env.set_native_array_region(&ints, 0, 4, &JNativeVec::Int(vec![1])).unwrap_err();
    assert_eq!(err.to_text(), "Error in JVM: message \"Size out of range\", code -6");
    let err = env.set_native_array_region(&ints, 0x8000_0000, 1, &JNativeVec::Int(vec![1])).unwrap_err();
    assert_eq!(err.to_text(), "Error in JVM: message \"Size out of range\", code -6");

    let out = env.get_native_array_region(ffi::JBuffer::Char(vec![111, 107])).unwrap();
    match out {
        JNativeVec::Char(v) => assert_eq!(v, vec!['o', 'k']),
        _ => panic!("expected chars"),
    }
    assert!(env.get_native_array_region_request(&ints, 0, 0x8000_0000).is_err());
}

#[test]
fn direct_buffers() {
    let env = env();
    assert_eq!(env.get_direct_buffer_slice(0x1000, 3).unwrap(), (0x1000, 3));
    let err = env.get_direct_buffer_slice(0, 3).unwrap_err();
    assert_eq!(err.to_text(), "Error in JVM: message \"Couldn't get buffer from object\", code -1");
    assert!(env.get_direct_buffer_slice(0x1000, -1).is_err());
}

#[test]
fn test() {
    let env = env();

    assert_eq!(env.find_class_request("java.lang.Class").unwrap(), b"Ljava/lang/Class;".to_vec());
    let cls = env.find_class("java.lang.Class", 0x100).unwrap();
    let lookup = env
        .get_static_method_id_request("getPrimitiveClass", "(java.lang.String) -> java.lang.Class")
        .unwrap();
    assert_eq!(lookup.signature, b"(Ljava/lang/String;)Ljava/lang/Class;".to_vec());
    let method_id = env.get_static_method_id("getPrimitiveClass", &lookup, 0x200).unwrap();
    assert_eq!(method_id.ret_ty(), JType::Object);
    assert_eq!(method_id.num_args(), 1);

    assert_eq!(cstr_from_str("void").unwrap(), b"void".to_vec());
    let str = env.new_string_utf(0x300).unwrap();
    let args = vec![str.downcast().into()];
    let call = env.call_static_method_request(&cls, &method_id, &args).unwrap();
    assert_eq!(call.function, MethodFunction::CallStaticObjectMethodA);
    assert_eq!(call.args, vec![ffi::JValue::L(0x300)]);
    env.call_static_method(Some(ffi::JValue::L(0x400)), false).unwrap().unwrap();

    let cls = env.find_class("java.lang.String", 0x500).unwrap();
    let global: JObject<'static> = env.new_global_ref(cls.borrow_ptr()).unwrap();
    let lookup = env.get_method_id_request("length", "() -> int").unwrap();
    let _id = env.get_method_id("length", &lookup, 0x600).unwrap();
    assert_eq!(global.borrow_ptr(), 0x500);

    let obj_buff;
    {
        let mut buff = [0x1, 0x2, 0x3];
        obj_buff = env.new_direct_byte_buffer(0x700).unwrap();
        let (pos, len) = env.get_direct_buffer_slice(buff.as_mut_ptr() as usize, buff.len() as i64).unwrap();
        assert_eq!(len, 3);
        assert_ne!(pos, 0);
    }
    assert_eq!(obj_buff.borrow_ptr(), 0x700);
}
