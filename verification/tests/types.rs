use rust_jni::error::Error;
use rust_jni::ffi;
use rust_jni::ffi::constants::{JNI_COMMIT, JNI_ABORT, JNI_VERSION_10, JNI_VERSION_1_1, JNI_VERSION_1_2, JNI_VERSION_1_4, JNI_VERSION_1_6, JNI_VERSION_1_8, JNI_VERSION_9};
use rust_jni::ffi::{ArrayFunction, ArrayOperation, CallFamily, FieldAccess, FieldFunction, JObjectRefType, JavaVMAttachArgs, MethodFunction};
use rust_jni::text::{decimal_size_text, decimal_text, same_text};
use rust_jni::JavaVM;
use rust_jni::types::native_method::JNINativeMethod;
use rust_jni::types::value::{char_to_unit, unit_to_char};
use rust_jni::types::{
    JArray, JBooleanArray, JByteArray, JCharArray, JClass, JDoubleArray, JFieldID, JFloatArray,
    JIntArray, JLongArray, JMethodID, JNIVersion, JNativeArray, JNativeSlice, JNativeType,
    JNativeVec, JNonVoidType, JObject, JObjectArray, JRefType, JShortArray, JString, JThrowable,
    JType, JValue, JWeak, JavaDownCast, JavaUpCast, ReleaseMode, ViewState,
};

#[test]
fn error_texts() {
    assert_eq!(Error::new("boom", -3).to_text(), "Error in JVM: message \"boom\", code -3");
    assert_eq!(Error::new("", 0).to_text(), "Error in JVM: message \"\", code 0");
    assert_eq!(Error::new("x", i32::MIN).to_text(), "Error in JVM: message \"x\", code -2147483648");
    assert_eq!(Error::new("x", i32::MAX).to_text(), "Error in JVM: message \"x\", code 2147483647");
    assert_eq!(Error::new_null("JObject Constructor").to_text(), "Error in JNI: Pointer was null in JObject Constructor");
    assert_eq!(Error::from("disk full").to_text(), "Error occurred in JNI, source: disk full");
    assert_eq!(Error::new("x", 12).code(), Some(12));
    assert_eq!(Error::new_null("x").code(), None);
    assert_eq!(Error::from("x").code(), None);
    assert!(matches!(Error::new("m", 4), Error::General(m, 4) if m == "m"));
    assert!(matches!(Error::new_null("c"), Error::NullPointer(c) if c == "c"));
    assert!(matches!(Error::from("s"), Error::Induced(s) if s == "s"));
}

#[test]
fn decimal_notation() {
    assert_eq!(decimal_text(0), "0");
    assert_eq!(decimal_text(7), "7");
    assert_eq!(decimal_text(10), "10");
    assert_eq!(decimal_text(-1), "-1");
    assert_eq!(decimal_text(1234567890), "1234567890");
    assert_eq!(decimal_text(-908), "-908");
    assert_eq!(decimal_size_text(0), "0");
    assert_eq!(decimal_size_text(4294967295), "4294967295");
    assert!(same_text("abc", "abc"));
    assert!(!same_text("abc", "abd"));
    assert!(!same_text("abc", "ab"));
    assert!(same_text("", ""));
}

#[test]
fn jtype_from_name() {
    assert_eq!(JType::from_name("void"), JType::Void);
    assert_eq!(JType::from_name("boolean"), JType::Boolean);
    assert_eq!(JType::from_name("byte"), JType::Byte);
    assert_eq!(JType::from_name("char"), JType::Char);
    assert_eq!(JType::from_name("short"), JType::Short);
    assert_eq!(JType::from_name("int"), JType::Int);
    assert_eq!(JType::from_name("long"), JType::Long);
    assert_eq!(JType::from_name("float"), JType::Float);
    assert_eq!(JType::from_name("double"), JType::Double);
    assert_eq!(JType::from_name("java.lang.String"), JType::Object);
    assert_eq!(JType::from_name("Int"), JType::Object);
    assert_eq!(JType::from_name(""), JType::Object);
}

#[test]
fn jtype_narrowing() {
    assert_eq!(JType::Object.as_nonvoid(), Some(JNonVoidType::Object));
    assert_eq!(JType::Boolean.as_nonvoid(), Some(JNonVoidType::Boolean));
    assert_eq!(JType::Byte.as_nonvoid(), Some(JNonVoidType::Byte));
    assert_eq!(JType::Char.as_nonvoid(), Some(JNonVoidType::Char));
    assert_eq!(JType::Short.as_nonvoid(), Some(JNonVoidType::Short));
    assert_eq!(JType::Int.as_nonvoid(), Some(JNonVoidType::Int));
    assert_eq!(JType::Long.as_nonvoid(), Some(JNonVoidType::Long));
    assert_eq!(JType::Float.as_nonvoid(), Some(JNonVoidType::Float));
    assert_eq!(JType::Double.as_nonvoid(), Some(JNonVoidType::Double));
    assert_eq!(JType::Void.as_nonvoid(), None);
    assert_eq!(JType::Object.as_native(), None);
    assert_eq!(JType::Boolean.as_native(), Some(JNativeType::Boolean));
    assert_eq!(JType::Byte.as_native(), Some(JNativeType::Byte));
    assert_eq!(JType::Char.as_native(), Some(JNativeType::Char));
    assert_eq!(JType::Short.as_native(), Some(JNativeType::Short));
    assert_eq!(JType::Int.as_native(), Some(JNativeType::Int));
    assert_eq!(JType::Long.as_native(), Some(JNativeType::Long));
    assert_eq!(JType::Float.as_native(), Some(JNativeType::Float));
    assert_eq!(JType::Double.as_native(), Some(JNativeType::Double));
    assert_eq!(JType::Void.as_native(), None);
}

#[test]
fn ref_types() {
    assert_eq!(JRefType::Invalid.as_ffi(), JObjectRefType::JNIInvalidRefType);
    assert_eq!(JRefType::Local.as_ffi(), JObjectRefType::JNILocalRefType);
    assert_eq!(JRefType::Global.as_ffi(), JObjectRefType::JNIGlobalRefType);
    assert_eq!(JRefType::WeakGlobal.as_ffi(), JObjectRefType::JNIWeakGlobalRefType);
    assert_eq!(JRefType::from(JObjectRefType::JNIInvalidRefType), JRefType::Invalid);
    assert_eq!(JRefType::from(JObjectRefType::JNILocalRefType), JRefType::Local);
    assert_eq!(JRefType::from(JObjectRefType::JNIGlobalRefType), JRefType::Global);
    assert_eq!(JRefType::from(JObjectRefType::JNIWeakGlobalRefType), JRefType::WeakGlobal);
}

#[test]
fn versions() {
    let all = [
        (JNIVersion::Ver11, JNI_VERSION_1_1, 0x00010001),
        (JNIVersion::Ver12, JNI_VERSION_1_2, 0x00010002),
        (JNIVersion::Ver14, JNI_VERSION_1_4, 0x00010004),
        (JNIVersion::Ver16, JNI_VERSION_1_6, 0x00010006),
        (JNIVersion::Ver18, JNI_VERSION_1_8, 0x00010008),
        (JNIVersion::Ver9, JNI_VERSION_9, 0x00090000),
        (JNIVersion::Ver10, JNI_VERSION_10, 0x000a0000),
    ];
    for (version, constant, number) in all {
        assert_eq!(constant, number);
        assert_eq!(JNIVersion::from(number), version);
        assert_eq!(JNIVersion::checked_from(number), Some(version));
        assert_eq!(version.into_raw(), number);
        assert_eq!(i32::from(version), number);
    }
    assert_eq!(JNIVersion::checked_from(0), None);
    assert_eq!(JNIVersion::checked_from(0x00010003), None);
    assert_eq!(JavaVMAttachArgs::new(0x00010008), JavaVMAttachArgs { version: 0x00010008, name: 0, group: 0 });
}

#[test]
fn ids() {
    let id = JMethodID::new(0x10, JType::Long, 3).unwrap();
    assert_eq!(id.ret_ty(), JType::Long);
    assert_eq!(id.num_args(), 3);
    assert_eq!(id.borrow_ptr(), 0x10);
    assert_eq!(JMethodID::new(0, JType::Long, 3).unwrap_err().to_text(), "Error in JNI: Pointer was null in JMethodID Constructor");
    assert_ne!(id, JMethodID::new(0x10, JType::Long, 2).unwrap());
    let field = JFieldID::new(0x20, JNonVoidType::Char).unwrap();
    assert_eq!(field.ty(), JNonVoidType::Char);
    assert_eq!(field.borrow_ptr(), 0x20);
    assert_eq!(JFieldID::new(0, JNonVoidType::Char).unwrap_err().to_text(), "Error in JNI: Pointer was null in JFieldID Constructor");
}

#[test]
fn handles_refuse_null() {
    assert_eq!(JObject::new(0).unwrap_err().to_text(), "Error in JNI: Pointer was null in JObject Constructor");
    assert_eq!(JThrowable::new(0).unwrap_err().to_text(), "Error in JNI: Pointer was null in JThrowable Constructor");
    assert_eq!(JClass::new(0).unwrap_err().to_text(), "Error in JNI: Pointer was null in JClass Constructor");
    assert_eq!(JString::new(0).unwrap_err().to_text(), "Error in JNI: Pointer was null in JString Constructor");
    assert_eq!(JWeak::new(0).unwrap_err().to_text(), "Error in JNI: Pointer was null in JWeak Constructor");
    assert_eq!(JArray::new(0).unwrap_err().to_text(), "Error in JNI: Pointer was null in JArray Constructor");
    assert_eq!(JObjectArray::new(0).unwrap_err().to_text(), "Error in JNI: Pointer was null in JObjectArray Constructor");
    assert_eq!(JBooleanArray::new(0).unwrap_err().to_text(), "Error in JNI: Pointer was null in JBooleanArray Constructor");
    assert_eq!(JByteArray::new(0).unwrap_err().to_text(), "Error in JNI: Pointer was null in JByteArray Constructor");
    assert_eq!(JCharArray::new(0).unwrap_err().to_text(), "Error in JNI: Pointer was null in JCharArray Constructor");
    assert_eq!(JShortArray::new(0).unwrap_err().to_text(), "Error in JNI: Pointer was null in JShortArray Constructor");
    assert_eq!(JIntArray::new(0).unwrap_err().to_text(), "Error in JNI: Pointer was null in JIntArray Constructor");
    assert_eq!(JLongArray::new(0).unwrap_err().to_text(), "Error in JNI: Pointer was null in JLongArray Constructor");
    assert_eq!(JFloatArray::new(0).unwrap_err().to_text(), "Error in JNI: Pointer was null in JFloatArray Constructor");
    assert_eq!(JDoubleArray::new(0).unwrap_err().to_text(), "Error in JNI: Pointer was null in JDoubleArray Constructor");
    assert_eq!(JObject::new(1).unwrap().borrow_ptr(), 1);
    assert_eq!(JDoubleArray::new(usize::MAX).unwrap().borrow_ptr(), usize::MAX);
}

#[test]
fn java_names() {
    assert_eq!(JObject::get_java_name(), "[Ljava/lang/Object;");
    assert_eq!(JThrowable::get_java_name(), "[Ljava/lang/Throwable;");
    assert_eq!(JClass::get_java_name(), "[Ljava/lang/Class;");
    assert_eq!(JString::get_java_name(), "[Ljava/lang/String;");
    assert_eq!(JWeak::get_java_name(), "[Ljava/lang/ref/WeakReference;");
    assert_eq!(JArray::get_java_name(), "");
    assert_eq!(JObjectArray::get_java_name(), "[Ljava/lang/Object;");
    assert_eq!(JBooleanArray::get_java_name(), "[Z");
    assert_eq!(JByteArray::get_java_name(), "[B");
    assert_eq!(JCharArray::get_java_name(), "[C");
    assert_eq!(JShortArray::get_java_name(), "[S");
    assert_eq!(JIntArray::get_java_name(), "[I");
    assert_eq!(JLongArray::get_java_name(), "[J");
    assert_eq!(JFloatArray::get_java_name(), "[F");
    assert_eq!(JDoubleArray::get_java_name(), "[D");
}

#[test]
fn downcast_keeps_the_pointer() {
    let ints = JIntArray::new(0x1234).unwrap();
    let direct: JObject = (&ints).downcast();
    let array: JArray = (&ints).downcast();
    let by_way: JObject = array.downcast();
    assert_eq!(direct.borrow_ptr(), 0x1234);
    assert_eq!(by_way.borrow_ptr(), direct.borrow_ptr());
    let owned: JObject = JString::new(0x88).unwrap().downcast();
    assert_eq!(owned.borrow_ptr(), 0x88);
    let cls: JObject = JClass::new(0x89).unwrap().downcast();
    assert_eq!(cls.borrow_ptr(), 0x89);
    let thrown: JObject = JThrowable::new(0x8a).unwrap().downcast();
    assert_eq!(thrown.borrow_ptr(), 0x8a);
    let objects: JArray = JObjectArray::new(0x8b).unwrap().downcast();
    assert_eq!(objects.borrow_ptr(), 0x8b);
}

#[test]
fn upcast_goes_by_the_runtimes_answer() {
    let obj = JObject::new(0x50).unwrap();
    let string: JString = obj.upcast(true).unwrap();
    assert_eq!(string.borrow_ptr(), 0x50);

    let obj = JObject::new(0x51).unwrap();
    let refused: Result<JString, Error> = obj.upcast(false);
    assert_eq!(refused.unwrap_err().to_text(), "Error in JVM: message \"Can't assign to type [Ljava/lang/String;\", code -1");

    let obj = JObject::new(0x52).unwrap();
    let refused: Result<JThrowable, Error> = (&obj).upcast(false);
    assert_eq!(refused.unwrap_err().to_text(), "Error in JVM: message \"Can't assign to type [Ljava/lang/Throwable;\", code -1");
    let thrown: JThrowable = (&obj).upcast(true).unwrap();
    assert_eq!(thrown.borrow_ptr(), 0x52);

    let array: Result<JArray, Error> = (&obj).upcast(true);
    assert_eq!(array.unwrap_err().to_text(), "Error in JVM: message \"Can't assign to type \", code -1");
    let array: JArray = (&obj).upcast_raw();
    assert_eq!(array.borrow_ptr(), 0x52);

    assert_eq!(<JObject as JavaUpCast<JClass>>::target_class(), Some("[Ljava/lang/Class;"));
    assert_eq!(<JObject as JavaUpCast<JWeak>>::target_class(), Some("[Ljava/lang/ref/WeakReference;"));
    assert_eq!(<JObject as JavaUpCast<JArray>>::target_class(), None);
    let cls: JClass = obj.upcast_raw();
    assert_eq!(cls.borrow_ptr(), 0x52);
}

fn arms<'a>() -> Vec<JValue<'a>> {
    vec![
        JValue::Bool(true),
        JValue::Byte(1),
        JValue::Char('c'),
        JValue::Short(2),
        JValue::Int(3),
        JValue::Long(4),
        JValue::Float(5.0f32.to_bits()),
        JValue::Double(6.0f64.to_bits()),
        JValue::Object(None),
    ]
}

#[test]
fn into_succeeds_only_on_its_own_arm() {
    let ok: Vec<Vec<bool>> = vec![
        arms().into_iter().map(|v| v.into_bool().is_ok()).collect(),
        arms().into_iter().map(|v| v.into_byte().is_ok()).collect(),
        arms().into_iter().map(|v| v.into_char().is_ok()).collect(),
        arms().into_iter().map(|v| v.into_short().is_ok()).collect(),
        arms().into_iter().map(|v| v.into_int().is_ok()).collect(),
        arms().into_iter().map(|v| v.into_long().is_ok()).collect(),
        arms().into_iter().map(|v| v.into_float().is_ok()).collect(),
        arms().into_iter().map(|v| v.into_double().is_ok()).collect(),
        arms().into_iter().map(|v| v.into_obj().is_ok()).collect(),
    ];
    for (i, row) in ok.iter().enumerate() {
        for (j, got) in row.iter().enumerate() {
            assert_eq!(*got, i == j);
        }
    }
}

#[test]
fn into_values_and_mismatches() {
    assert_eq!(JValue::Bool(true).into_bool().unwrap(), true);
    assert_eq!(JValue::Byte(-7).into_byte().unwrap(), -7);
    assert_eq!(JValue::Char('x').into_char().unwrap(), 'x');
    assert_eq!(JValue::Short(-300).into_short().unwrap(), -300);
    assert_eq!(JValue::Int(1 << 20).into_int().unwrap(), 1 << 20);
    assert_eq!(JValue::Long(1 << 40).into_long().unwrap(), 1 << 40);
    assert_eq!(f32::from_bits(JValue::Float(0.5f32.to_bits()).into_float().unwrap()), 0.5);
    assert_eq!(f64::from_bits(JValue::Double(0.25f64.to_bits()).into_double().unwrap()), 0.25);
    assert!(JValue::Object(None).into_obj().unwrap().is_none());
    assert_eq!(JValue::Object(Some(JObject::new(9).unwrap())).into_obj().unwrap().unwrap().borrow_ptr(), 9);

    assert_eq!(JValue::Bool(true).into_int().unwrap_err().to_text(), "Error in JVM: message \"JValue isn't an integer, but a boolean\", code -1");
    assert_eq!(JValue::Int(1).into_bool().unwrap_err().to_text(), "Error in JVM: message \"JValue isn't a boolean, but an integer\", code -1");
    assert_eq!(JValue::Int(1).into_byte().unwrap_err().to_text(), "Error in JVM: message \"JValue isn't a byte, but an integer\", code -1");
    assert_eq!(JValue::Int(1).into_char().unwrap_err().to_text(), "Error in JVM: message \"JValue isn't a char, but an integer\", code -1");
    assert_eq!(JValue::Int(1).into_short().unwrap_err().to_text(), "Error in JVM: message \"JValue isn't a short, but an integer\", code -1");
    assert_eq!(JValue::Int(1).into_long().unwrap_err().to_text(), "Error in JVM: message \"JValue isn't a long, but an integer\", code -1");
    assert_eq!(JValue::Int(1).into_float().unwrap_err().to_text(), "Error in JVM: message \"JValue isn't a float, but an integer\", code -1");
    assert_eq!(JValue::Int(1).into_double().unwrap_err().to_text(), "Error in JVM: message \"JValue isn't a double, but an integer\", code -1");
    assert_eq!(JValue::Int(1).into_obj().unwrap_err().to_text(), "Error in JVM: message \"JValue isn't an object, but an integer\", code -1");
}

#[test]
fn mismatches_name_both_types() {
    let described = [
        "a boolean", "a byte", "a char", "a short", "an integer", "a long", "a float", "a double",
        "an object",
    ];
    for (i, value) in arms().into_iter().enumerate() {
        if i != 4 {
            let text = format!("Error in JVM: message \"JValue isn't an integer, but {}\", code -1", described[i]);
            assert_eq!(value.into_int().unwrap_err().to_text(), text);
        }
    }
    for (i, value) in arms().into_iter().enumerate() {
        if i != 8 {
            let text = format!("Error in JVM: message \"JValue isn't an object, but {}\", code -1", described[i]);
            assert_eq!(value.into_obj().unwrap_err().to_text(), text);
        }
    }
    assert_eq!(JNonVoidType::Int.described(), "an integer");
    assert_eq!(JNativeType::Boolean.name(), "boolean");
    assert_eq!(JNativeType::Double.name(), "double");
}

#[test]
fn values_as_the_runtime_takes_them() {
    assert_eq!(JValue::Bool(false).as_ffi(), ffi::JValue::Z(false));
    assert_eq!(JValue::Byte(-1).as_ffi(), ffi::JValue::B(-1));
    assert_eq!(JValue::Char('A').as_ffi(), ffi::JValue::C(65));
    assert_eq!(JValue::Char('\u{1F600}').as_ffi(), ffi::JValue::C(0xF600));
    assert_eq!(JValue::Short(5).as_ffi(), ffi::JValue::S(5));
    assert_eq!(JValue::Int(6).as_ffi(), ffi::JValue::I(6));
    assert_eq!(JValue::Long(7).as_ffi(), ffi::JValue::J(7));
    assert_eq!(JValue::Float(8).as_ffi(), ffi::JValue::F(8));
    assert_eq!(JValue::Double(9).as_ffi(), ffi::JValue::D(9));
    assert_eq!(JValue::Object(None).as_ffi(), ffi::JValue::L(0));
    assert_eq!(JValue::Object(Some(JObject::new(0x33).unwrap())).as_ffi(), ffi::JValue::L(0x33));
    assert_eq!(JValue::make_ffi_vec(&[JValue::Int(1), JValue::Bool(true)]), vec![ffi::JValue::I(1), ffi::JValue::Z(true)]);
    assert!(JValue::make_ffi_vec(&[]).is_empty());
    assert_eq!(JValue::Int(1).jtype(), JNonVoidType::Int);
    assert_eq!(JValue::Object(None).jtype(), JNonVoidType::Object);

    assert!(matches!(JValue::from_ffi(ffi::JValue::C(0x41)), JValue::Char('A')));
    assert!(matches!(JValue::from_ffi(ffi::JValue::C(0xFFFF)), JValue::Char('\u{FFFF}')));
    assert!(matches!(JValue::from_ffi(ffi::JValue::L(0)), JValue::Object(None)));
    assert_eq!(char_to_unit('\u{10000}'), 0);
    assert_eq!(unit_to_char(0xD7FF), Some('\u{D7FF}'));
    assert_eq!(unit_to_char(0xD800), None);
    assert_eq!(unit_to_char(0xDFFF), None);
    assert_eq!(unit_to_char(0xE000), Some('\u{E000}'));
}

#[test]
fn values_from_plain_values() {
    assert!(matches!(JValue::from(true), JValue::Bool(true)));
    assert!(matches!(JValue::from(3i8), JValue::Byte(3)));
    assert!(matches!(JValue::from('q'), JValue::Char('q')));
    assert!(matches!(JValue::from(3i16), JValue::Short(3)));
    assert!(matches!(JValue::from(3i32), JValue::Int(3)));
    assert!(matches!(JValue::from(3i64), JValue::Long(3)));
    assert!(matches!(JValue::from(None), JValue::Object(None)));
    match JValue::from(JObject::new(4).unwrap()) {
        JValue::Object(Some(obj)) => assert_eq!(obj.borrow_ptr(), 4),
        _ => panic!("expected an object"),
    }
    let value: JValue = JString::new(5).unwrap().downcast().into();
    assert_eq!(value.as_ffi(), ffi::JValue::L(5));
}

#[test]
fn native_arrays() {
    let kinds = [
        JNativeType::Boolean, JNativeType::Byte, JNativeType::Char, JNativeType::Short,
        JNativeType::Int, JNativeType::Long, JNativeType::Float, JNativeType::Double,
    ];
    let names = ["Boolean", "Byte", "Char", "Short", "Int", "Long", "Float", "Double"];
    for (kind, name) in kinds.iter().zip(names) {
        let arr = JNativeArray::new_raw(0x600, *kind).unwrap();
        assert_eq!(arr.jtype(), *kind);
        assert_eq!(arr.borrow_ptr(), 0x600);
        assert_eq!(arr.as_jarray().borrow_ptr(), 0x600);
        let err = JNativeArray::new_raw(0, *kind).unwrap_err();
        assert_eq!(err.to_text(), format!("Error in JNI: Pointer was null in J{}Array Constructor", name));
    }
    assert!(matches!(JNativeArray::new_raw(1, JNativeType::Short), Ok(JNativeArray::Short(_))));
    assert_eq!(JNativeVec::Boolean(vec![true]).jtype(), JNativeType::Boolean);
    assert_eq!(JNativeVec::Byte(vec![]).jtype(), JNativeType::Byte);
    assert_eq!(JNativeVec::Char(vec!['a', 'b']).len(), 2);
    assert_eq!(JNativeVec::Char(vec![]).jtype(), JNativeType::Char);
    assert_eq!(JNativeVec::Short(vec![]).jtype(), JNativeType::Short);
    assert_eq!(JNativeVec::Int(vec![]).jtype(), JNativeType::Int);
    assert_eq!(JNativeVec::Long(vec![]).jtype(), JNativeType::Long);
    assert_eq!(JNativeVec::Float(vec![]).jtype(), JNativeType::Float);
    assert_eq!(JNativeVec::Double(vec![1, 2, 3]).jtype(), JNativeType::Double);
    assert_eq!(JNativeVec::Double(vec![1, 2, 3]).len(), 3);
}

#[test]
fn release_modes() {
    assert_eq!(i32::from(ReleaseMode::CopyFree), 0);
    assert_eq!(i32::from(ReleaseMode::Commit), JNI_COMMIT);
    assert_eq!(i32::from(ReleaseMode::Abort), JNI_ABORT);
    assert_eq!(ReleaseMode::Commit.into_raw(), 1);
    assert_eq!(ReleaseMode::Abort.into_raw(), 2);
    let code: i32 = ReleaseMode::Abort.into();
    assert_eq!(code, 2);
}

#[test]
fn view_slices() {
    let slice = JNativeSlice::new(JNativeType::Long, 0x70, 5, ViewState::CriticalView).unwrap();
    assert_eq!(slice.jtype(), JNativeType::Long);
    assert_eq!(slice.borrow_ptr(), 0x70);
    assert_eq!(slice.len(), 5);
    assert_eq!(slice.state(), ViewState::CriticalView);
    assert!(JNativeSlice::new(JNativeType::Long, 0, 5, ViewState::CriticalView).is_none());
    assert!(JNativeSlice::new(JNativeType::Long, 0x70, 5, ViewState::NoView).is_none());
}

#[test]
fn one_view_at_a_time() {
    let modes = [ReleaseMode::CopyFree, ReleaseMode::Commit, ReleaseMode::Abort];
    for mode in modes {
        for copy in [false, true] {
            let held = ViewState::NoView.request_held(copy).unwrap();
            assert_eq!(held, ViewState::HeldView(copy));
            assert_eq!(held.request_held(copy).unwrap_err().to_text(), "Error in JVM: message \"An array view is already open\", code -1");
            assert_eq!(held.request_critical().unwrap_err().to_text(), "Error in JVM: message \"An array view is already open\", code -1");
            let closed = held.release(mode).unwrap();
            assert_eq!(closed, ViewState::NoView);
            assert_eq!(closed.request_held(!copy).unwrap(), ViewState::HeldView(!copy));
            assert_eq!(closed.request_critical().unwrap(), ViewState::CriticalView);
        }
        let critical = ViewState::NoView.request_critical().unwrap();
        assert!(critical.request_held(false).is_err());
        assert!(critical.request_critical().is_err());
        assert_eq!(critical.release(mode).unwrap(), ViewState::NoView);
        assert_eq!(ViewState::NoView.release(mode).unwrap_err().to_text(), "Error in JVM: message \"No array view is open\", code -1");
    }
}

#[test]
fn entries_by_type() {
    assert_eq!(MethodFunction::select(CallFamily::Virtual, JType::Object), MethodFunction::CallObjectMethodA);
    assert_eq!(MethodFunction::select(CallFamily::Virtual, JType::Void), MethodFunction::CallVoidMethodA);
    assert_eq!(MethodFunction::select(CallFamily::Nonvirtual, JType::Double), MethodFunction::CallNonvirtualDoubleMethodA);
    assert_eq!(MethodFunction::select(CallFamily::Static, JType::Char), MethodFunction::CallStaticCharMethodA);
    assert_eq!(FieldFunction::select(FieldAccess::Read, JNonVoidType::Float), FieldFunction::GetFloatField);
    assert_eq!(FieldFunction::select(FieldAccess::ReadStatic, JNonVoidType::Object), FieldFunction::GetStaticObjectField);
    assert_eq!(FieldFunction::select(FieldAccess::Write, JNonVoidType::Short), FieldFunction::SetShortField);
    assert_eq!(FieldFunction::select(FieldAccess::WriteStatic, JNonVoidType::Boolean), FieldFunction::SetStaticBooleanField);
    assert_eq!(ArrayFunction::select(ArrayOperation::New, JNativeType::Long), ArrayFunction::NewLongArray);
    assert_eq!(ArrayFunction::select(ArrayOperation::GetElements, JNativeType::Char), ArrayFunction::GetCharArrayElements);
    assert_eq!(ArrayFunction::select(ArrayOperation::ReleaseElements, JNativeType::Int), ArrayFunction::ReleaseIntArrayElements);
    assert_eq!(ArrayFunction::select(ArrayOperation::GetRegion, JNativeType::Double), ArrayFunction::GetDoubleArrayRegion);
    assert_eq!(ArrayFunction::select(ArrayOperation::SetRegion, JNativeType::Boolean), ArrayFunction::SetBooleanArrayRegion);
}

#[test]
fn native_methods() {
    let method = JNINativeMethod::new::<i32>("length", "()I", 0xabc).unwrap();
    assert_eq!(method.name(), &b"length".to_vec());
    assert_eq!(method.signature(), &b"()I".to_vec());
    assert_eq!(method.borrow_ptr(), 0xabc);
    let err = JNINativeMethod::new::<bool>("le\0ngth", "()I", 0xabc).unwrap_err();
    assert_eq!(err.to_text(), "Error occurred in JNI, source: nul byte found in provided data at position: 2");
    let err = JNINativeMethod::new::<JObject>("length", "\0", 0xabc).unwrap_err();
    assert_eq!(err.to_text(), "Error occurred in JNI, source: nul byte found in provided data at position: 0");
}

#[test]
fn machines() {
    let vm = JavaVM::new(JNIVersion::Ver18, 0x900, false).unwrap();
    assert_eq!(vm.borrow_ptr(), 0x900);
    assert_eq!(vm.version(), JNIVersion::Ver18);
    assert!(!vm.owned());
    assert_eq!(vm.attach_args(), JavaVMAttachArgs { version: JNI_VERSION_1_8, name: 0, group: 0 });
    let err = JavaVM::new(JNIVersion::Ver18, 0, false).unwrap_err();
    assert_eq!(err.to_text(), "Error in JVM: message \"JavaVM must be constructed from non-null pointer\", code -1");

    assert!(JavaVM::create_args(0).is_ok());
    assert_eq!(JavaVM::create_args(-3).unwrap_err().to_text(), "Error in JVM: message \"Couldn't get default JVM args\", code -3");
    let (made, env) = JavaVM::create(JNIVersion::Ver16, 0, 0x10, 0x20, JNI_VERSION_1_6).unwrap();
    assert!(made.owned());
    assert_eq!(made.borrow_ptr(), 0x10);
    assert_eq!(env.borrow_ptr(), 0x20);
    assert_eq!(env.version(), JNIVersion::Ver16);
    assert_eq!(JavaVM::create(JNIVersion::Ver16, -5, 0, 0, 0).unwrap_err().to_text(), "Error in JVM: message \"Couldn't create JVM\", code -5");
    assert_eq!(JavaVM::create(JNIVersion::Ver16, 0, 0, 0x20, 0).unwrap_err().to_text(), "Error in JVM: message \"Main VM or Global Environment null, despite successful JVM creation\", code -1");
    assert_eq!(JavaVM::create(JNIVersion::Ver16, 0, 0x10, 0, 0).unwrap_err().to_text(), "Error in JVM: message \"Main VM or Global Environment null, despite successful JVM creation\", code -1");

    let found = JavaVM::get_existing(JNIVersion::Ver9, 0, &[0x1, 0x2]).unwrap();
    assert_eq!(found.len(), 2);
    assert_eq!(found[1].borrow_ptr(), 0x2);
    assert_eq!(found[1].version(), JNIVersion::Ver9);
    assert!(!found[0].owned());
    assert!(JavaVM::get_existing(JNIVersion::Ver9, 0, &[]).unwrap().is_empty());
    assert_eq!(JavaVM::get_existing(JNIVersion::Ver9, -1, &[0x1]).unwrap_err().to_text(), "Error in JVM: message \"Couldn't get list of existing JVM instances\", code -1");
    assert_eq!(JavaVM::get_existing(JNIVersion::Ver9, 0, &[0x1, 0]).unwrap_err().to_text(), "Error in JVM: message \"JavaVM must be constructed from non-null pointer\", code -1");

    let env = vm.get_local_env(0, 0x30, JNI_VERSION_1_8).unwrap();
    assert_eq!(env.borrow_ptr(), 0x30);
    assert_eq!(vm.get_local_env(-2, 0, 0).unwrap_err().to_text(), "Error in JVM: message \"Couldn't get local environment\", code -2");
    assert_eq!(vm.get_local_env(0, 0, 0).unwrap_err().to_text(), "Error in JNI: Pointer was null in JNIEnv Constructor");
    assert_eq!(vm.attach_current_thread(-2, 0, 0).unwrap_err().to_text(), "Error in JVM: message \"Couldn't attach current thread to the JVM\", code -2");
    assert_eq!(vm.attach_current_thread_daemon(-4, 0, 0).unwrap_err().to_text(), "Error in JVM: message \"Couldn't attach current thread as daemon to the JVM\", code -4");
    let attached = vm.attach_current_thread(0, 0x40, JNI_VERSION_10).unwrap();
    assert_eq!(attached.version(), JNIVersion::Ver10);
    assert!(vm.detach_current_thread(attached, 0).is_ok());
    let daemon = vm.attach_current_thread_daemon(0, 0x50, JNI_VERSION_1_2).unwrap();
    assert_eq!(vm.detach_current_thread(daemon, -1).unwrap_err().to_text(), "Error in JVM: message \"Couldn't detach current thread from JVM\", code -1");
}

#[test]
fn startup_option_indices() {
    assert!(rust_jni::vm::option_index(0, 1).is_ok());
    assert!(rust_jni::vm::option_index(2, 3).is_ok());
    assert_eq!(rust_jni::vm::option_index(3, 3).unwrap_err().to_text(), "Error in JVM: message \"Index 3 out of range for option removal\", code -1");
    assert_eq!(rust_jni::vm::option_index(-1, 3).unwrap_err().to_text(), "Error in JVM: message \"Index -1 out of range for option removal\", code -1");
    assert!(rust_jni::vm::option_index(0, 0).is_err());
}
