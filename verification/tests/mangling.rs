use rust_jni::mangling::{mangle_class, parse_signature, TypeSignature};
use rust_jni::types::JType;

#[test]
fn test_mangle() {
    assert_eq!(mangle_class("int").mangled(), "I");
    assert_eq!(mangle_class("int[]").mangled(), "[I");
    assert_eq!(mangle_class("java.lang.Object").mangled(), "Ljava/lang/Object;");
    assert_eq!(mangle_class("java.lang.String[]").mangled(), "[Ljava/lang/String;");
    assert_eq!(mangle_class("(java.lang.Object, int) -> java.lang.String").mangled(), "(Ljava/lang/Object;I)Ljava/lang/String;");
    assert_eq!(mangle_class("(int, long[], java.lang.ArrayList) -> void").mangled(), "(I[JLjava/lang/ArrayList;)V");
    assert_eq!(mangle_class("() -> int").mangled(), "()I");
}

#[test]
fn parse_array_of_class() {
    match mangle_class("java.lang.String[]") {
        TypeSignature::Array(inner) => match *inner {
            TypeSignature::Class(name) => assert_eq!(name, "java.lang.String"),
            _ => panic!("expected a class"),
        },
        _ => panic!("expected an array"),
    }
}

#[test]
fn parse_rejects_method_without_arrow() {
    let err = parse_signature("(int, int)").unwrap_err();
    assert_eq!(err.to_text(), "Error in JVM: message \"Invalid class to mangle\", code -1");
    assert!(parse_signature("(int -> void").is_err());
}

#[test]
fn java_type_of_signatures() {
    assert_eq!(mangle_class("int").java_type(), JType::Int);
    assert_eq!(mangle_class(" void ").java_type(), JType::Void);
    assert_eq!(mangle_class("int[]").java_type(), JType::Object);
    assert_eq!(mangle_class("java.lang.String").java_type(), JType::Object);
    assert_eq!(mangle_class("() -> int").value_type(), None);
}

#[test]
fn pretty_round_trip() {
    assert_eq!(mangle_class("( int,long[] ,java.lang.ArrayList )->void").pretty(), "(int, long[], java.lang.ArrayList) -> void");
    assert_eq!(mangle_class("() -> int").pretty(), "() -> int");
}

#[test]
fn primitives_round_trip() {
    let table = [
        ("boolean", "Z"), ("byte", "B"), ("char", "C"), ("short", "S"), ("int", "I"),
        ("long", "J"), ("float", "F"), ("double", "D"), ("void", "V"),
    ];
    for (name, code) in table {
        assert_eq!(mangle_class(name).mangled(), code);
        assert_eq!(mangle_class(&format!("{}[]", name)).mangled(), format!("[{}", code));
        assert!(matches!(mangle_class(name), TypeSignature::Primitive(n) if n == name));
        assert_eq!(rust_jni::mangling::primitive_letter(name), code);
        assert!(rust_jni::mangling::is_primitive_name(name));
    }
    assert_eq!(rust_jni::mangling::primitive_letter("Int"), "");
    assert!(!rust_jni::mangling::is_primitive_name("integer"));
}

#[test]
fn method_of_two_round_trip() {
    let parts = ["int", "java.util.List", "long[][]", " a.b ", "", "x-y", "q>"];
    for a in parts {
        for b in parts {
            for c in parts {
                let text = format!("({}, {}) -> {}", a, b, c);
                let expected = format!(
                    "({}{}){}",
                    mangle_class(a).mangled(),
                    mangle_class(b).mangled(),
                    mangle_class(c).mangled()
                );
                assert_eq!(mangle_class(&text).mangled(), expected);
            }
        }
    }
    assert_eq!(mangle_class("(int, long) -> a->b").mangled(), "(IJ)La->b;");
}

#[test]
fn grammar_edge_cases() {
    assert_eq!(mangle_class("").mangled(), "L;");
    assert_eq!(mangle_class("  int\t\n").mangled(), "I");
    assert_eq!(mangle_class("\u{2003}int\u{3000}").mangled(), "I");
    assert_eq!(mangle_class("[]").mangled(), "[L;");
    assert_eq!(mangle_class("int [] ").mangled(), "[I");
    assert_eq!(mangle_class("()->void").mangled(), "()V");
    assert_eq!(mangle_class("(int,) -> void").mangled(), "(IL;)V");
    assert_eq!(mangle_class("(,) -> void").mangled(), "(L;L;)V");
    assert_eq!(mangle_class("( ) -> void").mangled(), "(L;)V");
    assert_eq!(mangle_class("() -> () -> int").mangled(), "()()I");
    assert_eq!(mangle_class("(a.b.C[][]) -> d.E[]").mangled(), "([[La/b/C;)[Ld/E;");
    assert_eq!(mangle_class("int\u{200B}").mangled(), "Lint\u{200B};");
    assert!(parse_signature("(").is_err());
    assert!(parse_signature("(int) int").is_err());
    assert!(parse_signature("(int ->").is_err());
    assert!(parse_signature("( -> int").is_err());
    assert!(parse_signature("(int, (long) -> void").is_err());
    assert!(parse_signature("((int) -> int").is_err());
    assert!(parse_signature("(x)[]").is_err());
    assert!(parse_signature("é(").is_ok());
    match parse_signature("(int, long[]) -> void").unwrap() {
        TypeSignature::Method(params, ret) => {
            assert_eq!(params.len(), 2);
            assert!(matches!(&params[0], TypeSignature::Primitive(n) if n == "int"));
            assert!(matches!(&params[1], TypeSignature::Array(_)));
            assert!(matches!(*ret, TypeSignature::Primitive(n) if n == "void"));
        },
        _ => panic!("expected a method"),
    }
}

#[test]
fn white_space_is_the_unicode_property() {
    for code in 0u32..0x3100 {
        if let Some(c) = char::from_u32(code) {
            assert_eq!(rust_jni::mangling::is_space_char(c), c.is_whitespace());
        }
    }
    assert!(!rust_jni::mangling::is_space_char('\u{FEFF}'));
    assert!(!rust_jni::mangling::is_space_char('\u{10FFFF}'));
}

#[test]
fn pretty_of_hand_made_signatures() {
    let sig = TypeSignature::Method(
        vec![TypeSignature::Class(String::from("a.B")), TypeSignature::Primitive(String::from("int")), TypeSignature::Array(Box::new(TypeSignature::Primitive(String::from("byte"))))],
        Box::new(TypeSignature::Class(String::from("c.D"))),
    );
    assert_eq!(sig.pretty(), "(a.B, int, byte[]) -> c.D");
    assert_eq!(sig.mangled(), "(La/B;I[B)Lc/D;");
    assert_eq!(sig.value_type(), None);
    assert_eq!(TypeSignature::Primitive(String::from("foo")).mangled(), "");
    assert_eq!(TypeSignature::Primitive(String::from("foo")).value_type(), None);
    assert_eq!(TypeSignature::Method(vec![], Box::new(TypeSignature::Primitive(String::from("void")))).pretty(), "() -> void");
}
