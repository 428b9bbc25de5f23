use ccgen::tok::{f32_literal, f64_literal, Token};
use ccgen::{Func, Header, HeaderGuard, Macro, Type, Variadic, CXX};

#[test]
fn typedef_formula_on_other_values() {
    let t = Type::new("handle_t", "struct handle *");
    assert_eq!(&t.token(), "typedef struct handle * handle_t;\n");
    let empty = Type::new("", "");
    assert_eq!(&empty.token(), "typedef  ;\n");
}

#[test]
fn macro_formula_on_other_values() {
    let m = Macro::new("MAX(a, b)", "((a) > (b) ? (a) : (b))");
    assert_eq!(&m.token(), "#define MAX(a, b) ((a) > (b) ? (a) : (b))\n");
    let empty = Macro::new("EMPTY", "");
    assert_eq!(&empty.token(), "#define EMPTY \n");
}

#[test]
fn func_fixed_and_variadic_with_several_params() {
    let fixed = Func::new("size_t", "strlen", &["const char*"], Variadic::Nary);
    assert_eq!(&fixed.token(), "size_t strlen(const char*);\n");
    let two = Func::new("int", "fprintf", &["FILE*", "const char*"], Variadic::Variadic);
    assert_eq!(&two.token(), "int fprintf(FILE*, const char*, ...);\n");
}

#[test]
fn empty_header_keeps_blank_lines() {
    let h = Header::new(None, "empty.h", None, &[], &[], &[], CXX::C, None, None);
    assert_eq!(
        &h.token(),
        "#ifdef __cplusplus\n#error \"This header can only be used by C\"\n#endif\n\n\n\n\n\n"
    );
}

#[test]
fn full_header_with_guard_and_extras() {
    let params = ["int"];
    let funcs = [Func::new("void", "f", &params, Variadic::Nary)];
    let macros = [Macro::new("A", "1"), Macro::new("B", "2")];
    let types = [Type::new("t1", "int"), Type::new("t2", "long")];
    let h = Header::new(
        Some("sys"),
        "x.h",
        Some(HeaderGuard::new("X_H", "")),
        &funcs,
        &macros,
        &types,
        CXX::CXXOnly,
        Some("int x;"),
        Some("/* end */"),
    );
    let expected = String::from("#ifndef X_H\n#define X_H \n\n")
        + "#ifndef __cplusplus\n#error \"This header can only be used by C++\"\n#endif\n\n"
        + "typedef int t1;\ntypedef long t2;\n\n"
        + "#define A 1\n#define B 2\n\n"
        + "void f(int);\n\n"
        + "int x;\n"
        + "\n"
        + "#endif\n\n"
        + "/* end */\n";
    assert_eq!(h.token(), expected);
}

#[test]
fn rendering_twice_is_identical() {
    let funcs = [Func::new("int", "printf", &["const char*"], Variadic::Variadic)];
    let h = Header::new(
        None,
        "test.h",
        Some(HeaderGuard::new("T", "1")),
        &funcs,
        &[],
        &[],
        CXX::CXX,
        None,
        None,
    );
    assert_eq!(h.token(), h.token());
}

#[test]
fn cxx_brackets_once_each() {
    let h = Header::new(None, "b.h", None, &[], &[], &[], CXX::CXX, None, None).token();
    assert_eq!(h.matches("extern \"C\" {").count(), 1);
    assert_eq!(h.matches("}\n#endif").count(), 1);
}

#[test]
fn integer_edges() {
    assert_eq!(&0u64.token(), "0UL");
    assert_eq!(&u64::MAX.token(), "18446744073709551615UL");
    assert_eq!(&i64::MIN.token(), "-9223372036854775808L");
    assert_eq!(&i64::MAX.token(), "9223372036854775807L");
    assert_eq!(&0i64.token(), "0L");
    assert_eq!(&u32::MAX.token(), "4294967295");
    assert_eq!(&u16::MAX.token(), "65535");
    assert_eq!(&255u8.token(), "255");
    assert_eq!(&i32::MIN.token(), "-2147483648");
    assert_eq!(&i16::MIN.token(), "-32768");
    assert_eq!(&(-128i8).token(), "-128");
    assert_eq!(&0usize.token(), "0x0UL");
    assert_eq!(&0xdeadusize.token(), "0xdeadUL");
}

#[test]
fn float_literals() {
    assert_eq!(&f32_literal("1"), "1.F");
    assert_eq!(&f32_literal("0.5"), "0.5F");
    assert_eq!(&f64_literal("2.25"), "2.25");
    assert_eq!(&f64_literal("inf"), "inf.");
    assert_eq!(&f64_literal(&format!("{}", f64::NAN)), "NaN.");
    assert_eq!(&f32_literal(&format!("{}", 100.0f32)), "100.F");
}

#[test]
fn text_passes_verbatim() {
    assert_eq!(&"a\"b".token(), "a\"b");
    assert_eq!(&String::from("x\ny").token(), "x\ny");
    assert_eq!(&'\''.token(), "'");
}

#[test]
fn accessors_return_fields() {
    let params = ["int", "char"];
    let f = Func::new("void", "g", &params, Variadic::Variadic);
    assert_eq!(f.out(), "void");
    assert_eq!(f.name(), "g");
    assert_eq!(f.params(), &["int", "char"]);
    assert_eq!(f.va(), Variadic::Variadic);
    let t = Type::new("n", "int");
    assert_eq!((t.name(), t.ty()), ("n", "int"));
    let m = Macro::new("M", "v");
    assert_eq!((m.tok(), m.val()), ("M", "v"));
    let g = HeaderGuard::new("G", "1");
    assert_eq!((g.tok(), g.val()), ("G", "1"));
    let funcs = [f];
    let macros = [m];
    let types = [t];
    let h = Header::new(Some("p"), "h.h", Some(g), &funcs, &macros, &types, CXX::C, Some("e"), None);
    assert_eq!(h.path(), Some("p"));
    assert_eq!(h.name(), "h.h");
    assert_eq!(h.guard().map(|x| x.tok()), Some("G"));
    assert_eq!(h.funcs().len(), 1);
    assert_eq!(h.macros()[0].tok(), "M");
    assert_eq!(h.types()[0].name(), "n");
    assert_eq!(h.cxx(), CXX::C);
    assert_eq!(h.extra(), Some("e"));
    assert_eq!(h.post_extra(), None);
    assert_eq!(CXX::default(), CXX::CXX);
    assert_eq!(Variadic::default(), Variadic::Nary);
}
