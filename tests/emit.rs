use cxx_gen::atom::Atom;
use cxx_gen::emit::{gen, generate};
use cxx_gen::link::{extern_fn_link_name, rust_box_link_name, unique_ptr_link_name, vector_link_name};
use cxx_gen::syntax::{Api, ExternFn, ExternType, Struct, Type, Var};
use cxx_gen::types::{ErrorKind, Types};

fn ident(s: &str) -> Type {
    Type::Ident(s.to_string())
}

fn var(name: &str, ty: Type) -> Var {
    Var { ident: name.to_string(), ty }
}

fn func(name: &str, args: Vec<Var>, ret: Option<Type>, throws: bool) -> ExternFn {
    ExternFn { doc: vec![], ident: name.to_string(), receiver: None, args, ret, throws }
}

fn strct(name: &str, fields: Vec<Var>) -> Api {
    Api::Struct(Struct { doc: vec![], derives: vec![], ident: name.to_string(), fields })
}

fn ns(segments: &[&str]) -> Vec<String> {
    segments.iter().map(|s| s.to_string()).collect()
}

fn shared_apis() -> Vec<Api> {
    vec![
        strct("Shared", vec![var("z", ident("usize"))]),
        Api::CxxFunction(func("native_return_shared", vec![], Some(ident("Shared")), false)),
        Api::RustFunction(func(
            "managed_take_shared",
            vec![var("shared", ident("Shared"))],
            None,
            false,
        )),
    ]
}

#[test]
fn shared_struct_end_to_end_definition() {
    let out = generate(ns(&["tests"]), &shared_apis(), false, &vec![]).unwrap();
    let expected = [
        "#include <cstdint>\n",
        "\n",
        "namespace tests {\n",
        "\n",
        "struct Shared;\n",
        "\n",
        "struct Shared final {\n",
        "  size_t z;\n",
        "};\n",
        "\n",
        "extern \"C\" {\n",
        "Shared tests$cxxbridge02$native_return_shared() noexcept {\n",
        "  Shared (*native_return_shared$)() = native_return_shared;\n",
        "  return native_return_shared$();\n",
        "}\n",
        "\n",
        "void tests$cxxbridge02$managed_take_shared(Shared shared) noexcept;\n",
        "} // extern \"C\"\n",
        "\n",
        "void managed_take_shared(Shared shared) noexcept {\n",
        "  tests$cxxbridge02$managed_take_shared(shared);\n",
        "}\n",
        "\n",
        "} // namespace tests\n",
    ]
    .concat();
    assert_eq!(out.content().as_str(), expected);
}

#[test]
fn shared_struct_end_to_end_header() {
    let out = generate(ns(&["tests"]), &shared_apis(), true, &vec![]).unwrap();
    let expected = [
        "#include <cstdint>\n",
        "\n",
        "#pragma once\n",
        "\n",
        "namespace tests {\n",
        "\n",
        "struct Shared;\n",
        "\n",
        "struct Shared final {\n",
        "  size_t z;\n",
        "};\n",
        "\n",
        "void managed_take_shared(Shared shared) noexcept;\n",
        "\n",
        "} // namespace tests\n",
    ]
    .concat();
    assert_eq!(out.content().as_str(), expected);
}

#[test]
fn shared_struct_symbols_agree() {
    let out = generate(ns(&["tests"]), &shared_apis(), false, &vec![]).unwrap();
    let text = out.content().clone();
    let native = extern_fn_link_name(&ns(&["tests"]), "native_return_shared");
    let managed = extern_fn_link_name(&ns(&["tests"]), "managed_take_shared");
    assert_eq!(native, "tests$cxxbridge02$native_return_shared");
    assert!(text.contains(&format!("Shared {}() noexcept {{", native)));
    assert!(text.contains(&format!("void {}(Shared shared) noexcept;", managed)));
}

#[test]
fn multi_segment_namespace_symbols() {
    let apis = vec![Api::CxxFunction(func("f", vec![var("x", ident("u32"))], Some(ident("u32")), false))];
    let out = generate(ns(&["a", "b", "c"]), &apis, false, &vec![]).unwrap();
    let name = extern_fn_link_name(&ns(&["a", "b", "c"]), "f");
    assert_eq!(name, "a$b$c$cxxbridge02$f");
    assert!(out.content().contains("uint32_t a$b$c$cxxbridge02$f(uint32_t x) noexcept {"));
    assert!(out.content().contains("namespace a {\nnamespace b {\nnamespace c {\n"));
    assert!(out.content().contains("} // namespace c\n} // namespace b\n} // namespace a\n"));
}

#[test]
fn unique_ptr_instantiation_symbols_agree() {
    let apis = vec![
        Api::CxxType(ExternType { ident: "Thing".to_string() }),
        Api::CxxFunction(func(
            "make_thing",
            vec![],
            Some(Type::UniquePtr(Box::new(ident("Thing")))),
            false,
        )),
    ];
    let out = generate(ns(&["app", "ffi"]), &apis, false, &vec![]).unwrap();
    let text = out.content().clone();
    for op in ["null", "new", "raw", "get", "release", "drop"] {
        let link = unique_ptr_link_name(&ns(&["app", "ffi"]), &ident("Thing"), op);
        assert_eq!(link, format!("cxxbridge02$unique_ptr$app$ffi$Thing${}", op));
        assert!(text.contains(&format!("{}(", link)), "missing {}", link);
    }
    assert!(text.contains("#ifndef CXXBRIDGE02_UNIQUE_PTR_app$ffi$Thing\n"));
    assert!(text.contains("static_assert(sizeof(::std::unique_ptr<app::ffi::Thing>) == sizeof(void *), \"\");\n"));
    assert!(text.contains("  return make_thing$().release();\n"));
    assert!(text.contains("Thing *app$ffi$cxxbridge02$make_thing() noexcept {"));
    assert!(text.starts_with("#include <memory>\n#include <utility>\n\n"));
}

#[test]
fn rust_box_instantiation_symbols_agree() {
    let apis = vec![
        Api::RustType(ExternType { ident: "R".to_string() }),
        Api::RustFunction(func(
            "take_box",
            vec![var("b", Type::RustBox(Box::new(ident("R"))))],
            None,
            false,
        )),
    ];
    let out = generate(ns(&["m"]), &apis, false, &vec![]).unwrap();
    let text = out.content().clone();
    for op in ["uninit", "drop"] {
        let link = rust_box_link_name(&ns(&["m"]), "R", op);
        assert_eq!(link, format!("cxxbridge02$box$m$R${}", op));
        assert!(text.contains(&format!("void {}(::rust::Box<m::R> *ptr) noexcept;\n", link)));
        assert!(text.contains(&format!("  return {}(this);\n", link)));
    }
    assert!(text.contains("void take_box(::rust::Box<R> b) noexcept {\n  m$cxxbridge02$take_box(b.into_raw());\n}\n"));
    assert!(text.contains("void m$cxxbridge02$take_box(R *b) noexcept;\n"));
}

#[test]
fn vector_instantiation_symbols_agree() {
    let apis = vec![Api::CxxFunction(func(
        "bytes",
        vec![var("v", Type::Ref(Box::new(Type::Vector(Box::new(ident("u8")))), false))],
        None,
        false,
    ))];
    let out = generate(ns(&["n"]), &apis, false, &vec![]).unwrap();
    let text = out.content().clone();
    for op in ["length", "push_back", "get_unchecked"] {
        let link = vector_link_name(&ns(&["n"]), &ident("u8"), op);
        assert_eq!(link, format!("cxxbridge02$std$vector$u8${}", op));
        assert!(text.contains(&link));
    }
    assert!(text.contains("#ifndef CXXBRIDGE02_vector_u8\n"));
    assert!(text.contains("size_t cxxbridge02$std$vector$u8$length(const std::vector<uint8_t> &s) noexcept {\n"));
}

#[test]
fn instantiation_written_once_per_type() {
    let apis = vec![
        Api::CxxType(ExternType { ident: "Thing".to_string() }),
        Api::CxxFunction(func("a", vec![], Some(Type::UniquePtr(Box::new(ident("Thing")))), false)),
        Api::CxxFunction(func("b", vec![], Some(Type::UniquePtr(Box::new(ident("Thing")))), false)),
        Api::CxxFunction(func(
            "c",
            vec![var("p", Type::UniquePtr(Box::new(ident("Thing"))))],
            None,
            false,
        )),
    ];
    let types = match Types::collect(&apis) {
        Ok(t) => t,
        Err(_) => panic!("rejected"),
    };
    assert_eq!(types.all.len(), 2);
    let out = gen(ns(&["q"]), &apis, &types, false, &vec![]);
    let text = out.content().clone();
    assert_eq!(text.matches("#ifndef CXXBRIDGE02_UNIQUE_PTR_q$Thing\n").count(), 1);
    assert_eq!(text.matches("$null(").count(), 1);
}

#[test]
fn fallible_managed_function_rethrows() {
    let apis = vec![Api::RustFunction(func("may_fail", vec![], Some(ident("u32")), true))];
    let out = generate(ns(&["t"]), &apis, false, &vec![]).unwrap();
    let text = out.content().clone();
    let expected = "uint32_t may_fail() {\n  ::rust::MaybeUninit<uint32_t> return$;\n  ::rust::Str::Repr error$ = t$cxxbridge02$may_fail(&return$.value);\n  if (error$.ptr) {\n    throw ::rust::Error(error$);\n  }\n  return ::std::move(return$.value);\n}\n";
    assert!(text.contains(expected), "{}", text);
    assert!(text.contains("::rust::Str::Repr t$cxxbridge02$may_fail(uint32_t *return$) noexcept;\n"));
    assert!(text.contains("#include <exception>\n"));
    assert!(text.contains("union MaybeUninit {"));
}

#[test]
fn fallible_native_function_catches() {
    let apis = vec![Api::CxxFunction(func("risky", vec![], Some(ident("i32")), true))];
    let out = generate(ns(&[]), &apis, false, &vec![]).unwrap();
    let text = out.content().clone();
    let expected = "::rust::Str::Repr cxxbridge02$risky(int32_t *return$) noexcept {\n  int32_t (*risky$)() = risky;\n  ::rust::Str::Repr throw$;\n  ::rust::trycatch(\n      [&] {\n        new (return$) int32_t(risky$());\n        throw$.ptr = nullptr;\n      },\n      [&](const char *catch$) noexcept {\n        throw$.len = ::std::strlen(catch$);\n        throw$.ptr = cxxbridge02$exception(catch$, throw$.len);\n      });\n  return throw$;\n}\n";
    assert!(text.contains(expected), "{}", text);
    assert!(text.contains("const char *cxxbridge02$exception(const char *, size_t);"));
    assert!(text.contains("static void trycatch(Try &&func, Fail &&fail) noexcept try {"));
    assert!(text.contains("#include <cstring>\n"));
}

#[test]
fn indirect_string_argument_and_return() {
    let apis = vec![Api::RustFunction(func(
        "echo",
        vec![var("s", ident("String"))],
        Some(ident("String")),
        false,
    ))];
    let runtime = vec![
        "#pragma once".to_string(),
        "#ifndef CXXBRIDGE02_RUST_STRING".to_string(),
        "#define CXXBRIDGE02_RUST_STRING".to_string(),
        "  // not copied".to_string(),
        "class String final {};".to_string(),
        "#endif // CXXBRIDGE02_RUST_STRING".to_string(),
        "#ifndef CXXBRIDGE02_RUST_STR".to_string(),
        "class Str final {};".to_string(),
        "#endif // CXXBRIDGE02_RUST_STR".to_string(),
    ];
    let out = generate(ns(&["s"]), &apis, false, &runtime).unwrap();
    let text = out.content().clone();
    assert!(text.contains("#ifndef CXXBRIDGE02_RUST_STRING\n#define CXXBRIDGE02_RUST_STRING\nclass String final {};\n#endif // CXXBRIDGE02_RUST_STRING\n"));
    assert!(!text.contains("not copied"));
    assert!(!text.contains("class Str final"));
    assert!(text.contains("void s$cxxbridge02$echo(::rust::String *s, ::rust::String *return$) noexcept;\n"));
    assert!(text.contains("  ::rust::MaybeUninit<::rust::String> return$;\n  s$cxxbridge02$echo(&s, &return$.value);\n"));
    assert!(text.starts_with("#include <array>\n#include <cstdint>\n#include <string>\n#include <utility>\n\n"));
}

#[test]
fn indirect_struct_argument_moves() {
    let apis = vec![
        strct("Named", vec![var("name", ident("String"))]),
        Api::RustFunction(func("take", vec![var("n", ident("Named"))], None, false)),
        Api::CxxFunction(func("give", vec![var("n", ident("Named"))], None, false)),
    ];
    let out = generate(ns(&[]), &apis, false, &vec![]).unwrap();
    let text = out.content().clone();
    assert!(text.contains("  ::rust::ManuallyDrop<Named> n$(::std::move(n));\n  cxxbridge02$take(&n$.value);\n"));
    assert!(text.contains("void cxxbridge02$give(Named *n) noexcept {\n  void (*give$)(Named) = give;\n  give$(::std::move(*n));\n}\n"));
    assert!(text.contains("union ManuallyDrop {"));
}

#[test]
fn custom_header_is_escaped() {
    let apis = vec![Api::Include("dir/my \"quoted\".h".to_string())];
    let out = generate(ns(&[]), &apis, true, &vec![]).unwrap();
    assert!(out.content().starts_with("#include \"dir/my \\\"quoted\\\".h\"\n\n#pragma once\n"));
}

#[test]
fn direct_and_indirect_classification() {
    let apis = vec![
        strct("Small", vec![var("a", ident("usize")), var("b", ident("bool")), var("c", ident("i8"))]),
        strct("Text", vec![var("a", ident("u8")), var("s", ident("String"))]),
        strct("Seq", vec![var("v", Type::RustVec(Box::new(ident("u8"))))]),
    ];
    let types = match Types::collect(&apis) {
        Ok(t) => t,
        Err(_) => panic!("rejected"),
    };
    assert!(!types.needs_indirect_abi(&ident("Small")));
    assert!(types.needs_indirect_abi(&ident("Text")));
    assert!(types.needs_indirect_abi(&ident("Seq")));
    assert!(types.needs_indirect_abi(&ident("String")));
    assert!(!types.needs_indirect_abi(&ident("u64")));
    assert!(types.needs_indirect_abi(&Type::RustVec(Box::new(ident("u8")))));
    for _ in 0..3 {
        assert!(!types.needs_indirect_abi(&ident("Small")));
        assert!(types.needs_indirect_abi(&ident("Text")));
    }
}

#[test]
fn registry_lists_each_type_once_in_order() {
    let apis = vec![
        strct("P", vec![var("x", ident("u8")), var("y", ident("u8"))]),
        Api::CxxFunction(func("f", vec![var("v", Type::Vector(Box::new(ident("u8"))))], Some(ident("P")), false)),
    ];
    let types = match Types::collect(&apis) {
        Ok(t) => t,
        Err(_) => panic!("rejected"),
    };
    assert_eq!(types.all.len(), 3);
    assert!(types.all[0].same(&ident("u8")));
    assert!(types.all[1].same(&Type::Vector(Box::new(ident("u8")))));
    assert!(types.all[2].same(&ident("P")));
}

fn error_of(apis: Vec<Api>) -> (ErrorKind, String) {
    match generate(ns(&[]), &apis, false, &vec![]) {
        Ok(_) => panic!("accepted"),
        Err(e) => (e.kind, e.ident),
    }
}

#[test]
fn reserved_names_are_rejected() {
    assert_eq!(error_of(vec![strct("Box", vec![var("a", ident("u8"))])]), (ErrorKind::ReservedName, "Box".to_string()));
    assert_eq!(error_of(vec![Api::CxxType(ExternType { ident: "u8".to_string() })]), (ErrorKind::ReservedName, "u8".to_string()));
    assert_eq!(error_of(vec![Api::RustType(ExternType { ident: "Vector".to_string() })]), (ErrorKind::ReservedName, "Vector".to_string()));
}

#[test]
fn duplicate_names_are_rejected() {
    let apis = vec![
        Api::CxxType(ExternType { ident: "T".to_string() }),
        Api::RustType(ExternType { ident: "T".to_string() }),
    ];
    assert_eq!(error_of(apis), (ErrorKind::DuplicateName, "T".to_string()));
}

#[test]
fn empty_struct_is_rejected() {
    assert_eq!(error_of(vec![strct("E", vec![])]), (ErrorKind::EmptyStruct, "E".to_string()));
}

#[test]
fn unsupported_wrappers_are_rejected() {
    let boxed_atom = Api::RustFunction(func("f", vec![var("b", Type::RustBox(Box::new(ident("u8"))))], None, false));
    assert_eq!(error_of(vec![boxed_atom]), (ErrorKind::UnsupportedType, "f".to_string()));
    let vector_of_u32 = Api::CxxFunction(func("g", vec![], Some(Type::Vector(Box::new(ident("u32")))), false));
    assert_eq!(error_of(vec![vector_of_u32]), (ErrorKind::UnsupportedType, "g".to_string()));
    let unit_field = strct("S", vec![var("u", Type::Void)]);
    assert_eq!(error_of(vec![unit_field]), (ErrorKind::UnsupportedType, "S".to_string()));
}

#[test]
fn first_error_wins() {
    let apis = vec![
        strct("A", vec![]),
        strct("Box", vec![var("a", ident("u8"))]),
    ];
    assert_eq!(error_of(apis), (ErrorKind::EmptyStruct, "A".to_string()));
}

#[test]
fn atoms_by_name() {
    assert_eq!(Atom::from("u8"), Some(Atom::U8));
    assert_eq!(Atom::from("usize"), Some(Atom::Usize));
    assert_eq!(Atom::from("String"), Some(Atom::RustString));
    assert_eq!(Atom::from("CxxString"), Some(Atom::CxxString));
    assert_eq!(Atom::from("Shared"), None);
    assert_eq!(Atom::Isize.to_cxx(), "::rust::isize");
    assert_eq!(Atom::F64.to_cxx(), "double");
}

#[test]
fn empty_interface_writes_only_namespaces() {
    let out = generate(ns(&["a"]), &vec![], false, &vec![]).unwrap();
    assert_eq!(out.content().as_str(), "namespace a {\n\n} // namespace a\n");
    let out = generate(ns(&[]), &vec![], true, &vec![]).unwrap();
    assert_eq!(out.content().as_str(), "#pragma once\n");
}

fn method(name: &str, on: &str, mutable: bool, args: Vec<Var>, ret: Option<Type>, throws: bool) -> ExternFn {
    ExternFn {
        doc: vec![],
        ident: name.to_string(),
        receiver: Some(cxx_gen::syntax::Receiver { ident: on.to_string(), mutable }),
        args,
        ret,
        throws,
    }
}

#[test]
fn native_method_binds_member_pointer() {
    let apis = vec![
        Api::CxxType(ExternType { ident: "C".to_string() }),
        Api::CxxFunction(method("get", "C", false, vec![var("i", ident("usize"))], Some(ident("u8")), false)),
        Api::CxxFunction(method("set", "C", true, vec![], None, false)),
    ];
    let out = generate(ns(&[]), &apis, false, &vec![]).unwrap();
    let text = out.content().clone();
    let get = [
        "uint8_t cxxbridge02$get(const C &self, size_t i) noexcept {\n",
        "  uint8_t (C::*get$)(size_t) const = &C::get;\n",
        "  return (self.*get$)(i);\n",
        "}\n",
    ]
    .concat();
    assert!(text.contains(&get), "{}", text);
    assert!(text.contains("void cxxbridge02$set(C &self) noexcept {\n  void (C::*set$)() = &C::set;\n  (self.*set$)();\n}\n"), "{}", text);
}

#[test]
fn managed_method_wrapper_passes_self() {
    let apis = vec![
        Api::RustType(ExternType { ident: "R".to_string() }),
        Api::RustFunction(method("len", "R", false, vec![], Some(ident("usize")), false)),
        Api::RustFunction(method("name", "R", true, vec![], Some(ident("String")), true)),
    ];
    let out = generate(ns(&[]), &apis, false, &vec![]).unwrap();
    let text = out.content().clone();
    assert!(text.contains("size_t cxxbridge02$len(const R &self) noexcept;\n"));
    assert!(text.contains("size_t len(const R &self) noexcept {\n  return cxxbridge02$len(self);\n}\n"));
    assert!(text.contains("::rust::Str::Repr cxxbridge02$name(R &self, ::rust::String *return$) noexcept;\n"));
    assert!(text.contains("  ::rust::Str::Repr error$ = cxxbridge02$name(self, &return$.value);\n"));
}

#[test]
fn fallible_managed_box_result_balances() {
    let apis = vec![
        Api::RustType(ExternType { ident: "R".to_string() }),
        Api::RustFunction(func("make", vec![], Some(Type::RustBox(Box::new(ident("R")))), true)),
    ];
    let out = generate(ns(&[]), &apis, false, &vec![]).unwrap();
    let text = out.content().clone();
    assert!(text.contains("  ::rust::MaybeUninit<::rust::Box<R>> return$;\n  ::rust::Str::Repr error$ = cxxbridge02$make(&return$.value);\n"), "{}", text);
}

#[test]
fn fallible_native_str_result_balances() {
    let apis = vec![Api::CxxFunction(func("label", vec![], Some(Type::Str), true))];
    let out = generate(ns(&[]), &apis, false, &vec![]).unwrap();
    let text = out.content().clone();
    assert!(text.contains("        new (return$) ::rust::Str(label$());\n"), "{}", text);
}

#[test]
fn instantiation_glue_precedes_function_bodies() {
    let apis = vec![
        Api::RustType(ExternType { ident: "R".to_string() }),
        Api::RustFunction(func("take_box", vec![var("b", Type::RustBox(Box::new(ident("R"))))], None, false)),
    ];
    let out = generate(ns(&["m"]), &apis, false, &vec![]).unwrap();
    let text = out.content().clone();
    let glue = text.find("void Box<m::R>::drop() noexcept {").unwrap();
    let decl = text.find("void m$cxxbridge02$take_box(").unwrap();
    let body = text.find("void take_box(::rust::Box<R> b) noexcept {").unwrap();
    assert!(glue < decl && glue < body);
    assert!(text.contains("struct R;\n\n} // namespace m\n\nextern \"C\" {\n"), "{}", text);
    assert!(text.ends_with("} // namespace m\n"));
}
