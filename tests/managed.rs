use cxx_gen::emit::generate;
use cxx_gen::expand::{
    expand_cxx_function_decl, expand_cxx_type, expand_extern_return_type, expand_extern_type,
    expand_return_type, expand_rust_type, expand_struct,
};
use cxx_gen::instances::{
    expand_instances, expand_rust_box, expand_rust_vec, expand_unique_ptr, expand_vector,
    expand_vector_builtin,
};
use cxx_gen::syntax::{Api, ExternFn, ExternType, Struct, Type, Var};
use cxx_gen::types::Types;

fn ident(s: &str) -> Type {
    Type::Ident(s.to_string())
}

fn var(name: &str, ty: Type) -> Var {
    Var { ident: name.to_string(), ty }
}

fn func(name: &str, args: Vec<Var>, ret: Option<Type>, throws: bool) -> ExternFn {
    ExternFn { doc: vec![], ident: name.to_string(), receiver: None, args, ret, throws }
}

fn ns(segments: &[&str]) -> Vec<String> {
    segments.iter().map(|s| s.to_string()).collect()
}

fn registry(apis: &Vec<Api>) -> Types {
    match Types::collect(apis) {
        Ok(t) => t,
        Err(_) => panic!("rejected"),
    }
}

#[test]
fn managed_decl_of_shared_return() {
    let apis = vec![
        Api::Struct(Struct { doc: vec![], derives: vec![], ident: "Shared".to_string(), fields: vec![var("z", ident("usize"))] }),
        Api::CxxFunction(func("native_return_shared", vec![], Some(ident("Shared")), false)),
    ];
    let types = registry(&apis);
    let efn = match &apis[1] {
        Api::CxxFunction(f) => f,
        _ => unreachable!(),
    };
    let decl = expand_cxx_function_decl(&ns(&["tests"]), efn, &types);
    assert_eq!(decl, "#[link_name = \"tests$cxxbridge02$native_return_shared\"]\nfn __native_return_shared() -> Shared;\n");
    let native = generate(ns(&["tests"]), &apis, false, &vec![]).unwrap();
    assert!(native.content().contains("Shared tests$cxxbridge02$native_return_shared() noexcept {"));
}

#[test]
fn managed_decl_with_indirect_values() {
    let apis = vec![Api::CxxFunction(func(
        "f",
        vec![var("s", ident("String")), var("t", Type::Str), var("b", Type::UniquePtr(Box::new(ident("C"))))],
        Some(ident("String")),
        true,
    ))];
    let types = registry(&apis);
    let efn = match &apis[0] {
        Api::CxxFunction(f) => f,
        _ => unreachable!(),
    };
    let decl = expand_cxx_function_decl(&ns(&["a", "b"]), efn, &types);
    assert_eq!(decl, "#[link_name = \"a$b$cxxbridge02$f\"]\nfn __f(s: *const ::cxx::private::RustString, t: ::cxx::private::RustStr, b: *mut C, __return: *mut ::cxx::private::RustString) -> ::cxx::private::Result;\n");
}

#[test]
fn managed_type_spellings() {
    assert_eq!(expand_extern_type(&ident("String")), "::cxx::private::RustString");
    assert_eq!(expand_extern_type(&Type::RustBox(Box::new(ident("R")))), "*mut R");
    assert_eq!(expand_extern_type(&Type::RustVec(Box::new(ident("u8")))), "::cxx::RustVec<u8>");
    assert_eq!(expand_extern_type(&Type::Ref(Box::new(ident("String")), false)), "&::cxx::private::RustString");
    assert_eq!(expand_extern_type(&Type::Ref(Box::new(ident("Thing")), true)), "&mut Thing");
    assert_eq!(expand_extern_type(&Type::Str), "::cxx::private::RustStr");
    assert_eq!(expand_return_type(&Some(Type::Str)), " -> &str");
    assert_eq!(expand_return_type(&None), "");
    let types = registry(&vec![]);
    assert_eq!(expand_extern_return_type(&Some(ident("String")), &types), "");
    assert_eq!(expand_extern_return_type(&Some(ident("u64")), &types), " -> u64");
}

#[test]
fn managed_struct_keeps_field_order() {
    let s = Struct {
        doc: vec![" A point.".to_string()],
        derives: vec!["Clone".to_string(), "Copy".to_string()],
        ident: "P".to_string(),
        fields: vec![var("y", ident("u8")), var("x", ident("i64"))],
    };
    assert_eq!(expand_struct(&s), "/// A point.\n#[derive(Clone, Copy)]\n#[repr(C)]\npub struct P {\n    pub y: u8,\n    pub x: i64,\n}\n");
    assert_eq!(expand_cxx_type(&ExternType { ident: "C".to_string() }), "#[repr(C)]\npub struct C {\n    _private: ::cxx::private::Opaque,\n}\n");
    assert_eq!(expand_rust_type(&ExternType { ident: "R".to_string() }), "use super::R;\n");
}

#[test]
fn managed_box_exports_native_symbols() {
    let text = expand_rust_box(&ns(&["m"]), &"R".to_string());
    assert!(text.contains("#[export_name = \"cxxbridge02$box$m$R$uninit\"]\nunsafe extern \"C\" fn R__box_uninit(\n"));
    assert!(text.contains("#[export_name = \"cxxbridge02$box$m$R$drop\"]\nunsafe extern \"C\" fn R__box_drop(this: *mut ::std::boxed::Box<R>) {\n"));
    let apis = vec![
        Api::RustType(ExternType { ident: "R".to_string() }),
        Api::RustFunction(func("take", vec![var("b", Type::RustBox(Box::new(ident("R"))))], None, false)),
    ];
    let native = generate(ns(&["m"]), &apis, false, &vec![]).unwrap();
    assert!(native.content().contains("void cxxbridge02$box$m$R$uninit(::rust::Box<m::R> *ptr) noexcept;"));
    assert!(native.content().contains("void cxxbridge02$box$m$R$drop(::rust::Box<m::R> *ptr) noexcept;"));
}

#[test]
fn managed_vec_and_vector_links() {
    let text = expand_rust_vec(&ns(&["k"]), &ident("u8"));
    assert!(text.contains("#[export_name = \"cxxbridge02$rust_vec$u8$len\"]\n"));
    assert!(text.contains("unsafe extern \"C\" fn u8__vec_len(this: *const ::cxx::RustVec<u8>) -> usize {\n"));
    let text = expand_vector(&ns(&["k"]), &ident("Thing"));
    assert!(text.contains("impl ::cxx::private::VectorTarget<Thing> for Thing {\n"));
    assert!(text.contains("#[link_name = \"cxxbridge02$std$vector$k$Thing$push_back\"]\n"));
    let text = expand_vector_builtin("u8".to_string());
    assert!(text.starts_with("impl VectorTarget<u8> for u8 {\n"));
    assert!(text.contains("#[link_name = \"cxxbridge02$std$vector$u8$length\"]\n"));
    assert!(text.contains("fn __get_unchecked(_: &RealVector<u8>, _: usize) -> &u8;\n"));
}

#[test]
fn managed_unique_ptr_new_only_for_structs() {
    let apis = vec![
        Api::Struct(Struct { doc: vec![], derives: vec![], ident: "S".to_string(), fields: vec![var("a", ident("u8"))] }),
        Api::CxxType(ExternType { ident: "C".to_string() }),
    ];
    let types = registry(&apis);
    let with_new = expand_unique_ptr(&ns(&["n"]), &ident("S"), &types);
    let without = expand_unique_ptr(&ns(&["n"]), &ident("C"), &types);
    assert!(with_new.contains("#[link_name = \"cxxbridge02$unique_ptr$n$S$new\"]"));
    assert!(!without.contains("$new\""));
    assert!(without.contains("    const __NAME: &'static str = \"n::C\";\n"));
    for op in ["null", "raw", "get", "release", "drop"] {
        assert!(without.contains(&format!("#[link_name = \"cxxbridge02$unique_ptr$n$C${}\"]", op)));
    }
}

#[test]
fn managed_instances_once_per_type() {
    let apis = vec![
        Api::CxxType(ExternType { ident: "C".to_string() }),
        Api::CxxFunction(func("a", vec![], Some(Type::UniquePtr(Box::new(ident("C")))), false)),
        Api::CxxFunction(func("b", vec![var("p", Type::UniquePtr(Box::new(ident("C"))))], None, false)),
        Api::CxxFunction(func("c", vec![var("v", Type::Ref(Box::new(Type::Vector(Box::new(ident("u8")))), false))], None, false)),
    ];
    let types = registry(&apis);
    let managed = expand_instances(&ns(&["z"]), &types);
    assert_eq!(managed.matches("unsafe impl ::cxx::private::UniquePtrTarget for C {").count(), 1);
    assert!(!managed.contains("VectorTarget<u8>"));
    let native = generate(ns(&["z"]), &apis, false, &vec![]).unwrap();
    for op in ["null", "raw", "get", "release", "drop"] {
        let link = format!("cxxbridge02$unique_ptr$z$C${}", op);
        assert!(managed.contains(&format!("\"{}\"", link)));
        assert!(native.content().contains(&format!("{}(", link)));
    }
}
