use cxx_gen::bridge::bridge;
use cxx_gen::emit::generate;
use cxx_gen::expand::{expand_cxx_function_shim, expand_rust_function_shim};
use cxx_gen::syntax::{Api, ExternFn, ExternType, Struct, Type, Var};
use cxx_gen::types::{ErrorKind, Types};

fn ident(s: &str) -> Type {
    Type::Ident(s.to_string())
}

fn var(name: &str, ty: Type) -> Var {
    Var { ident: name.to_string(), ty }
}

fn func(name: &str, args: Vec<Var>, ret: Option<Type>, throws: bool) -> ExternFn {
    ExternFn { doc: vec![], ident: name.to_string(), receiver: None, args, ret, throws }
}

fn ns(segments: &[&str]) -> Vec<String> {
    segments.iter().map(|s| s.to_string()).collect()
}

fn shared_apis() -> Vec<Api> {
    vec![
        Api::Struct(Struct { doc: vec![], derives: vec![], ident: "Shared".to_string(), fields: vec![var("z", ident("usize"))] }),
        Api::CxxFunction(func("native_return_shared", vec![], Some(ident("Shared")), false)),
        Api::RustFunction(func("managed_take_shared", vec![var("shared", ident("Shared"))], None, false)),
    ]
}

#[test]
fn shared_struct_end_to_end_managed_module() {
    let text = bridge("ffi", "pub ", &vec![], &ns(&["tests"]), &shared_apis()).unwrap();
    let items = [
        "#[derive()]\n",
        "#[repr(C)]\n",
        "pub struct Shared {\n",
        "    pub z: usize,\n",
        "}\n",
        "pub fn native_return_shared() -> Shared {\n",
        "    extern \"C\" {\n",
        "#[link_name = \"tests$cxxbridge02$native_return_shared\"]\n",
        "fn __native_return_shared() -> Shared;\n",
        "    }\n",
        "    unsafe {\n",
        "        __native_return_shared()\n",
        "    }\n",
        "}\n",
    ]
    .concat();
    assert!(text.contains(&items), "{}", text);
    let hidden = [
        "#[doc(hidden)]\n",
        "const _: () = {\n",
        "#[doc(hidden)]\n",
        "#[export_name = \"tests$cxxbridge02$managed_take_shared\"]\n",
        "unsafe extern \"C\" fn __managed_take_shared(shared: Shared) {\n",
        "    let __fn = concat!(module_path!(), \"::managed_take_shared\");\n",
        "    ::cxx::private::catch_unwind(__fn, move || super::managed_take_shared(shared))\n",
        "}\n",
        "};\n",
        "}\n",
    ]
    .concat();
    assert!(text.ends_with(&hidden), "{}", text);
    assert!(text.starts_with("#[deny(improper_ctypes)]\n#[allow(non_snake_case)]\npub mod ffi {\npub struct Vector<T>(pub ::cxx::RealVector<T>);\n"));
    let native = generate(ns(&["tests"]), &shared_apis(), false, &vec![]).unwrap();
    assert!(native.content().contains("Shared tests$cxxbridge02$native_return_shared() noexcept {"));
    assert!(native.content().contains("  tests$cxxbridge02$managed_take_shared(shared);\n"));
}

#[test]
fn managed_safe_shim_of_fallible_string_function() {
    let apis = vec![Api::CxxFunction(func(
        "name_of",
        vec![var("s", Type::Ref(Box::new(ident("String")), false)), var("b", Type::UniquePtr(Box::new(ident("C"))))],
        Some(ident("String")),
        true,
    ))];
    let types = match Types::collect(&apis) {
        Ok(t) => t,
        Err(_) => panic!("rejected"),
    };
    let efn = match &apis[0] {
        Api::CxxFunction(f) => f,
        _ => unreachable!(),
    };
    let text = expand_cxx_function_shim(&ns(&["n"]), efn, &types);
    let expected = [
        "pub fn name_of(s: &String, b: UniquePtr<C>) -> ::std::result::Result<String, ::cxx::Exception> {\n",
        "    extern \"C\" {\n",
        "#[link_name = \"n$cxxbridge02$name_of\"]\n",
        "fn __name_of(s: &::cxx::private::RustString, b: *mut C, __return: *mut ::cxx::private::RustString) -> ::cxx::private::Result;\n",
        "    }\n",
        "    unsafe {\n",
        "        let mut __return = ::std::mem::MaybeUninit::<::cxx::private::RustString>::uninit();\n",
        "        __name_of(::cxx::private::RustString::from_ref(s), ::cxx::UniquePtr::into_raw(b), __return.as_mut_ptr()).exception()?;\n",
        "        ::std::result::Result::Ok(__return.assume_init()).map(|r| r.into_string())\n",
        "    }\n",
        "}\n",
    ]
    .concat();
    assert_eq!(text, expected);
}

#[test]
fn managed_entry_of_fallible_function() {
    let apis = vec![Api::RustFunction(func(
        "parse",
        vec![var("text", Type::Str), var("owned", ident("String"))],
        Some(ident("u32")),
        true,
    ))];
    let types = match Types::collect(&apis) {
        Ok(t) => t,
        Err(_) => panic!("rejected"),
    };
    let efn = match &apis[0] {
        Api::RustFunction(f) => f,
        _ => unreachable!(),
    };
    let text = expand_rust_function_shim(&ns(&["p"]), efn, &types);
    let expected = [
        "#[doc(hidden)]\n",
        "#[export_name = \"p$cxxbridge02$parse\"]\n",
        "unsafe extern \"C\" fn __parse(text: ::cxx::private::RustStr, owned: *mut ::cxx::private::RustString, __return: *mut u32) -> ::cxx::private::Result {\n",
        "    let __fn = concat!(module_path!(), \"::parse\");\n",
        "    ::cxx::private::catch_unwind(__fn, move || ::cxx::private::r#try(__return, super::parse(text.as_str(), ::std::mem::take((*owned).as_mut_string()))))\n",
        "}\n",
    ]
    .concat();
    assert_eq!(text, expected);
    let native = generate(ns(&["p"]), &apis, false, &vec![]).unwrap();
    assert!(native.content().contains("::rust::Str::Repr p$cxxbridge02$parse(::rust::Str::Repr text, ::rust::String *owned, uint32_t *return$) noexcept;\n"));
}

#[test]
fn managed_entry_with_owned_pointer_result() {
    let apis = vec![
        Api::RustType(ExternType { ident: "R".to_string() }),
        Api::RustFunction(func("make", vec![], Some(Type::RustBox(Box::new(ident("R")))), false)),
    ];
    let text = bridge("m", "pub ", &vec![], &ns(&[]), &apis).unwrap();
    assert!(text.contains("use super::R;\n"));
    assert!(text.contains("const fn __assert_sized<T>() {}\n__assert_sized::<R>();\n"));
    assert!(text.contains("unsafe extern \"C\" fn __make() -> *mut R {\n"));
    assert!(text.contains("::cxx::private::catch_unwind(__fn, move || ::std::boxed::Box::into_raw(super::make()))\n"));
    assert!(text.contains("#[export_name = \"cxxbridge02$box$R$uninit\"]\n"));
}

#[test]
fn bridge_rejects_bad_interface() {
    let apis = vec![Api::Struct(Struct { doc: vec![], derives: vec![], ident: "UniquePtr".to_string(), fields: vec![var("a", ident("u8"))] })];
    match bridge("m", "pub ", &vec![], &ns(&[]), &apis) {
        Ok(_) => panic!("accepted"),
        Err(e) => {
            assert_eq!(e.kind, ErrorKind::ReservedName);
            assert_eq!(e.ident, "UniquePtr");
        }
    }
}

#[test]
fn bridge_keeps_visibility_and_doc() {
    let apis = vec![Api::CxxType(ExternType { ident: "C".to_string() })];
    let text = bridge("ffi", "pub(crate) ", &vec![" The bridge.".to_string()], &ns(&[]), &apis).unwrap();
    assert!(text.starts_with("/// The bridge.\n#[deny(improper_ctypes)]\n#[allow(non_snake_case)]\npub(crate) mod ffi {\n"));
    let text = bridge("ffi", "", &vec![], &ns(&[]), &apis).unwrap();
    assert!(text.starts_with("#[deny(improper_ctypes)]\n#[allow(non_snake_case)]\nmod ffi {\n"));
}

#[test]
fn vec_is_a_reserved_name() {
    let apis = vec![Api::RustType(ExternType { ident: "Vec".to_string() })];
    match bridge("m", "", &vec![], &ns(&[]), &apis) {
        Ok(_) => panic!("accepted"),
        Err(e) => assert_eq!(e.kind, ErrorKind::ReservedName),
    }
}

#[test]
fn bridge_without_hidden_items() {
    let apis = vec![Api::CxxType(ExternType { ident: "C".to_string() })];
    let text = bridge("m", "pub ", &vec![], &ns(&[]), &apis).unwrap();
    assert!(!text.contains("const _: () = {"));
    assert!(text.ends_with("pub struct C {\n    _private: ::cxx::private::Opaque,\n}\n}\n"));
}

#[test]
fn managed_methods_use_receivers() {
    let apis = vec![
        Api::CxxType(ExternType { ident: "C".to_string() }),
        Api::CxxFunction(ExternFn {
            doc: vec![],
            ident: "get".to_string(),
            receiver: Some(cxx_gen::syntax::Receiver { ident: "C".to_string(), mutable: false }),
            args: vec![var("i", ident("usize"))],
            ret: Some(ident("u8")),
            throws: false,
        }),
        Api::RustType(ExternType { ident: "R".to_string() }),
        Api::RustFunction(ExternFn {
            doc: vec![],
            ident: "bump".to_string(),
            receiver: Some(cxx_gen::syntax::Receiver { ident: "R".to_string(), mutable: true }),
            args: vec![],
            ret: None,
            throws: false,
        }),
    ];
    let text = bridge("m", "", &vec![], &ns(&[]), &apis).unwrap();
    let shim = [
        "impl C {\n",
        "pub fn get(&self, i: usize) -> u8 {\n",
        "    extern \"C\" {\n",
        "#[link_name = \"cxxbridge02$get\"]\n",
        "fn __get(_: &C, i: usize) -> u8;\n",
        "    }\n",
        "    unsafe {\n",
        "        __get(self, i)\n",
        "    }\n",
        "}\n",
        "}\n",
    ]
    .concat();
    assert!(text.contains(&shim), "{}", text);
    assert!(text.contains("unsafe extern \"C\" fn __bump(__self: &mut R) {\n"));
    assert!(text.contains("::cxx::private::catch_unwind(__fn, move || R::bump(__self))\n"));
}
