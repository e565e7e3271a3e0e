use cxx_gen::headers::is_comment;
use cxx_gen::mangle::{to_mangled, to_typename};
use cxx_gen::syntax::Type;

fn ident(s: &str) -> Type {
    Type::Ident(s.to_string())
}

fn ns(segments: &[&str]) -> Vec<String> {
    segments.iter().map(|s| s.to_string()).collect()
}

#[test]
fn typenames_qualify_user_types_only() {
    assert_eq!(to_typename(&ident("Thing"), &ns(&["a", "b"])), "a::b::Thing");
    assert_eq!(to_typename(&ident("u8"), &ns(&["a", "b"])), "uint8_t");
    assert_eq!(to_typename(&Type::Vector(Box::new(ident("Thing"))), &ns(&["a"])), "std::vector<a::Thing>");
    assert_eq!(to_typename(&Type::RustVec(Box::new(ident("i32"))), &ns(&["a"])), "rust::Vec<int32_t>");
}

#[test]
fn mangled_names_join_with_dollar() {
    assert_eq!(to_mangled(&ident("Thing"), &ns(&["a", "b"])), "a$b$Thing");
    assert_eq!(to_mangled(&ident("u8"), &ns(&["a", "b"])), "u8");
    assert_eq!(to_mangled(&Type::UniquePtr(Box::new(Type::Vector(Box::new(ident("T"))))), &ns(&["x"])), "std$unique_ptr$std$vector$x$T");
    assert_eq!(to_mangled(&Type::RustBox(Box::new(ident("T"))), &ns(&[])), "rust_box$T");
}

#[test]
fn mangled_names_differ_for_different_types() {
    let n = ns(&["a", "b"]);
    let names = ["A", "B", "AB", "a", "u8", "i8"];
    for x in names.iter() {
        for y in names.iter() {
            let same = to_mangled(&ident(x), &n) == to_mangled(&ident(y), &n);
            assert_eq!(same, x == y);
        }
    }
}

#[test]
fn comment_lines_after_any_whitespace() {
    assert!(is_comment("// plain"));
    assert!(is_comment(" \t// indented"));
    assert!(is_comment("\u{a0}\u{2003}// after wide spaces"));
    assert!(!is_comment("class String; // trailing"));
    assert!(!is_comment("/"));
    assert!(!is_comment(""));
}
