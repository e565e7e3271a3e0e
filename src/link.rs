use vstd::prelude::*;
use vstd::string::*;
use crate::mangle::{has_mangled, mangled, ns_prefix, push_mangled, push_ns_prefix};
use crate::syntax::{Type, TypeView};
use crate::types::name_views;

verus! {

/// The managed side's link name of a boundary function: the namespace as
/// written in a symbol, the bridge tag, and the function's name.
pub open spec fn managed_fn_link(ns: Seq<Seq<char>>, ident: Seq<char>) -> Seq<char> {
    ns_prefix(ns, "$"@) + "cxxbridge02$"@ + ident
}

/// The managed side's link name of an operation behind an owned pointer to
/// its type `ident`.
pub open spec fn managed_box_link(ns: Seq<Seq<char>>, ident: Seq<char>, op: Seq<char>) -> Seq<
    char,
> {
    "cxxbridge02$box$"@ + ns_prefix(ns, "$"@) + ident + "$"@ + op
}

/// The managed side's link name of an operation of a generic instantiation
/// of the given kind.
pub open spec fn managed_instance_link(
    kind: Seq<char>,
    ns: Seq<Seq<char>>,
    t: TypeView,
    op: Seq<char>,
) -> Seq<char> {
    kind + mangled(ns, t) + "$"@ + op
}

/// The namespace as it stands in a symbol: each segment followed by `$`.
pub fn namespace_prefix(ns: &Vec<String>) -> (r: String)
    ensures
        r@ == ns_prefix(name_views(ns@), "$"@),
{
    let mut r = String::new();
    push_ns_prefix(&mut r, ns, "$");
    assert(r@ =~= ns_prefix(name_views(ns@), "$"@));
    r
}

/// The link name under which the managed side finds a native function, or
/// exports one of its own.
pub fn extern_fn_link_name(ns: &Vec<String>, ident: &str) -> (r: String)
    ensures
        r@ == managed_fn_link(name_views(ns@), ident@),
{
    let mut r = namespace_prefix(ns);
    r.append("cxxbridge02$");
    r.append(ident);
    r
}

/// The link name of an operation (`uninit`, `drop`) behind an owned pointer
/// to the managed type `ident`.
pub fn rust_box_link_name(ns: &Vec<String>, ident: &str, op: &str) -> (r: String)
    ensures
        r@ == managed_box_link(name_views(ns@), ident@, op@),
{
    let mut r = String::new();
    r.append("cxxbridge02$box$");
    let p = namespace_prefix(ns);
    r.append(p.as_str());
    r.append(ident);
    r.append("$");
    r.append(op);
    r
}

/// The link name of an operation of a generic instantiation: `kind` is the
/// bridge tag with the wrapper kind, `ty` the concrete type.
pub fn instance_link_name(kind: &str, ns: &Vec<String>, ty: &Type, op: &str) -> (r: String)
    requires
        has_mangled(ty@),
    ensures
        r@ == managed_instance_link(kind@, name_views(ns@), ty@, op@),
{
    let mut r = String::new();
    r.append(kind);
    push_mangled(&mut r, ty, ns);
    r.append("$");
    r.append(op);
    assert(r@ =~= managed_instance_link(kind@, name_views(ns@), ty@, op@));
    r
}

/// The link name of an operation (`drop`, `vector_from`, `len`) of a
/// managed-side sequence of `ty`.
pub fn rust_vec_link_name(ns: &Vec<String>, ty: &Type, op: &str) -> (r: String)
    requires
        has_mangled(ty@),
    ensures
        r@ == managed_instance_link("cxxbridge02$rust_vec$"@, name_views(ns@), ty@, op@),
{
    instance_link_name("cxxbridge02$rust_vec$", ns, ty, op)
}

/// The link name of an operation (`null`, `new`, `raw`, `get`, `release`,
/// `drop`) of a native owned pointer to `ty`.
pub fn unique_ptr_link_name(ns: &Vec<String>, ty: &Type, op: &str) -> (r: String)
    requires
        has_mangled(ty@),
    ensures
        r@ == managed_instance_link("cxxbridge02$unique_ptr$"@, name_views(ns@), ty@, op@),
{
    instance_link_name("cxxbridge02$unique_ptr$", ns, ty, op)
}

/// The link name of an operation (`length`, `get_unchecked`, `push_back`)
/// of a native sequence of `ty`.
pub fn vector_link_name(ns: &Vec<String>, ty: &Type, op: &str) -> (r: String)
    requires
        has_mangled(ty@),
    ensures
        r@ == managed_instance_link("cxxbridge02$std$vector$"@, name_views(ns@), ty@, op@),
{
    instance_link_name("cxxbridge02$std$vector$", ns, ty, op)
}

/// What the managed side's link names behind an owned pointer to its type
/// `ident` begin with.
pub open spec fn box_link_prefix(ns: Seq<Seq<char>>, ident: Seq<char>) -> Seq<char> {
    "cxxbridge02$box$"@ + ns_prefix(ns, "$"@) + ident + "$"@
}

/// What the managed side's link names of an instantiation begin with.
pub open spec fn instance_link_prefix(kind: Seq<char>, ns: Seq<Seq<char>>, t: TypeView) -> Seq<
    char,
> {
    kind + mangled(ns, t) + "$"@
}

/// What the managed side's link names behind an owned pointer to its type
/// `ident` begin with.
pub fn rust_box_link_prefix(ns: &Vec<String>, ident: &str) -> (r: String)
    ensures
        r@ == box_link_prefix(name_views(ns@), ident@),
{
    let mut r = String::new();
    r.append("cxxbridge02$box$");
    push_ns_prefix(&mut r, ns, "$");
    r.append(ident);
    r.append("$");
    assert(r@ =~= box_link_prefix(name_views(ns@), ident@));
    r
}

/// What the managed side's link names of an instantiation begin with.
pub fn instance_link_prefix_of(kind: &str, ns: &Vec<String>, ty: &Type) -> (r: String)
    requires
        has_mangled(ty@),
    ensures
        r@ == instance_link_prefix(kind@, name_views(ns@), ty@),
{
    let mut r = String::new();
    r.append(kind);
    push_mangled(&mut r, ty, ns);
    r.append("$");
    assert(r@ =~= instance_link_prefix(kind@, name_views(ns@), ty@));
    r
}

} // verus!
