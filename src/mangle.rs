use vstd::prelude::*;
use vstd::string::*;
use crate::atom::{atom_cxx, atom_of, Atom};
use crate::syntax::{Type, TypeView};
use crate::types::name_views;

verus! {

/// Each namespace segment followed by `sep`.
pub open spec fn ns_prefix(ns: Seq<Seq<char>>, sep: Seq<char>) -> Seq<char>
    decreases ns.len(),
{
    if ns.len() == 0 {
        Seq::empty()
    } else {
        ns_prefix(ns.drop_last(), sep) + ns.last() + sep
    }
}

/// Whether a type has a native type name: a name, or a sequence of one.
pub open spec fn has_typename(t: TypeView) -> bool
    decreases t,
{
    match t {
        TypeView::Ident(_) => true,
        TypeView::RustVec(i) => has_typename(*i),
        TypeView::Vector(i) => has_typename(*i),
        _ => false,
    }
}

/// The fully qualified native name of a type; atoms are not qualified.
pub open spec fn typename(ns: Seq<Seq<char>>, t: TypeView) -> Seq<char>
    decreases t,
{
    match t {
        TypeView::Ident(id) => match atom_of(id) {
            Some(a) => atom_cxx(a),
            None => ns_prefix(ns, "::"@) + id,
        },
        TypeView::RustVec(i) => "rust::Vec<"@ + typename(ns, *i) + ">"@,
        TypeView::Vector(i) => "std::vector<"@ + typename(ns, *i) + ">"@,
        _ => Seq::empty(),
    }
}

/// Whether a type has a mangled name: a name, or wrappers around one.
pub open spec fn has_mangled(t: TypeView) -> bool
    decreases t,
{
    match t {
        TypeView::Ident(_) => true,
        TypeView::RustBox(i) => has_mangled(*i),
        TypeView::RustVec(i) => has_mangled(*i),
        TypeView::UniquePtr(i) => has_mangled(*i),
        TypeView::Vector(i) => has_mangled(*i),
        _ => false,
    }
}

/// The segment that stands for a type inside a symbol: names joined by `$`,
/// atoms unqualified.
pub open spec fn mangled(ns: Seq<Seq<char>>, t: TypeView) -> Seq<char>
    decreases t,
{
    match t {
        TypeView::Ident(id) => match atom_of(id) {
            Some(_) => id,
            None => ns_prefix(ns, "$"@) + id,
        },
        TypeView::RustBox(i) => "rust_box$"@ + mangled(ns, *i),
        TypeView::RustVec(i) => "rust_vec$"@ + mangled(ns, *i),
        TypeView::UniquePtr(i) => "std$unique_ptr$"@ + mangled(ns, *i),
        TypeView::Vector(i) => "std$vector$"@ + mangled(ns, *i),
        _ => Seq::empty(),
    }
}

/// The symbol of a boundary function: the namespace, the bridge tag and the
/// function's name, each followed by `$` but the last.
pub open spec fn fn_symbol(ns: Seq<Seq<char>>, ident: Seq<char>) -> Seq<char> {
    ns_prefix(ns, "$"@) + "cxxbridge02$"@ + ident
}

/// Appends each namespace segment followed by `sep`.
pub fn push_ns_prefix(buf: &mut String, ns: &Vec<String>, sep: &str)
    ensures
        final(buf)@ == old(buf)@ + ns_prefix(name_views(ns@), sep@),
{
    let ghost start = buf@;
    let mut i: usize = 0;
    while i < ns.len()
        invariant
            i <= ns@.len(),
            buf@ == start + ns_prefix(name_views(ns@).subrange(0, i as int), sep@),
        decreases ns@.len() - i,
    {
        buf.append(ns[i].as_str());
        buf.append(sep);
        let ghost v = name_views(ns@);
        assert(v.subrange(0, i + 1).drop_last() =~= v.subrange(0, i as int));
        assert(v[i as int] == ns@[i as int]@);
        assert(buf@ =~= start + ns_prefix(v.subrange(0, i + 1), sep@));
        i = i + 1;
    }
    assert(name_views(ns@).subrange(0, i as int) =~= name_views(ns@));
}

/// Appends the fully qualified native name of a type.
pub fn push_typename(buf: &mut String, ty: &Type, ns: &Vec<String>)
    requires
        has_typename(ty@),
    ensures
        final(buf)@ == old(buf)@ + typename(name_views(ns@), ty@),
    decreases ty,
{
    proof {
        reveal_with_fuel(crate::syntax::type_view, 2);
    }
    let ghost start = buf@;
    match ty {
        Type::Ident(id) => match Atom::from(id.as_str()) {
            Some(a) => buf.append(a.to_cxx()),
            None => {
                push_ns_prefix(buf, ns, "::");
                buf.append(id.as_str());
                assert(buf@ =~= start + (ns_prefix(name_views(ns@), "::"@) + id@));
            },
        },
        Type::RustVec(i) => {
            buf.append("rust::Vec<");
            push_typename(buf, i, ns);
            buf.append(">");
            assert(buf@ =~= start + ("rust::Vec<"@ + typename(name_views(ns@), i@) + ">"@));
        },
        Type::Vector(i) => {
            buf.append("std::vector<");
            push_typename(buf, i, ns);
            buf.append(">");
            assert(buf@ =~= start + ("std::vector<"@ + typename(name_views(ns@), i@) + ">"@));
        },
        _ => {},
    }
}

/// Appends the mangled segment of a type.
pub fn push_mangled(buf: &mut String, ty: &Type, ns: &Vec<String>)
    requires
        has_mangled(ty@),
    ensures
        final(buf)@ == old(buf)@ + mangled(name_views(ns@), ty@),
    decreases ty,
{
    proof {
        reveal_with_fuel(crate::syntax::type_view, 2);
    }
    let ghost start = buf@;
    let ghost v = name_views(ns@);
    match ty {
        Type::Ident(id) => match Atom::from(id.as_str()) {
            Some(_) => buf.append(id.as_str()),
            None => {
                push_ns_prefix(buf, ns, "$");
                buf.append(id.as_str());
                assert(buf@ =~= start + (ns_prefix(v, "$"@) + id@));
            },
        },
        Type::RustBox(i) => {
            buf.append("rust_box$");
            push_mangled(buf, i, ns);
            assert(buf@ =~= start + ("rust_box$"@ + mangled(v, i@)));
        },
        Type::RustVec(i) => {
            buf.append("rust_vec$");
            push_mangled(buf, i, ns);
            assert(buf@ =~= start + ("rust_vec$"@ + mangled(v, i@)));
        },
        Type::UniquePtr(i) => {
            buf.append("std$unique_ptr$");
            push_mangled(buf, i, ns);
            assert(buf@ =~= start + ("std$unique_ptr$"@ + mangled(v, i@)));
        },
        Type::Vector(i) => {
            buf.append("std$vector$");
            push_mangled(buf, i, ns);
            assert(buf@ =~= start + ("std$vector$"@ + mangled(v, i@)));
        },
        _ => {},
    }
}

/// The fully qualified native name of a type.
pub fn to_typename(ty: &Type, ns: &Vec<String>) -> (r: String)
    requires
        has_typename(ty@),
    ensures
        r@ == typename(name_views(ns@), ty@),
{
    let mut r = String::new();
    push_typename(&mut r, ty, ns);
    assert(r@ =~= typename(name_views(ns@), ty@));
    r
}

/// The mangled segment of a type.
pub fn to_mangled(ty: &Type, ns: &Vec<String>) -> (r: String)
    requires
        has_mangled(ty@),
    ensures
        r@ == mangled(name_views(ns@), ty@),
{
    let mut r = String::new();
    push_mangled(&mut r, ty, ns);
    assert(r@ =~= mangled(name_views(ns@), ty@));
    r
}

/// Appends the symbol of a boundary function.
pub fn push_fn_symbol(buf: &mut String, ns: &Vec<String>, ident: &str)
    ensures
        final(buf)@ == old(buf)@ + fn_symbol(name_views(ns@), ident@),
{
    let ghost start = buf@;
    push_ns_prefix(buf, ns, "$");
    buf.append("cxxbridge02$");
    buf.append(ident);
    assert(buf@ =~= start + fn_symbol(name_views(ns@), ident@));
}

/// The symbol of one operation of a generic instantiation: the bridge tag
/// and wrapper kind, the instance's mangled segment, and the operation.
pub open spec fn instance_symbol(kind: Seq<char>, inst: Seq<char>, op: Seq<char>) -> Seq<char> {
    kind + inst + "$"@ + op
}

/// Appends the symbol of one operation of a generic instantiation.
pub fn push_instance_symbol(buf: &mut String, kind: &str, inst: &str, op: &str)
    ensures
        final(buf)@ == old(buf)@ + instance_symbol(kind@, inst@, op@),
{
    let ghost start = buf@;
    buf.append(kind);
    buf.append(inst);
    buf.append("$");
    buf.append(op);
    assert(buf@ =~= start + instance_symbol(kind@, inst@, op@));
}

} // verus!
