use vstd::prelude::*;
use vstd::string::*;
use crate::link::{extern_fn_link_name, managed_fn_link};
use crate::syntax::{has_params, is_rust_string, ret_view, ExternFn, ExternType, Struct, Type, TypeView, Var};
use crate::types::{indirect, name_views, Types};
use crate::write::{comma_if, indirect_return, receiver_arg_text, returns_indirectly};

verus! {

/// The managed-side spelling of a type.
pub open spec fn rust_type_text(t: TypeView) -> Seq<char>
    decreases t,
{
    match t {
        TypeView::Ident(id) => id,
        TypeView::RustBox(i) => "Box<"@ + rust_type_text(*i) + ">"@,
        TypeView::RustVec(i) => "Vec<"@ + rust_type_text(*i) + ">"@,
        TypeView::UniquePtr(i) => "UniquePtr<"@ + rust_type_text(*i) + ">"@,
        TypeView::Vector(i) => "Vector<"@ + rust_type_text(*i) + ">"@,
        TypeView::Ref(i, m) => (if m {
            "&mut "@
        } else {
            "&"@
        }) + rust_type_text(*i),
        TypeView::Str => "&str"@,
        TypeView::Void => "()"@,
    }
}

/// The managed-side spelling of a type as it crosses the boundary: owned
/// pointers as raw pointers, strings and sequences as their transport types.
pub open spec fn extern_type_text(t: TypeView) -> Seq<char>
    decreases t,
{
    match t {
        TypeView::RustBox(i) => "*mut "@ + extern_type_text(*i),
        TypeView::UniquePtr(i) => "*mut "@ + extern_type_text(*i),
        TypeView::RustVec(i) => "::cxx::RustVec<"@ + rust_type_text(*i) + ">"@,
        TypeView::Ref(i, _) => match *i {
            TypeView::RustVec(j) => "&::cxx::RustVec<"@ + extern_type_text(*j) + ">"@,
            _ => if is_rust_string(*i) {
                "&::cxx::private::RustString"@
            } else {
                rust_type_text(t)
            },
        },
        TypeView::Str => "::cxx::private::RustStr"@,
        _ => if is_rust_string(t) {
            "::cxx::private::RustString"@
        } else {
            rust_type_text(t)
        },
    }
}

/// The return type of a boundary declaration on the managed side: none
/// where the result comes back through the out-parameter.
pub open spec fn extern_return_text(ret: Option<TypeView>, structs: Map<Seq<char>, bool>) -> Seq<
    char,
> {
    match ret {
        Some(t) => if indirect(structs, t) {
            Seq::empty()
        } else {
            " -> "@ + extern_type_text(t)
        },
        None => Seq::empty(),
    }
}

/// The return type of a managed-side signature.
pub open spec fn managed_return_text(ret: Option<TypeView>) -> Seq<char> {
    match ret {
        Some(t) => " -> "@ + rust_type_text(t),
        None => Seq::empty(),
    }
}

/// One parameter of the managed side's declaration of a native trampoline:
/// strings by const pointer, other indirect values by mutable pointer.
pub open spec fn decl_param_text(v: Var, structs: Map<Seq<char>, bool>) -> Seq<char> {
    v.ident@ + ": "@ + (if is_rust_string(v.ty@) {
        "*const "@
    } else if indirect(structs, v.ty@) {
        "*mut "@
    } else {
        Seq::empty()
    }) + extern_type_text(v.ty@)
}

/// The parameters of that declaration, separated by commas.
pub open spec fn decl_params_text(args: Seq<Var>, structs: Map<Seq<char>, bool>) -> Seq<char>
    decreases args.len(),
{
    if args.len() == 0 {
        Seq::empty()
    } else {
        decl_params_text(args.drop_last(), structs) + (if args.len() > 1 {
            ", "@
        } else {
            Seq::empty()
        }) + decl_param_text(args.last(), structs)
    }
}

/// The out-parameter of that declaration, where the result is indirect.
pub open spec fn decl_out_param_text(efn: &ExternFn, structs: Map<Seq<char>, bool>) -> Seq<char> {
    if returns_indirectly(efn, structs) {
        (if has_params(efn) {
            ", "@
        } else {
            Seq::empty()
        }) + "__return: *mut "@ + extern_type_text(efn.ret.unwrap()@)
    } else {
        Seq::empty()
    }
}

/// The managed side's declaration of a native function's trampoline, bound
/// by link name to the symbol that the native side defines.
pub open spec fn cxx_fn_decl_text(
    ns: Seq<Seq<char>>,
    efn: &ExternFn,
    structs: Map<Seq<char>, bool>,
) -> Seq<char> {
    "#[link_name = \""@ + managed_fn_link(ns, efn.ident@) + "\"]\nfn __"@ + efn.ident@ + "("@ + decl_receiver_text(efn)
        + decl_params_text(efn.args@, structs) + decl_out_param_text(efn, structs) + ")"@ + (
    if efn.throws {
        " -> ::cxx::private::Result"@
    } else {
        extern_return_text(ret_view(efn.ret), structs)
    }) + ";\n"@
}

fn push_rust_type(buf: &mut String, ty: &Type)
    ensures
        final(buf)@ == old(buf)@ + rust_type_text(ty@),
    decreases ty,
{
    proof {
        reveal_with_fuel(crate::syntax::type_view, 2);
    }
    let ghost start = buf@;
    match ty {
        Type::Ident(id) => buf.append(id.as_str()),
        Type::RustBox(i) => {
            buf.append("Box<");
            push_rust_type(buf, i);
            buf.append(">");
            assert(buf@ =~= start + rust_type_text(ty@));
        },
        Type::RustVec(i) => {
            buf.append("Vec<");
            push_rust_type(buf, i);
            buf.append(">");
            assert(buf@ =~= start + rust_type_text(ty@));
        },
        Type::UniquePtr(i) => {
            buf.append("UniquePtr<");
            push_rust_type(buf, i);
            buf.append(">");
            assert(buf@ =~= start + rust_type_text(ty@));
        },
        Type::Vector(i) => {
            buf.append("Vector<");
            push_rust_type(buf, i);
            buf.append(">");
            assert(buf@ =~= start + rust_type_text(ty@));
        },
        Type::Ref(i, m) => {
            if *m {
                buf.append("&mut ");
            } else {
                buf.append("&");
            }
            push_rust_type(buf, i);
            assert(buf@ =~= start + rust_type_text(ty@));
        },
        Type::Str => buf.append("&str"),
        Type::Void => buf.append("()"),
    }
}

#[verifier::rlimit(30)]
fn push_extern_type(buf: &mut String, ty: &Type)
    ensures
        final(buf)@ == old(buf)@ + extern_type_text(ty@),
    decreases ty,
{
    proof {
        reveal_with_fuel(crate::syntax::type_view, 3);
    }
    let ghost start = buf@;
    match ty {
        Type::RustBox(i) | Type::UniquePtr(i) => {
            buf.append("*mut ");
            push_extern_type(buf, i);
            assert(buf@ =~= start + extern_type_text(ty@));
        },
        Type::RustVec(i) => {
            buf.append("::cxx::RustVec<");
            push_rust_type(buf, i);
            buf.append(">");
            assert(buf@ =~= start + extern_type_text(ty@));
        },
        Type::Ref(i, _) => match &**i {
            Type::RustVec(j) => {
                buf.append("&::cxx::RustVec<");
                push_extern_type(buf, j);
                buf.append(">");
                assert(buf@ =~= start + extern_type_text(ty@));
            },
            _ => {
                if i.is_rust_string() {
                    buf.append("&::cxx::private::RustString");
                } else {
                    push_rust_type(buf, ty);
                }
            },
        },
        Type::Str => buf.append("::cxx::private::RustStr"),
        _ => {
            if ty.is_rust_string() {
                buf.append("::cxx::private::RustString");
            } else {
                push_rust_type(buf, ty);
            }
        },
    }
}

/// The managed-side spelling of a type as it crosses the boundary.
pub fn expand_extern_type(ty: &Type) -> (r: String)
    ensures
        r@ == extern_type_text(ty@),
{
    let mut r = String::new();
    push_extern_type(&mut r, ty);
    assert(r@ =~= extern_type_text(ty@));
    r
}

/// The return type of a boundary declaration on the managed side.
pub fn expand_extern_return_type(ret: &Option<Type>, types: &Types) -> (r: String)
    requires
        types.wf(),
    ensures
        r@ == extern_return_text(ret_view(*ret), types@.structs),
{
    let mut r = String::new();
    match ret {
        Some(t) => {
            if !types.needs_indirect_abi(t) {
                r.append(" -> ");
                push_extern_type(&mut r, t);
            }
        },
        None => {},
    }
    assert(r@ =~= extern_return_text(ret_view(*ret), types@.structs));
    r
}

/// The return type of a managed-side signature.
pub fn expand_return_type(ret: &Option<Type>) -> (r: String)
    ensures
        r@ == managed_return_text(ret_view(*ret)),
{
    let mut r = String::new();
    match ret {
        Some(t) => {
            r.append(" -> ");
            push_rust_type(&mut r, t);
        },
        None => {},
    }
    assert(r@ =~= managed_return_text(ret_view(*ret)));
    r
}

fn push_decl_params(buf: &mut String, args: &Vec<Var>, types: &Types)
    requires
        types.wf(),
    ensures
        final(buf)@ == old(buf)@ + decl_params_text(args@, types@.structs),
{
    let ghost start = buf@;
    let mut i: usize = 0;
    while i < args.len()
        invariant
            i <= args@.len(),
            types.wf(),
            buf@ == start + decl_params_text(args@.subrange(0, i as int), types@.structs),
        decreases args@.len() - i,
    {
        let ghost before = buf@;
        let v = &args[i];
        if i > 0 {
            buf.append(", ");
        }
        let ghost mid = buf@;
        buf.append(v.ident.as_str());
        buf.append(": ");
        if v.ty.is_rust_string() {
            buf.append("*const ");
        } else if types.needs_indirect_abi(&v.ty) {
            buf.append("*mut ");
        }
        push_extern_type(buf, &v.ty);
        assert(buf@ =~= mid + decl_param_text(*v, types@.structs));
        let ghost s = args@.subrange(0, i + 1);
        assert(s.drop_last() =~= args@.subrange(0, i as int));
        assert(buf@ =~= start + decl_params_text(s, types@.structs));
        i = i + 1;
    }
    assert(args@.subrange(0, i as int) =~= args@);
}

/// The managed side's declaration of a native function's trampoline.
#[verifier::rlimit(30)]
pub fn expand_cxx_function_decl(ns: &Vec<String>, efn: &ExternFn, types: &Types) -> (r: String)
    requires
        types.wf(),
    ensures
        r@ == cxx_fn_decl_text(name_views(ns@), efn, types@.structs),
{
    let ghost structs = types@.structs;
    let link = extern_fn_link_name(ns, efn.ident.as_str());
    let mut r = String::new();
    r.append("#[link_name = \"");
    r.append(link.as_str());
    r.append("\"]\nfn __");
    r.append(efn.ident.as_str());
    r.append("(");
    push_receiver(&mut r, efn, "_: ", false);
    push_decl_params(&mut r, &efn.args, types);
    let ghost b = r@;
    if indirect_return(efn, types) {
        match &efn.ret {
            Some(t) => {
                if efn.args.len() > 0 || efn.receiver.is_some() {
                    r.append(", ");
                }
                r.append("__return: *mut ");
                push_extern_type(&mut r, t);
            },
            None => {},
        }
    }
    assert(r@ =~= b + decl_out_param_text(efn, structs));
    r.append(")");
    let ghost c = r@;
    if efn.throws {
        r.append(" -> ::cxx::private::Result");
    } else {
        let ret = expand_extern_return_type(&efn.ret, types);
        r.append(ret.as_str());
    }
    r.append(";\n");
    assert(r@ =~= cxx_fn_decl_text(name_views(ns@), efn, structs));
    r
}

/// The fields of a value struct on the managed side, in declaration order.
pub open spec fn rust_fields_text(fields: Seq<Var>) -> Seq<char>
    decreases fields.len(),
{
    if fields.len() == 0 {
        Seq::empty()
    } else {
        rust_fields_text(fields.drop_last()) + "    pub "@ + fields.last().ident@ + ": "@
            + rust_type_text(fields.last().ty@) + ",\n"@
    }
}

/// Doc comment lines as managed-side doc comments.
pub open spec fn rust_doc_text(doc: Seq<String>) -> Seq<char>
    decreases doc.len(),
{
    if doc.len() == 0 {
        Seq::empty()
    } else {
        rust_doc_text(doc.drop_last()) + "///"@ + doc.last()@ + "\n"@
    }
}

/// Names separated by commas.
pub open spec fn comma_list(names: Seq<String>) -> Seq<char>
    decreases names.len(),
{
    if names.len() == 0 {
        Seq::empty()
    } else {
        comma_list(names.drop_last()) + (if names.len() > 1 {
            ", "@
        } else {
            Seq::empty()
        }) + names.last()@
    }
}

/// The managed-side definition of a value struct, with the native layout
/// and the traits that the declaration derives.
pub open spec fn rust_struct_text(s: &Struct) -> Seq<char> {
    rust_doc_text(s.doc@) + "#[derive("@ + comma_list(s.derives@) + ")]\n"@ + "#[repr(C)]\npub struct "@ + s.ident@ + " {\n"@ + rust_fields_text(
        s.fields@,
    ) + "}\n"@
}

/// The managed-side definition of a value struct: the same fields in the
/// same order as the native one, with the native layout.
pub fn expand_struct(strct: &Struct) -> (r: String)
    ensures
        r@ == rust_struct_text(strct),
{
    let mut r = String::new();
    push_rust_doc(&mut r, &strct.doc);
    r.append("#[derive(");
    push_comma_list(&mut r, &strct.derives);
    r.append(")]\n");
    r.append("#[repr(C)]\npub struct ");
    r.append(strct.ident.as_str());
    r.append(" {\n");
    let ghost start = r@;
    let mut i: usize = 0;
    while i < strct.fields.len()
        invariant
            i <= strct.fields@.len(),
            r@ == start + rust_fields_text(strct.fields@.subrange(0, i as int)),
        decreases strct.fields@.len() - i,
    {
        let f = &strct.fields[i];
        r.append("    pub ");
        r.append(f.ident.as_str());
        r.append(": ");
        push_rust_type(&mut r, &f.ty);
        r.append(",\n");
        let ghost s = strct.fields@.subrange(0, i + 1);
        assert(s.drop_last() =~= strct.fields@.subrange(0, i as int));
        assert(r@ =~= start + rust_fields_text(s));
        i = i + 1;
    }
    assert(strct.fields@.subrange(0, i as int) =~= strct.fields@);
    r.append("}\n");
    assert(r@ =~= rust_struct_text(strct));
    r
}

/// The managed-side stand-in of a native opaque type: held only behind
/// handles, never built by value.
pub open spec fn cxx_type_text(ident: Seq<char>) -> Seq<char> {
    "#[repr(C)]\npub struct "@ + ident + " {\n    _private: ::cxx::private::Opaque,\n}\n"@
}

/// The managed-side stand-in of a native opaque type.
pub fn expand_cxx_type(ety: &ExternType) -> (r: String)
    ensures
        r@ == cxx_type_text(ety.ident@),
{
    let mut r = String::new();
    r.append("#[repr(C)]\npub struct ");
    r.append(ety.ident.as_str());
    r.append(" {\n    _private: ::cxx::private::Opaque,\n}\n");
    assert(r@ =~= cxx_type_text(ety.ident@));
    r
}

/// The import of a managed opaque type into the bridge module.
pub open spec fn rust_type_import_text(ident: Seq<char>) -> Seq<char> {
    "use super::"@ + ident + ";\n"@
}

/// The import of a managed opaque type into the bridge module.
pub fn expand_rust_type(ety: &ExternType) -> (r: String)
    ensures
        r@ == rust_type_import_text(ety.ident@),
{
    let mut r = String::new();
    r.append("use super::");
    r.append(ety.ident.as_str());
    r.append(";\n");
    assert(r@ =~= rust_type_import_text(ety.ident@));
    r
}

/// The managed-side spelling of a type.
pub fn expand_rust_type_name(ty: &Type) -> (r: String)
    ensures
        r@ == rust_type_text(ty@),
{
    let mut r = String::new();
    push_rust_type(&mut r, ty);
    assert(r@ =~= rust_type_text(ty@));
    r
}

/// The places where the managed side writes a list of arguments.
#[derive(Clone, Copy, Debug, PartialEq, Eq, Structural)]
pub enum ManagedArg {
    /// Parameters of the safe function that calls a native function.
    ShimParam,
    /// Arguments that it hands to the native trampoline.
    ShimVar,
    /// Parameters of the exported entry point of a managed function.
    EntryParam,
    /// Arguments that the entry point hands to the managed function.
    EntryVar,
}

/// An argument handed to a native trampoline: ownership given up as raw
/// pointers, strings and sequences in their transport form, indirect values
/// by the address of their storage.
pub open spec fn shim_var_text(v: Var, structs: Map<Seq<char>, bool>) -> Seq<char> {
    let id = v.ident@;
    match v.ty@ {
        TypeView::RustBox(_) => "::std::boxed::Box::into_raw("@ + id + ")"@,
        TypeView::UniquePtr(_) => "::cxx::UniquePtr::into_raw("@ + id + ")"@,
        TypeView::RustVec(_) => "::cxx::RustVec::from("@ + id + ")"@,
        TypeView::Ref(i, _) => match *i {
            TypeView::RustVec(_) => "::cxx::RustVec::from_ref("@ + id + ")"@,
            _ => if is_rust_string(*i) {
                "::cxx::private::RustString::from_ref("@ + id + ")"@
            } else {
                id
            },
        },
        TypeView::Str => "::cxx::private::RustStr::from("@ + id + ")"@,
        t => if is_rust_string(t) {
            id + ".as_mut_ptr() as *const ::cxx::private::RustString"@
        } else if indirect(structs, t) {
            id + ".as_mut_ptr()"@
        } else {
            id
        },
    }
}

/// An argument that an entry point hands to the managed function: owners
/// rebuilt from raw pointers, strings taken over, indirect values read out
/// of the caller's storage.
pub open spec fn entry_var_text(v: Var, structs: Map<Seq<char>, bool>) -> Seq<char> {
    let id = v.ident@;
    match v.ty@ {
        TypeView::RustBox(_) => "::std::boxed::Box::from_raw("@ + id + ")"@,
        TypeView::UniquePtr(_) => "::cxx::UniquePtr::from_raw("@ + id + ")"@,
        TypeView::Ref(i, _) => if is_rust_string(*i) {
            id + ".as_string()"@
        } else {
            id
        },
        TypeView::Str => id + ".as_str()"@,
        t => if is_rust_string(t) {
            "::std::mem::take((*"@ + id + ").as_mut_string())"@
        } else if indirect(structs, t) {
            "::std::ptr::read("@ + id + ")"@
        } else {
            id
        },
    }
}

/// One argument in the given place.
pub open spec fn managed_arg_text(style: ManagedArg, v: Var, structs: Map<Seq<char>, bool>) -> Seq<char> {
    match style {
        ManagedArg::ShimParam => v.ident@ + ": "@ + rust_type_text(v.ty@),
        ManagedArg::ShimVar => shim_var_text(v, structs),
        ManagedArg::EntryParam => v.ident@ + ": "@ + (if indirect(structs, v.ty@) {
            "*mut "@
        } else {
            Seq::empty()
        }) + extern_type_text(v.ty@),
        ManagedArg::EntryVar => entry_var_text(v, structs),
    }
}

/// A list of arguments in the given place, separated by commas.
pub open spec fn managed_args_text(style: ManagedArg, args: Seq<Var>, structs: Map<Seq<char>, bool>) -> Seq<char>
    decreases args.len(),
{
    if args.len() == 0 {
        Seq::empty()
    } else {
        managed_args_text(style, args.drop_last(), structs) + (if args.len() > 1 {
            ", "@
        } else {
            Seq::empty()
        }) + managed_arg_text(style, args.last(), structs)
    }
}

#[verifier::rlimit(30)]
fn push_managed_arg(buf: &mut String, style: ManagedArg, v: &Var, types: &Types)
    requires
        types.wf(),
    ensures
        final(buf)@ == old(buf)@ + managed_arg_text(style, *v, types@.structs),
{
    proof {
        reveal_with_fuel(crate::syntax::type_view, 2);
    }
    let ghost start = buf@;
    let id = v.ident.as_str();
    match style {
        ManagedArg::ShimParam => {
            buf.append(id);
            buf.append(": ");
            push_rust_type(buf, &v.ty);
        },
        ManagedArg::EntryParam => {
            buf.append(id);
            buf.append(": ");
            if types.needs_indirect_abi(&v.ty) {
                buf.append("*mut ");
            }
            push_extern_type(buf, &v.ty);
        },
        ManagedArg::ShimVar => match &v.ty {
            Type::RustBox(_) => {
                buf.append("::std::boxed::Box::into_raw(");
                buf.append(id);
                buf.append(")");
            },
            Type::UniquePtr(_) => {
                buf.append("::cxx::UniquePtr::into_raw(");
                buf.append(id);
                buf.append(")");
            },
            Type::RustVec(_) => {
                buf.append("::cxx::RustVec::from(");
                buf.append(id);
                buf.append(")");
            },
            Type::Ref(i, _) => match &**i {
                Type::RustVec(_) => {
                    buf.append("::cxx::RustVec::from_ref(");
                    buf.append(id);
                    buf.append(")");
                },
                _ => {
                    if i.is_rust_string() {
                        buf.append("::cxx::private::RustString::from_ref(");
                        buf.append(id);
                        buf.append(")");
                    } else {
                        buf.append(id);
                    }
                },
            },
            Type::Str => {
                buf.append("::cxx::private::RustStr::from(");
                buf.append(id);
                buf.append(")");
            },
            t => {
                if t.is_rust_string() {
                    buf.append(id);
                    buf.append(".as_mut_ptr() as *const ::cxx::private::RustString");
                } else if types.needs_indirect_abi(t) {
                    buf.append(id);
                    buf.append(".as_mut_ptr()");
                } else {
                    buf.append(id);
                }
            },
        },
        ManagedArg::EntryVar => match &v.ty {
            Type::RustBox(_) => {
                buf.append("::std::boxed::Box::from_raw(");
                buf.append(id);
                buf.append(")");
            },
            Type::UniquePtr(_) => {
                buf.append("::cxx::UniquePtr::from_raw(");
                buf.append(id);
                buf.append(")");
            },
            Type::Ref(i, _) => {
                buf.append(id);
                if i.is_rust_string() {
                    buf.append(".as_string()");
                }
            },
            Type::Str => {
                buf.append(id);
                buf.append(".as_str()");
            },
            t => {
                if t.is_rust_string() {
                    buf.append("::std::mem::take((*");
                    buf.append(id);
                    buf.append(").as_mut_string())");
                } else if types.needs_indirect_abi(t) {
                    buf.append("::std::ptr::read(");
                    buf.append(id);
                    buf.append(")");
                } else {
                    buf.append(id);
                }
            },
        },
    }
    assert(buf@ =~= start + managed_arg_text(style, *v, types@.structs));
}

/// Appends a list of arguments in the given place.
pub fn push_managed_args(buf: &mut String, style: ManagedArg, args: &Vec<Var>, types: &Types)
    requires
        types.wf(),
    ensures
        final(buf)@ == old(buf)@ + managed_args_text(style, args@, types@.structs),
{
    let ghost start = buf@;
    let mut i: usize = 0;
    while i < args.len()
        invariant
            i <= args@.len(),
            types.wf(),
            buf@ == start + managed_args_text(style, args@.subrange(0, i as int), types@.structs),
        decreases args@.len() - i,
    {
        if i > 0 {
            buf.append(", ");
        }
        push_managed_arg(buf, style, &args[i], types);
        let ghost s = args@.subrange(0, i + 1);
        assert(s.drop_last() =~= args@.subrange(0, i as int));
        assert(buf@ =~= start + managed_args_text(style, s, types@.structs));
        i = i + 1;
    }
    assert(args@.subrange(0, i as int) =~= args@);
}

/// The result type of the safe function that calls a native function: a
/// fallible one returns the native exception as an error value.
pub open spec fn safe_ret_text(efn: &ExternFn) -> Seq<char> {
    if efn.throws {
        " -> ::std::result::Result<"@ + match efn.ret {
            Some(t) => rust_type_text(t@),
            None => "()"@,
        } + ", ::cxx::Exception>"@
    } else {
        managed_return_text(ret_view(efn.ret))
    }
}

/// The holder of one argument whose ownership the native side takes.
pub open spec fn setup_line(v: Var, structs: Map<Seq<char>, bool>) -> Seq<char> {
    if indirect(structs, v.ty@) {
        "        let mut "@ + v.ident@ + " = std::mem::MaybeUninit::new("@ + v.ident@ + ");\n"@
    } else {
        Seq::empty()
    }
}

/// The holders of every such argument, in order.
pub open spec fn setup_text(args: Seq<Var>, structs: Map<Seq<char>, bool>) -> Seq<char>
    decreases args.len(),
{
    if args.len() == 0 {
        Seq::empty()
    } else {
        setup_text(args.drop_last(), structs) + setup_line(args.last(), structs)
    }
}

/// The trampoline call with an out-parameter, as a statement of its own.
pub open spec fn indirect_call_text(efn: &ExternFn, structs: Map<Seq<char>, bool>) -> Seq<char> {
    if returns_indirectly(efn, structs) {
        "        let mut __return = ::std::mem::MaybeUninit::<"@ + extern_type_text(efn.ret.unwrap()@)
            + ">::uninit();\n"@ + "        __"@ + efn.ident@ + "("@ + receiver_arg_text(efn) + managed_args_text(
            ManagedArg::ShimVar,
            efn.args@,
            structs,
        ) + (if has_params(efn) {
            ", "@
        } else {
            Seq::empty()
        }) + "__return.as_mut_ptr())"@ + (if efn.throws {
            ".exception()?"@
        } else {
            Seq::empty()
        }) + ";\n"@
    } else {
        Seq::empty()
    }
}

/// The expression that yields the trampoline's result.
pub open spec fn call_text(efn: &ExternFn, structs: Map<Seq<char>, bool>) -> Seq<char> {
    if returns_indirectly(efn, structs) {
        if efn.throws {
            "::std::result::Result::Ok(__return.assume_init())"@
        } else {
            "__return.assume_init()"@
        }
    } else {
        "__"@ + efn.ident@ + "("@ + receiver_arg_text(efn) + managed_args_text(ManagedArg::ShimVar, efn.args@, structs)
            + ")"@ + (if efn.throws {
            ".exception()"@
        } else {
            Seq::empty()
        })
    }
}

/// A native result turned into its managed form: owners rebuilt from raw
/// pointers, transport strings into managed strings; inside the `Ok` of a
/// fallible call.
pub open spec fn result_conversion_text(ret: Option<TypeView>, throws: bool, call: Seq<char>) -> Seq<char> {
    match ret {
        Some(TypeView::RustBox(_)) => if throws {
            call + ".map(|r| ::std::boxed::Box::from_raw(r))"@
        } else {
            "::std::boxed::Box::from_raw("@ + call + ")"@
        },
        Some(TypeView::UniquePtr(_)) => if throws {
            call + ".map(|r| ::cxx::UniquePtr::from_raw(r))"@
        } else {
            "::cxx::UniquePtr::from_raw("@ + call + ")"@
        },
        Some(TypeView::Ref(i, _)) => if is_rust_string(*i) {
            call + (if throws {
                ".map(|r| r.as_string())"@
            } else {
                ".as_string()"@
            })
        } else {
            call
        },
        Some(TypeView::Str) => call + (if throws {
            ".map(|r| r.as_str())"@
        } else {
            ".as_str()"@
        }),
        Some(t) => if is_rust_string(t) {
            call + (if throws {
                ".map(|r| r.into_string())"@
            } else {
                ".into_string()"@
            })
        } else {
            call
        },
        None => call,
    }
}

/// The safe managed-side function that calls a native function through its
/// trampoline; a method stands in an `impl` block of its receiver's type.
pub open spec fn cxx_fn_shim_text(
    ns: Seq<Seq<char>>,
    efn: &ExternFn,
    structs: Map<Seq<char>, bool>,
) -> Seq<char> {
    match efn.receiver {
        Some(r) => "impl "@ + r.ident@ + " {\n"@ + cxx_fn_item_text(ns, efn, structs) + "}\n"@,
        None => cxx_fn_item_text(ns, efn, structs),
    }
}

/// The function itself, without the `impl` block around a method.
pub open spec fn cxx_fn_item_text(
    ns: Seq<Seq<char>>,
    efn: &ExternFn,
    structs: Map<Seq<char>, bool>,
) -> Seq<char> {
    rust_doc_text(efn.doc@) + "pub fn "@ + efn.ident@ + "("@ + self_param_text(efn) + managed_args_text(
        ManagedArg::ShimParam,
        efn.args@,
        structs,
    ) + ")"@ + safe_ret_text(efn) + " {\n    extern \"C\" {\n"@ + cxx_fn_decl_text(ns, efn, structs)
        + "    }\n    unsafe {\n"@ + setup_text(efn.args@, structs) + indirect_call_text(efn, structs)
        + "        "@ + result_conversion_text(ret_view(efn.ret), efn.throws, call_text(efn, structs))
        + "\n    }\n}\n"@
}

fn push_safe_ret(buf: &mut String, efn: &ExternFn)
    ensures
        final(buf)@ == old(buf)@ + safe_ret_text(efn),
{
    let ghost start = buf@;
    if efn.throws {
        buf.append(" -> ::std::result::Result<");
        match &efn.ret {
            Some(t) => push_rust_type(buf, t),
            None => buf.append("()"),
        }
        buf.append(", ::cxx::Exception>");
    } else {
        let r = expand_return_type(&efn.ret);
        buf.append(r.as_str());
    }
    assert(buf@ =~= start + safe_ret_text(efn));
}

fn push_setup(buf: &mut String, args: &Vec<Var>, types: &Types)
    requires
        types.wf(),
    ensures
        final(buf)@ == old(buf)@ + setup_text(args@, types@.structs),
{
    let ghost start = buf@;
    let mut i: usize = 0;
    while i < args.len()
        invariant
            i <= args@.len(),
            types.wf(),
            buf@ == start + setup_text(args@.subrange(0, i as int), types@.structs),
        decreases args@.len() - i,
    {
        let ghost before = buf@;
        let v = &args[i];
        if types.needs_indirect_abi(&v.ty) {
            buf.append("        let mut ");
            buf.append(v.ident.as_str());
            buf.append(" = std::mem::MaybeUninit::new(");
            buf.append(v.ident.as_str());
            buf.append(");\n");
        }
        assert(buf@ =~= before + setup_line(*v, types@.structs));
        let ghost s = args@.subrange(0, i + 1);
        assert(s.drop_last() =~= args@.subrange(0, i as int));
        assert(buf@ =~= start + setup_text(s, types@.structs));
        i = i + 1;
    }
    assert(args@.subrange(0, i as int) =~= args@);
}

#[verifier::rlimit(30)]
fn push_indirect_call(buf: &mut String, efn: &ExternFn, types: &Types)
    requires
        types.wf(),
    ensures
        final(buf)@ == old(buf)@ + indirect_call_text(efn, types@.structs),
{
    let ghost start = buf@;
    if indirect_return(efn, types) {
        match &efn.ret {
            Some(t) => {
                buf.append("        let mut __return = ::std::mem::MaybeUninit::<");
                push_extern_type(buf, t);
                buf.append(">::uninit();\n");
                buf.append("        __");
                buf.append(efn.ident.as_str());
                buf.append("(");
                push_self_arg(buf, efn);
                push_managed_args(buf, ManagedArg::ShimVar, &efn.args, types);
                if efn.args.len() > 0 || efn.receiver.is_some() {
                    buf.append(", ");
                }
                buf.append("__return.as_mut_ptr())");
                if efn.throws {
                    buf.append(".exception()?");
                }
                buf.append(";\n");
            },
            None => {},
        }
    }
    assert(buf@ =~= start + indirect_call_text(efn, types@.structs));
}

fn call_string(efn: &ExternFn, types: &Types) -> (r: String)
    requires
        types.wf(),
    ensures
        r@ == call_text(efn, types@.structs),
{
    let mut r = String::new();
    if indirect_return(efn, types) {
        if efn.throws {
            r.append("::std::result::Result::Ok(__return.assume_init())");
        } else {
            r.append("__return.assume_init()");
        }
    } else {
        r.append("__");
        r.append(efn.ident.as_str());
        r.append("(");
        push_self_arg(&mut r, efn);
        push_managed_args(&mut r, ManagedArg::ShimVar, &efn.args, types);
        r.append(")");
        if efn.throws {
            r.append(".exception()");
        }
    }
    assert(r@ =~= call_text(efn, types@.structs));
    r
}

#[verifier::rlimit(30)]
fn push_result_conversion(buf: &mut String, ret: &Option<Type>, throws: bool, call: &str)
    ensures
        final(buf)@ == old(buf)@ + result_conversion_text(ret_view(*ret), throws, call@),
{
    proof {
        reveal_with_fuel(crate::syntax::type_view, 2);
    }
    let ghost start = buf@;
    match ret {
        Some(Type::RustBox(_)) => {
            if throws {
                buf.append(call);
                buf.append(".map(|r| ::std::boxed::Box::from_raw(r))");
            } else {
                buf.append("::std::boxed::Box::from_raw(");
                buf.append(call);
                buf.append(")");
            }
        },
        Some(Type::UniquePtr(_)) => {
            if throws {
                buf.append(call);
                buf.append(".map(|r| ::cxx::UniquePtr::from_raw(r))");
            } else {
                buf.append("::cxx::UniquePtr::from_raw(");
                buf.append(call);
                buf.append(")");
            }
        },
        Some(Type::Ref(i, _)) => {
            buf.append(call);
            if i.is_rust_string() {
                if throws {
                    buf.append(".map(|r| r.as_string())");
                } else {
                    buf.append(".as_string()");
                }
            }
        },
        Some(Type::Str) => {
            buf.append(call);
            if throws {
                buf.append(".map(|r| r.as_str())");
            } else {
                buf.append(".as_str()");
            }
        },
        Some(t) => {
            buf.append(call);
            if t.is_rust_string() {
                if throws {
                    buf.append(".map(|r| r.into_string())");
                } else {
                    buf.append(".into_string()");
                }
            }
        },
        None => buf.append(call),
    }
    assert(buf@ =~= start + result_conversion_text(ret_view(*ret), throws, call@));
}

#[verifier::rlimit(30)]
fn cxx_fn_item_string(ns: &Vec<String>, efn: &ExternFn, types: &Types) -> (r: String)
    requires
        types.wf(),
    ensures
        r@ == cxx_fn_item_text(name_views(ns@), efn, types@.structs),
{
    let ghost structs = types@.structs;
    let mut r = String::new();
    let mut i: usize = 0;
    while i < efn.doc.len()
        invariant
            i <= efn.doc@.len(),
            r@ == rust_doc_text(efn.doc@.subrange(0, i as int)),
        decreases efn.doc@.len() - i,
    {
        r.append("///");
        r.append(efn.doc[i].as_str());
        r.append("\n");
        let ghost s = efn.doc@.subrange(0, i + 1);
        assert(s.drop_last() =~= efn.doc@.subrange(0, i as int));
        assert(r@ =~= rust_doc_text(s));
        i = i + 1;
    }
    assert(efn.doc@.subrange(0, i as int) =~= efn.doc@);
    r.append("pub fn ");
    r.append(efn.ident.as_str());
    r.append("(");
    push_receiver(&mut r, efn, "", true);
    push_managed_args(&mut r, ManagedArg::ShimParam, &efn.args, types);
    r.append(")");
    push_safe_ret(&mut r, efn);
    r.append(" {\n    extern \"C\" {\n");
    let decl = expand_cxx_function_decl(ns, efn, types);
    r.append(decl.as_str());
    r.append("    }\n    unsafe {\n");
    let ghost b1 = r@;
    push_setup(&mut r, &efn.args, types);
    push_indirect_call(&mut r, efn, types);
    r.append("        ");
    let call = call_string(efn, types);
    push_result_conversion(&mut r, &efn.ret, efn.throws, call.as_str());
    r.append("\n    }\n}\n");
    assert(r@ =~= cxx_fn_item_text(name_views(ns@), efn, structs));
    r
}

/// The safe managed-side function that calls a native function: its
/// arguments lowered for the trampoline, storage for an indirect result,
/// and the result raised back to its managed form; a fallible one returns
/// the native exception as an error value. A method stands in an `impl`
/// block of its receiver's type.
pub fn expand_cxx_function_shim(ns: &Vec<String>, efn: &ExternFn, types: &Types) -> (r: String)
    requires
        types.wf(),
    ensures
        r@ == cxx_fn_shim_text(name_views(ns@), efn, types@.structs),
{
    let item = cxx_fn_item_string(ns, efn, types);
    match &efn.receiver {
        Some(rcv) => {
            let mut r = String::new();
            r.append("impl ");
            r.append(rcv.ident.as_str());
            r.append(" {\n");
            r.append(item.as_str());
            r.append("}\n");
            assert(r@ =~= cxx_fn_shim_text(name_views(ns@), efn, types@.structs));
            r
        },
        None => item,
    }
}

/// The out-parameter of an entry point, where the result is indirect.
pub open spec fn entry_out_param_text(efn: &ExternFn, structs: Map<Seq<char>, bool>) -> Seq<char> {
    if returns_indirectly(efn, structs) {
        (if has_params(efn) {
            ", "@
        } else {
            Seq::empty()
        }) + "__return: *mut "@ + extern_type_text(efn.ret.unwrap()@)
    } else {
        Seq::empty()
    }
}

/// A managed result lowered for the native side: owners given up as raw
/// pointers, strings in their transport form.
pub open spec fn entry_result_text(ret: Option<TypeView>, call: Seq<char>) -> Seq<char> {
    match ret {
        Some(TypeView::RustBox(_)) => "::std::boxed::Box::into_raw("@ + call + ")"@,
        Some(TypeView::UniquePtr(_)) => "::cxx::UniquePtr::into_raw("@ + call + ")"@,
        Some(TypeView::Ref(i, _)) => if is_rust_string(*i) {
            "::cxx::private::RustString::from_ref("@ + call + ")"@
        } else {
            call
        },
        Some(TypeView::Str) => "::cxx::private::RustStr::from("@ + call + ")"@,
        Some(t) => if is_rust_string(t) {
            "::cxx::private::RustString::from("@ + call + ")"@
        } else {
            call
        },
        None => call,
    }
}

/// The body of an entry point: the call of the managed function, its error
/// or indirect result written through the out-parameter, and any unwind
/// caught at the boundary.
pub open spec fn entry_expr_text(efn: &ExternFn, structs: Map<Seq<char>, bool>) -> Seq<char> {
    let call = entry_callee_text(efn) + managed_args_text(
        ManagedArg::EntryVar,
        efn.args@,
        structs,
    ) + ")"@;
    let e = entry_result_text(ret_view(efn.ret), call);
    let guarded = if efn.throws {
        "::cxx::private::r#try("@ + (if efn.ret is Some {
            "__return"@
        } else {
            "&mut ()"@
        }) + ", "@ + e + ")"@
    } else if returns_indirectly(efn, structs) {
        "::std::ptr::write(__return, "@ + e + ")"@
    } else {
        e
    };
    "::cxx::private::catch_unwind(__fn, move || "@ + guarded + ")"@
}

/// The entry point that the managed side exports for one of its functions,
/// under the symbol that the native side calls.
pub open spec fn rust_fn_entry_text(
    ns: Seq<Seq<char>>,
    efn: &ExternFn,
    structs: Map<Seq<char>, bool>,
) -> Seq<char> {
    "#[doc(hidden)]\n#[export_name = \""@ + managed_fn_link(ns, efn.ident@)
        + "\"]\nunsafe extern \"C\" fn __"@ + efn.ident@ + "("@ + entry_receiver_text(efn) + managed_args_text(
        ManagedArg::EntryParam,
        efn.args@,
        structs,
    ) + entry_out_param_text(efn, structs) + ")"@ + (if efn.throws {
        " -> ::cxx::private::Result"@
    } else {
        extern_return_text(ret_view(efn.ret), structs)
    }) + " {\n    let __fn = concat!(module_path!(), \"::"@ + efn.ident@ + "\");\n    "@
        + entry_expr_text(efn, structs) + "\n}\n"@
}

#[verifier::rlimit(30)]
fn push_entry_result(buf: &mut String, ret: &Option<Type>, call: &str)
    ensures
        final(buf)@ == old(buf)@ + entry_result_text(ret_view(*ret), call@),
{
    proof {
        reveal_with_fuel(crate::syntax::type_view, 2);
    }
    let ghost start = buf@;
    match ret {
        Some(Type::RustBox(_)) => {
            buf.append("::std::boxed::Box::into_raw(");
            buf.append(call);
            buf.append(")");
        },
        Some(Type::UniquePtr(_)) => {
            buf.append("::cxx::UniquePtr::into_raw(");
            buf.append(call);
            buf.append(")");
        },
        Some(Type::Ref(i, _)) => {
            if i.is_rust_string() {
                buf.append("::cxx::private::RustString::from_ref(");
                buf.append(call);
                buf.append(")");
            } else {
                buf.append(call);
            }
        },
        Some(Type::Str) => {
            buf.append("::cxx::private::RustStr::from(");
            buf.append(call);
            buf.append(")");
        },
        Some(t) => {
            if t.is_rust_string() {
                buf.append("::cxx::private::RustString::from(");
                buf.append(call);
                buf.append(")");
            } else {
                buf.append(call);
            }
        },
        None => buf.append(call),
    }
    assert(buf@ =~= start + entry_result_text(ret_view(*ret), call@));
}

#[verifier::rlimit(30)]
fn entry_expr_string(efn: &ExternFn, types: &Types) -> (r: String)
    requires
        types.wf(),
    ensures
        r@ == entry_expr_text(efn, types@.structs),
{
    let mut call = String::new();
    match &efn.receiver {
        Some(r) => {
            call.append(r.ident.as_str());
            call.append("::");
            call.append(efn.ident.as_str());
            call.append("(__self");
            if efn.args.len() > 0 {
                call.append(", ");
            }
        },
        None => {
            call.append("super::");
            call.append(efn.ident.as_str());
            call.append("(");
        },
    }
    push_managed_args(&mut call, ManagedArg::EntryVar, &efn.args, types);
    call.append(")");
    let mut e = String::new();
    push_entry_result(&mut e, &efn.ret, call.as_str());
    assert(e@ =~= entry_result_text(ret_view(efn.ret), call@));
    let mut r = String::new();
    r.append("::cxx::private::catch_unwind(__fn, move || ");
    if efn.throws {
        r.append("::cxx::private::r#try(");
        match &efn.ret {
            Some(_) => r.append("__return"),
            None => r.append("&mut ()"),
        }
        r.append(", ");
        r.append(e.as_str());
        r.append(")");
    } else if indirect_return(efn, types) {
        r.append("::std::ptr::write(__return, ");
        r.append(e.as_str());
        r.append(")");
    } else {
        r.append(e.as_str());
    }
    r.append(")");
    assert(r@ =~= entry_expr_text(efn, types@.structs));
    r
}

/// The entry point that the managed side exports for one of its functions:
/// it rebuilds the arguments, calls the function, writes an error or an
/// indirect result through the out-parameter, and stops an unwind at the
/// boundary.
#[verifier::rlimit(30)]
pub fn expand_rust_function_shim(ns: &Vec<String>, efn: &ExternFn, types: &Types) -> (r: String)
    requires
        types.wf(),
    ensures
        r@ == rust_fn_entry_text(name_views(ns@), efn, types@.structs),
{
    let ghost structs = types@.structs;
    let link = extern_fn_link_name(ns, efn.ident.as_str());
    let mut r = String::new();
    r.append("#[doc(hidden)]\n#[export_name = \"");
    r.append(link.as_str());
    r.append("\"]\nunsafe extern \"C\" fn __");
    r.append(efn.ident.as_str());
    r.append("(");
    push_receiver(&mut r, efn, "__self: ", false);
    push_managed_args(&mut r, ManagedArg::EntryParam, &efn.args, types);
    let ghost b = r@;
    if indirect_return(efn, types) {
        match &efn.ret {
            Some(t) => {
                if efn.args.len() > 0 || efn.receiver.is_some() {
                    r.append(", ");
                }
                r.append("__return: *mut ");
                push_extern_type(&mut r, t);
            },
            None => {},
        }
    }
    assert(r@ =~= b + entry_out_param_text(efn, structs));
    r.append(")");
    if efn.throws {
        r.append(" -> ::cxx::private::Result");
    } else {
        let ret = expand_extern_return_type(&efn.ret, types);
        r.append(ret.as_str());
    }
    r.append(" {\n    let __fn = concat!(module_path!(), \"::");
    r.append(efn.ident.as_str());
    r.append("\");\n    ");
    let e = entry_expr_string(efn, types);
    r.append(e.as_str());
    r.append("\n}\n");
    assert(r@ =~= rust_fn_entry_text(name_views(ns@), efn, structs));
    r
}

/// Appends doc comment lines as managed-side doc comments.
pub fn push_rust_doc(buf: &mut String, doc: &Vec<String>)
    ensures
        final(buf)@ == old(buf)@ + rust_doc_text(doc@),
{
    let ghost start = buf@;
    let mut i: usize = 0;
    while i < doc.len()
        invariant
            i <= doc@.len(),
            buf@ == start + rust_doc_text(doc@.subrange(0, i as int)),
        decreases doc@.len() - i,
    {
        buf.append("///");
        buf.append(doc[i].as_str());
        buf.append("\n");
        let ghost s = doc@.subrange(0, i + 1);
        assert(s.drop_last() =~= doc@.subrange(0, i as int));
        assert(buf@ =~= start + rust_doc_text(s));
        i = i + 1;
    }
    assert(doc@.subrange(0, i as int) =~= doc@);
}

/// Appends names separated by commas.
pub fn push_comma_list(buf: &mut String, names: &Vec<String>)
    ensures
        final(buf)@ == old(buf)@ + comma_list(names@),
{
    let ghost start = buf@;
    let mut i: usize = 0;
    while i < names.len()
        invariant
            i <= names@.len(),
            buf@ == start + comma_list(names@.subrange(0, i as int)),
        decreases names@.len() - i,
    {
        if i > 0 {
            buf.append(", ");
        }
        buf.append(names[i].as_str());
        let ghost s = names@.subrange(0, i + 1);
        assert(s.drop_last() =~= names@.subrange(0, i as int));
        assert(buf@ =~= start + comma_list(s));
        i = i + 1;
    }
    assert(names@.subrange(0, i as int) =~= names@);
}

/// `&mut ` or `&`.
pub open spec fn ref_text(mutable: bool) -> Seq<char> {
    if mutable {
        "&mut "@
    } else {
        "&"@
    }
}

/// The receiver as the first parameter of a declaration: `name: &T`, or
/// `&self` where `as_self` is set.
pub open spec fn receiver_text(efn: &ExternFn, name: Seq<char>, as_self: bool) -> Seq<char> {
    match efn.receiver {
        Some(r) => name + ref_text(r.mutable) + (if as_self {
            "self"@
        } else {
            r.ident@
        }) + comma_if(efn.args@.len() > 0),
        None => Seq::empty(),
    }
}

/// The receiver in the managed declaration of a native method.
pub open spec fn decl_receiver_text(efn: &ExternFn) -> Seq<char> {
    receiver_text(efn, "_: "@, false)
}

/// The receiver of the safe method that calls a native method.
pub open spec fn self_param_text(efn: &ExternFn) -> Seq<char> {
    receiver_text(efn, ""@, true)
}

/// The receiver of the entry point of a managed method.
pub open spec fn entry_receiver_text(efn: &ExternFn) -> Seq<char> {
    receiver_text(efn, "__self: "@, false)
}

/// The function that an entry point calls: the method on its type with the
/// receiver first, or the free function of the enclosing module.
pub open spec fn entry_callee_text(efn: &ExternFn) -> Seq<char> {
    match efn.receiver {
        Some(r) => r.ident@ + "::"@ + efn.ident@ + "(__self"@ + comma_if(efn.args@.len() > 0),
        None => "super::"@ + efn.ident@ + "("@,
    }
}

/// Appends the receiver as the first parameter.
pub fn push_receiver(buf: &mut String, efn: &ExternFn, name: &str, as_self: bool)
    ensures
        final(buf)@ == old(buf)@ + receiver_text(efn, name@, as_self),
{
    let ghost start = buf@;
    match &efn.receiver {
        Some(r) => {
            buf.append(name);
            if r.mutable {
                buf.append("&mut ");
            } else {
                buf.append("&");
            }
            if as_self {
                buf.append("self");
            } else {
                buf.append(r.ident.as_str());
            }
            if efn.args.len() > 0 {
                buf.append(", ");
            }
        },
        None => {},
    }
    assert(buf@ =~= start + receiver_text(efn, name@, as_self));
}

fn push_self_arg(buf: &mut String, efn: &ExternFn)
    ensures
        final(buf)@ == old(buf)@ + receiver_arg_text(efn),
{
    let ghost start = buf@;
    match &efn.receiver {
        Some(_) => {
            buf.append("self");
            if efn.args.len() > 0 {
                buf.append(", ");
            }
        },
        None => {},
    }
    assert(buf@ =~= start + receiver_arg_text(efn));
}

} // verus!
