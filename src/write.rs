use vstd::prelude::*;
use vstd::string::*;
use crate::atom::{atom_cxx, atom_of, Atom};
use crate::mangle::{fn_symbol, push_fn_symbol};
use crate::out::{keeps_frame, put, IncludesView, OutFile, OutState};
use crate::syntax::{
    fn_types_ok, has_params, is_rust_string, no_void, ret_view, struct_types_ok, vars_no_void, Api,
    ExternFn, Struct, Type, TypeView, Var,
};
use crate::types::{indirect, name_views, Types};

verus! {

/// The native spelling of a type.
pub open spec fn type_text(t: TypeView) -> Seq<char>
    decreases t,
{
    match t {
        TypeView::Ident(id) => match atom_of(id) {
            Some(a) => atom_cxx(a),
            None => id,
        },
        TypeView::RustBox(i) => "::rust::Box<"@ + type_text(*i) + ">"@,
        TypeView::RustVec(i) => "::rust::Vec<"@ + type_text(*i) + ">"@,
        TypeView::UniquePtr(i) => "::std::unique_ptr<"@ + type_text(*i) + ">"@,
        TypeView::Vector(i) => "::std::vector<"@ + type_text(*i) + ">"@,
        TypeView::Ref(i, m) => const_text(m) + type_text(*i) + " &"@,
        TypeView::Str => "::rust::Str"@,
        TypeView::Void => Seq::empty(),
    }
}

/// `const ` before a shared borrow.
pub open spec fn const_text(mutable: bool) -> Seq<char> {
    if mutable {
        Seq::empty()
    } else {
        "const "@
    }
}

/// The native spelling of a type, ready for a name to follow.
pub open spec fn type_space_text(t: TypeView) -> Seq<char> {
    type_text(t) + match t {
        TypeView::Ref(_, _) => Seq::empty(),
        _ => " "@,
    }
}

/// The native return type of a signature.
pub open spec fn return_type_text(ret: Option<TypeView>) -> Seq<char> {
    match ret {
        None => "void "@,
        Some(t) => type_space_text(t),
    }
}

/// Whether a function hands its result back through an out-parameter: a
/// fallible one always, another where its return type needs indirection.
pub open spec fn returns_indirectly(efn: &ExternFn, structs: Map<Seq<char>, bool>) -> bool {
    match efn.ret {
        Some(t) => efn.throws || indirect(structs, t@),
        None => false,
    }
}

/// The return type of a trampoline, in its lowered form.
pub open spec fn extern_return_type_text(
    ret: Option<TypeView>,
    structs: Map<Seq<char>, bool>,
) -> Seq<char> {
    match ret {
        Some(TypeView::RustBox(i)) => type_space_text(*i) + "*"@,
        Some(TypeView::UniquePtr(i)) => type_space_text(*i) + "*"@,
        Some(TypeView::Ref(i, m)) => const_text(m) + type_text(*i) + " *"@,
        Some(TypeView::Str) => "::rust::Str::Repr "@,
        Some(t) => if indirect(structs, t) {
            "void "@
        } else {
            return_type_text(ret)
        },
        None => return_type_text(ret),
    }
}

/// The type part of a trampoline parameter: owned pointers and native
/// sequences travel as raw pointers, string slices as their two-word record.
pub open spec fn extern_arg_type_text(t: TypeView) -> Seq<char> {
    match t {
        TypeView::RustBox(i) => type_space_text(*i) + "*"@,
        TypeView::UniquePtr(i) => type_space_text(*i) + "*"@,
        TypeView::Vector(i) => type_space_text(*i) + "*"@,
        TypeView::Str => "::rust::Str::Repr "@,
        _ => type_space_text(t),
    }
}

/// `*` where the argument needs indirection.
pub open spec fn star_if(b: bool) -> Seq<char> {
    if b {
        "*"@
    } else {
        Seq::empty()
    }
}

/// A parameter of a trampoline, in its lowered form.
pub open spec fn extern_arg_text(v: Var, structs: Map<Seq<char>, bool>) -> Seq<char> {
    extern_arg_type_text(v.ty@) + star_if(indirect(structs, v.ty@)) + v.ident@
}

/// Appends the native spelling of a type.
pub fn push_type(buf: &mut String, ty: &Type)
    requires
        no_void(ty@),
    ensures
        final(buf)@ == old(buf)@ + type_text(ty@),
    decreases ty,
{
    proof {
        reveal_with_fuel(crate::syntax::type_view, 2);
    }
    let ghost start = buf@;
    match ty {
        Type::Ident(id) => match Atom::from(id.as_str()) {
            Some(a) => buf.append(a.to_cxx()),
            None => buf.append(id.as_str()),
        },
        Type::RustBox(i) => {
            buf.append("::rust::Box<");
            push_type(buf, i);
            buf.append(">");
            assert(buf@ =~= start + ("::rust::Box<"@ + type_text(i@) + ">"@));
        },
        Type::RustVec(i) => {
            buf.append("::rust::Vec<");
            push_type(buf, i);
            buf.append(">");
            assert(buf@ =~= start + ("::rust::Vec<"@ + type_text(i@) + ">"@));
        },
        Type::UniquePtr(i) => {
            buf.append("::std::unique_ptr<");
            push_type(buf, i);
            buf.append(">");
            assert(buf@ =~= start + ("::std::unique_ptr<"@ + type_text(i@) + ">"@));
        },
        Type::Vector(i) => {
            buf.append("::std::vector<");
            push_type(buf, i);
            buf.append(">");
            assert(buf@ =~= start + ("::std::vector<"@ + type_text(i@) + ">"@));
        },
        Type::Ref(i, m) => {
            if !*m {
                buf.append("const ");
            }
            push_type(buf, i);
            buf.append(" &");
            assert(buf@ =~= start + (const_text(*m) + type_text(i@) + " &"@));
        },
        Type::Str => buf.append("::rust::Str"),
        Type::Void => {},
    }
}

/// Appends the native spelling of a type, ready for a name to follow.
pub fn push_type_space(buf: &mut String, ty: &Type)
    requires
        no_void(ty@),
    ensures
        final(buf)@ == old(buf)@ + type_space_text(ty@),
{
    let ghost start = buf@;
    push_type(buf, ty);
    match ty {
        Type::Ref(_, _) => {
            assert(buf@ =~= start + type_space_text(ty@));
        },
        _ => {
            buf.append(" ");
            assert(buf@ =~= start + type_space_text(ty@));
        },
    }
}

/// Appends the native return type of a signature.
pub fn push_return_type(buf: &mut String, ret: &Option<Type>)
    requires
        match ret {
            Some(t) => no_void(t@),
            None => true,
        },
    ensures
        final(buf)@ == old(buf)@ + return_type_text(ret_view(*ret)),
{
    match ret {
        None => buf.append("void "),
        Some(t) => push_type_space(buf, t),
    }
}

/// Appends the return type of a trampoline.
#[verifier::rlimit(30)]
pub fn push_extern_return_type(buf: &mut String, ret: &Option<Type>, types: &Types)
    requires
        types.wf(),
        match ret {
            Some(t) => no_void(t@),
            None => true,
        },
    ensures
        final(buf)@ == old(buf)@ + extern_return_type_text(ret_view(*ret), types@.structs),
{
    proof {
        reveal_with_fuel(crate::syntax::type_view, 2);
    }
    let ghost start = buf@;
    match ret {
        Some(Type::RustBox(i)) | Some(Type::UniquePtr(i)) => {
            push_type_space(buf, i);
            buf.append("*");
            assert(buf@ =~= start + (type_space_text(i@) + "*"@));
        },
        Some(Type::Ref(i, m)) => {
            if !*m {
                buf.append("const ");
            }
            push_type(buf, i);
            buf.append(" *");
            assert(buf@ =~= start + (const_text(*m) + type_text(i@) + " *"@));
        },
        Some(Type::Str) => buf.append("::rust::Str::Repr "),
        Some(t) => {
            if types.needs_indirect_abi(t) {
                buf.append("void ");
            } else {
                push_return_type(buf, ret);
            }
        },
        None => push_return_type(buf, ret),
    }
}

/// Appends a parameter of a trampoline.
pub fn push_extern_arg(buf: &mut String, arg: &Var, types: &Types)
    requires
        types.wf(),
        no_void(arg.ty@),
    ensures
        final(buf)@ == old(buf)@ + extern_arg_text(*arg, types@.structs),
{
    proof {
        reveal_with_fuel(crate::syntax::type_view, 2);
    }
    let ghost start = buf@;
    match &arg.ty {
        Type::RustBox(i) | Type::UniquePtr(i) | Type::Vector(i) => {
            push_type_space(buf, i);
            buf.append("*");
        },
        Type::Str => buf.append("::rust::Str::Repr "),
        _ => push_type_space(buf, &arg.ty),
    }
    let ghost mid = buf@;
    if types.needs_indirect_abi(&arg.ty) {
        buf.append("*");
    }
    buf.append(arg.ident.as_str());
    assert(buf@ =~= start + extern_arg_text(*arg, types@.structs));
}

/// Whether a function hands its result back through an out-parameter.
pub fn indirect_return(efn: &ExternFn, types: &Types) -> (r: bool)
    requires
        types.wf(),
    ensures
        r == returns_indirectly(efn, types@.structs),
{
    match &efn.ret {
        Some(ret) => efn.throws || types.needs_indirect_abi(ret),
        None => false,
    }
}

/// The places where a list of arguments is written.
#[derive(Clone, Copy, Debug, PartialEq, Eq, Structural)]
pub enum ArgStyle {
    /// Parameters of the trampoline around a native function.
    ShimParam,
    /// Parameters of the declaration of a managed function's entry point.
    DeclParam,
    /// Parameter types of a pointer to the native function.
    FnPointerParam,
    /// Arguments of the call from the trampoline into the native function.
    ShimCall,
    /// Parameters of the native wrapper around a managed function.
    WrapperParam,
    /// Arguments of the call from that wrapper into the entry point.
    WrapperCall,
}

/// An argument handed from a trampoline to the native function: ownership
/// taken back from raw pointers, strings copied bitwise, indirect values
/// moved out of their storage.
pub open spec fn shim_call_arg_text(v: Var, structs: Map<Seq<char>, bool>) -> Seq<char> {
    match v.ty@ {
        TypeView::RustBox(_) => type_text(v.ty@) + "::from_raw("@ + v.ident@ + ")"@,
        TypeView::UniquePtr(_) => type_text(v.ty@) + "("@ + v.ident@ + ")"@,
        t => if is_rust_string(t) {
            "::rust::String(::rust::unsafe_bitcopy, *"@ + v.ident@ + ")"@
        } else if indirect(structs, t) {
            "::std::move(*"@ + v.ident@ + ")"@
        } else {
            v.ident@
        },
    }
}

/// What comes before an argument that a native wrapper hands to an entry point.
pub open spec fn wrapper_call_open(t: TypeView, structs: Map<Seq<char>, bool>) -> Seq<char> {
    match t {
        TypeView::Str => "::rust::Str::Repr("@,
        _ => if indirect(structs, t) {
            "&"@
        } else {
            Seq::empty()
        },
    }
}

/// What comes after it: owned pointers give up ownership, moved values are
/// read from their holder.
pub open spec fn wrapper_call_close(t: TypeView, structs: Map<Seq<char>, bool>) -> Seq<char> {
    match t {
        TypeView::RustBox(_) => ".into_raw()"@,
        TypeView::UniquePtr(_) => ".release()"@,
        TypeView::Str => ")"@,
        _ => if !is_rust_string(t) && indirect(structs, t) {
            "$.value"@
        } else {
            Seq::empty()
        },
    }
}

/// One argument in the given place.
pub open spec fn arg_text(style: ArgStyle, v: Var, structs: Map<Seq<char>, bool>) -> Seq<char> {
    match style {
        ArgStyle::ShimParam => (if is_rust_string(v.ty@) {
            "const "@
        } else {
            Seq::empty()
        }) + extern_arg_text(v, structs),
        ArgStyle::DeclParam => extern_arg_text(v, structs),
        ArgStyle::FnPointerParam => type_text(v.ty@),
        ArgStyle::ShimCall => shim_call_arg_text(v, structs),
        ArgStyle::WrapperParam => type_space_text(v.ty@) + v.ident@,
        ArgStyle::WrapperCall => wrapper_call_open(v.ty@, structs) + v.ident@ + wrapper_call_close(
            v.ty@,
            structs,
        ),
    }
}

/// A list of arguments in the given place, separated by commas.
pub open spec fn args_text(style: ArgStyle, args: Seq<Var>, structs: Map<Seq<char>, bool>) -> Seq<
    char,
>
    decreases args.len(),
{
    if args.len() == 0 {
        Seq::empty()
    } else {
        args_text(style, args.drop_last(), structs) + (if args.len() > 1 {
            ", "@
        } else {
            Seq::empty()
        }) + arg_text(style, args.last(), structs)
    }
}

/// Whether some argument is moved out of caller-allocated storage.
pub open spec fn moves_any(args: Seq<Var>, structs: Map<Seq<char>, bool>) -> bool {
    exists|i: int|
        0 <= i < args.len() && !is_rust_string(#[trigger] args[i].ty@) && indirect(
            structs,
            args[i].ty@,
        )
}

#[verifier::rlimit(30)]
fn push_arg(buf: &mut String, style: ArgStyle, v: &Var, types: &Types)
    requires
        types.wf(),
        no_void(v.ty@),
    ensures
        final(buf)@ == old(buf)@ + arg_text(style, *v, types@.structs),
{
    proof {
        reveal_with_fuel(crate::syntax::type_view, 2);
    }
    let ghost start = buf@;
    let id = v.ident.as_str();
    match style {
        ArgStyle::ShimParam => {
            if v.ty.is_rust_string() {
                buf.append("const ");
            }
            push_extern_arg(buf, v, types);
        },
        ArgStyle::DeclParam => push_extern_arg(buf, v, types),
        ArgStyle::FnPointerParam => push_type(buf, &v.ty),
        ArgStyle::ShimCall => match &v.ty {
            Type::RustBox(_) => {
                push_type(buf, &v.ty);
                buf.append("::from_raw(");
                buf.append(id);
                buf.append(")");
            },
            Type::UniquePtr(_) => {
                push_type(buf, &v.ty);
                buf.append("(");
                buf.append(id);
                buf.append(")");
            },
            t => {
                if t.is_rust_string() {
                    buf.append("::rust::String(::rust::unsafe_bitcopy, *");
                    buf.append(id);
                    buf.append(")");
                } else if types.needs_indirect_abi(t) {
                    buf.append("::std::move(*");
                    buf.append(id);
                    buf.append(")");
                } else {
                    buf.append(id);
                }
            },
        },
        ArgStyle::WrapperParam => {
            push_type_space(buf, &v.ty);
            buf.append(id);
        },
        ArgStyle::WrapperCall => {
            match &v.ty {
                Type::Str => buf.append("::rust::Str::Repr("),
                t => {
                    if types.needs_indirect_abi(t) {
                        buf.append("&");
                    }
                },
            }
            buf.append(id);
            match &v.ty {
                Type::RustBox(_) => buf.append(".into_raw()"),
                Type::UniquePtr(_) => buf.append(".release()"),
                Type::Str => buf.append(")"),
                t => {
                    if !t.is_rust_string() && types.needs_indirect_abi(t) {
                        buf.append("$.value");
                    }
                },
            }
        },
    }
    assert(buf@ =~= start + arg_text(style, *v, types@.structs));
}

/// Appends a list of arguments in the given place.
pub fn push_args(buf: &mut String, style: ArgStyle, args: &Vec<Var>, types: &Types)
    requires
        types.wf(),
        vars_no_void(args@),
    ensures
        final(buf)@ == old(buf)@ + args_text(style, args@, types@.structs),
{
    let ghost start = buf@;
    let mut i: usize = 0;
    while i < args.len()
        invariant
            i <= args@.len(),
            types.wf(),
            vars_no_void(args@),
            buf@ == start + args_text(style, args@.subrange(0, i as int), types@.structs),
        decreases args@.len() - i,
    {
        let ghost before = buf@;
        if i > 0 {
            buf.append(", ");
        }
        push_arg(buf, style, &args[i], types);
        let ghost s = args@.subrange(0, i + 1);
        assert(s.drop_last() =~= args@.subrange(0, i as int));
        assert(s.last() == args@[i as int]);
        assert(buf@ =~= start + args_text(style, s, types@.structs));
        i = i + 1;
    }
    assert(args@.subrange(0, i as int) =~= args@);
}

/// Whether some argument is moved out of caller-allocated storage.
pub fn any_moved_arg(args: &Vec<Var>, types: &Types) -> (r: bool)
    requires
        types.wf(),
    ensures
        r == moves_any(args@, types@.structs),
{
    let mut i: usize = 0;
    while i < args.len()
        invariant
            i <= args@.len(),
            types.wf(),
            forall|l: int|
                0 <= l < i ==> !(!is_rust_string(#[trigger] args@[l].ty@) && indirect(
                    types@.structs,
                    args@[l].ty@,
                )),
        decreases args@.len() - i,
    {
        if !args[i].ty.is_rust_string() && types.needs_indirect_abi(&args[i].ty) {
            return true;
        }
        i = i + 1;
    }
    false
}

/// The trailing out-parameter through which an indirect result comes back.
pub open spec fn out_param_text(efn: &ExternFn, structs: Map<Seq<char>, bool>) -> Seq<char> {
    if returns_indirectly(efn, structs) {
        (if has_params(efn) {
            ", "@
        } else {
            Seq::empty()
        }) + return_type_text(ret_view(efn.ret)) + "*return$"@
    } else {
        Seq::empty()
    }
}

/// The return type of an entry point: a fallible one returns its error
/// message record.
pub open spec fn lowered_return_text(efn: &ExternFn, structs: Map<Seq<char>, bool>) -> Seq<char> {
    if efn.throws {
        "::rust::Str::Repr "@
    } else {
        extern_return_type_text(ret_view(efn.ret), structs)
    }
}

/// The head of an entry point, up to its parameter list's end.
pub open spec fn entry_head_text(
    efn: &ExternFn,
    ns: Seq<Seq<char>>,
    style: ArgStyle,
    structs: Map<Seq<char>, bool>,
) -> Seq<char> {
    lowered_return_text(efn, structs) + fn_symbol(ns, efn.ident@) + "("@ + receiver_param_text(efn)
        + args_text(style, efn.args@, structs) + out_param_text(efn, structs)
}

/// The receiver of a method as the first parameter, `self`.
pub open spec fn receiver_param_text(efn: &ExternFn) -> Seq<char> {
    match efn.receiver {
        Some(r) => const_text(r.mutable) + r.ident@ + " &self"@ + comma_if(efn.args@.len() > 0),
        None => Seq::empty(),
    }
}

/// The receiver of a method as the first argument of a call.
pub open spec fn receiver_arg_text(efn: &ExternFn) -> Seq<char> {
    match efn.receiver {
        Some(_) => "self"@ + comma_if(efn.args@.len() > 0),
        None => Seq::empty(),
    }
}

/// `, ` where more follows.
pub open spec fn comma_if(b: bool) -> Seq<char> {
    if b {
        ", "@
    } else {
        Seq::empty()
    }
}

/// The start of a try block that turns a native exception into a message.
pub open spec fn try_open_text(throws: bool) -> Seq<char> {
    try_open_str(throws)@
}

/// The text of [`try_open_text`].
pub open spec fn try_open_str(throws: bool) -> &'static str {
    if throws {
        "::rust::Str::Repr throw$;\n  ::rust::trycatch(\n      [&] {\n        "
    } else {
        ""
    }
}

/// The end of that block: no message on success, else a copy of the
/// exception's text.
pub open spec fn try_close_text(throws: bool) -> Seq<char> {
    try_close_str(throws)@
}

/// The text of [`try_close_text`].
pub open spec fn try_close_str(throws: bool) -> &'static str {
    if throws {
        "        throw$.ptr = nullptr;\n      },\n      [&](const char *catch$) noexcept {\n        throw$.len = ::std::strlen(catch$);\n        throw$.ptr = cxxbridge02$exception(catch$, throw$.len);\n      });\n  return throw$;\n"
    } else {
        ""
    }
}

/// What the trampoline puts before the call: construction in the
/// out-parameter, or a plain return.
pub open spec fn shim_result_open(efn: &ExternFn, structs: Map<Seq<char>, bool>) -> Seq<char> {
    if returns_indirectly(efn, structs) {
        "new (return$) "@ + type_text(efn.ret.unwrap()@) + "("@
    } else {
        match efn.ret {
            Some(t) => "return "@ + match t@ {
                TypeView::Ref(_, _) => "&"@,
                TypeView::Str => "::rust::Str::Repr("@,
                _ => Seq::empty(),
            },
            None => Seq::empty(),
        }
    }
}

/// What the trampoline puts after the call: owned pointers become raw ones.
pub open spec fn shim_result_close(efn: &ExternFn, structs: Map<Seq<char>, bool>) -> Seq<char> {
    result_release_text(ret_view(efn.ret), returns_indirectly(efn, structs)) + if returns_indirectly(efn, structs) {
        ")"@
    } else {
        Seq::empty()
    }
}

/// The conversion that follows a native call by its result's type; the
/// string slice record opened before a directly returned call is closed.
pub open spec fn result_release_text(ret: Option<TypeView>, indirect_result: bool) -> Seq<char> {
    match ret {
        Some(TypeView::RustBox(_)) => ".into_raw()"@,
        Some(TypeView::UniquePtr(_)) => ".release()"@,
        Some(TypeView::Vector(_)) => " /* Use RVO to convert to r-value and move construct */"@,
        Some(TypeView::Str) => if indirect_result {
            Seq::empty()
        } else {
            ")"@
        },
        _ => Seq::empty(),
    }
}

/// The line that takes a pointer to the native function, so that the
/// trampoline binds to the one function of that name.
/// For a method, the pointer is to the member function of the receiver's
/// type, `const` for a shared receiver.
pub open spec fn fn_pointer_text(efn: &ExternFn, structs: Map<Seq<char>, bool>) -> Seq<char> {
    match efn.receiver {
        Some(r) => "  "@ + return_type_text(ret_view(efn.ret)) + "("@ + r.ident@ + "::*"@ + efn.ident@
            + "$)("@ + args_text(ArgStyle::FnPointerParam, efn.args@, structs) + ")"@ + (if r.mutable {
            Seq::empty()
        } else {
            " const"@
        }) + " = &"@ + r.ident@ + "::"@ + efn.ident@ + ";\n"@,
        None => "  "@ + return_type_text(ret_view(efn.ret)) + "(*"@ + efn.ident@ + "$)("@ + args_text(
            ArgStyle::FnPointerParam,
            efn.args@,
            structs,
        ) + ") = "@ + efn.ident@ + ";\n"@,
    }
}

/// The callee of the trampoline's call: the bound pointer, applied to
/// `self` for a method.
pub open spec fn callee_text(efn: &ExternFn) -> Seq<char> {
    match efn.receiver {
        Some(_) => "(self.*"@ + efn.ident@ + "$)("@,
        None => efn.ident@ + "$("@,
    }
}

/// The call of the native function with its result handed back.
pub open spec fn shim_call_text(efn: &ExternFn, structs: Map<Seq<char>, bool>) -> Seq<char> {
    shim_result_open(efn, structs) + callee_text(efn) + args_text(
        ArgStyle::ShimCall,
        efn.args@,
        structs,
    ) + ")"@ + shim_result_close(efn, structs)
}

/// The trampoline through which the managed side calls a native function.
#[verifier::opaque]
pub open spec fn cxx_shim_text(
    efn: &ExternFn,
    ns: Seq<Seq<char>>,
    structs: Map<Seq<char>, bool>,
) -> Seq<char> {
    entry_head_text(efn, ns, ArgStyle::ShimParam, structs) + ") noexcept {\n"@ + fn_pointer_text(
        efn,
        structs,
    ) + "  "@ + try_open_text(efn.throws) + shim_call_text(efn, structs) + ";\n"@
        + try_close_text(efn.throws) + "}\n"@
}

/// The declaration of a managed function's entry point.
pub open spec fn rust_decl_text(
    efn: &ExternFn,
    ns: Seq<Seq<char>>,
    structs: Map<Seq<char>, bool>,
) -> Seq<char> {
    entry_head_text(efn, ns, ArgStyle::DeclParam, structs) + ") noexcept;\n"@
}

fn push_receiver_param(buf: &mut String, efn: &ExternFn)
    ensures
        final(buf)@ == old(buf)@ + receiver_param_text(efn),
{
    let ghost start = buf@;
    match &efn.receiver {
        Some(r) => {
            if !r.mutable {
                buf.append("const ");
            }
            buf.append(r.ident.as_str());
            buf.append(" &self");
            if efn.args.len() > 0 {
                buf.append(", ");
            }
        },
        None => {},
    }
    assert(buf@ =~= start + receiver_param_text(efn));
}

fn push_receiver_arg(buf: &mut String, efn: &ExternFn)
    ensures
        final(buf)@ == old(buf)@ + receiver_arg_text(efn),
{
    let ghost start = buf@;
    match &efn.receiver {
        Some(_) => {
            buf.append("self");
            if efn.args.len() > 0 {
                buf.append(", ");
            }
        },
        None => {},
    }
    assert(buf@ =~= start + receiver_arg_text(efn));
}

fn push_out_param(buf: &mut String, efn: &ExternFn, types: &Types)
    requires
        types.wf(),
        fn_types_ok(efn),
    ensures
        final(buf)@ == old(buf)@ + out_param_text(efn, types@.structs),
{
    let ghost start = buf@;
    if indirect_return(efn, types) {
        if efn.args.len() > 0 || efn.receiver.is_some() {
            buf.append(", ");
        }
        push_return_type(buf, &efn.ret);
        buf.append("*return$");
    }
    assert(buf@ =~= start + out_param_text(efn, types@.structs));
}

fn push_lowered_return(buf: &mut String, efn: &ExternFn, types: &Types)
    requires
        types.wf(),
        fn_types_ok(efn),
    ensures
        final(buf)@ == old(buf)@ + lowered_return_text(efn, types@.structs),
{
    if efn.throws {
        buf.append("::rust::Str::Repr ");
    } else {
        push_extern_return_type(buf, &efn.ret, types);
    }
}

fn push_entry_head(
    buf: &mut String,
    efn: &ExternFn,
    ns: &Vec<String>,
    style: ArgStyle,
    types: &Types,
)
    requires
        types.wf(),
        fn_types_ok(efn),
    ensures
        final(buf)@ == old(buf)@ + entry_head_text(efn, name_views(ns@), style, types@.structs),
{
    let ghost start = buf@;
    let ghost structs = types@.structs;
    push_lowered_return(buf, efn, types);
    let ghost b1 = buf@;
    push_fn_symbol(buf, ns, efn.ident.as_str());
    buf.append("(");
    let ghost b2 = buf@;
    assert(b2 =~= b1 + fn_symbol(name_views(ns@), efn.ident@) + "("@);
    push_receiver_param(buf, efn);
    push_args(buf, style, &efn.args, types);
    push_out_param(buf, efn, types);
    assert(buf@ =~= start + entry_head_text(efn, name_views(ns@), style, structs));
}

#[verifier::rlimit(30)]
fn push_shim_call(buf: &mut String, efn: &ExternFn, types: &Types)
    requires
        types.wf(),
        fn_types_ok(efn),
    ensures
        final(buf)@ == old(buf)@ + shim_call_text(efn, types@.structs),
{
    proof {
        reveal_with_fuel(crate::syntax::type_view, 2);
    }
    let ghost start = buf@;
    let ind = indirect_return(efn, types);
    if ind {
        match &efn.ret {
            Some(t) => {
                buf.append("new (return$) ");
                push_type(buf, t);
                buf.append("(");
            },
            None => {},
        }
    } else {
        match &efn.ret {
            Some(t) => {
                buf.append("return ");
                match t {
                    Type::Ref(_, _) => buf.append("&"),
                    Type::Str => buf.append("::rust::Str::Repr("),
                    _ => {},
                }
            },
            None => {},
        }
    }
    let ghost a = buf@;
    assert(a =~= start + shim_result_open(efn, types@.structs));
    match &efn.receiver {
        Some(_) => {
            buf.append("(self.*");
            buf.append(efn.ident.as_str());
            buf.append("$)(");
        },
        None => {
            buf.append(efn.ident.as_str());
            buf.append("$(");
        },
    }
    push_args(buf, ArgStyle::ShimCall, &efn.args, types);
    buf.append(")");
    let ghost b = buf@;
    match &efn.ret {
        Some(Type::RustBox(_)) => buf.append(".into_raw()"),
        Some(Type::UniquePtr(_)) => buf.append(".release()"),
        Some(Type::Vector(_)) => buf.append(
            " /* Use RVO to convert to r-value and move construct */",
        ),
        Some(Type::Str) => {
            if !ind {
                buf.append(")");
            }
        },
        _ => {},
    }
    if ind {
        buf.append(")");
    }
    assert(buf@ =~= b + shim_result_close(efn, types@.structs));
    assert(buf@ =~= start + shim_call_text(efn, types@.structs));
}

fn push_fn_pointer(buf: &mut String, efn: &ExternFn, types: &Types)
    requires
        types.wf(),
        fn_types_ok(efn),
    ensures
        final(buf)@ == old(buf)@ + fn_pointer_text(efn, types@.structs),
{
    let ghost start = buf@;
    buf.append("  ");
    push_return_type(buf, &efn.ret);
    match &efn.receiver {
        Some(r) => {
            buf.append("(");
            buf.append(r.ident.as_str());
            buf.append("::*");
            buf.append(efn.ident.as_str());
            buf.append("$)(");
            push_args(buf, ArgStyle::FnPointerParam, &efn.args, types);
            buf.append(")");
            if !r.mutable {
                buf.append(" const");
            }
            buf.append(" = &");
            buf.append(r.ident.as_str());
            buf.append("::");
            buf.append(efn.ident.as_str());
            buf.append(";\n");
        },
        None => {
            buf.append("(*");
            buf.append(efn.ident.as_str());
            buf.append("$)(");
            push_args(buf, ArgStyle::FnPointerParam, &efn.args, types);
            buf.append(") = ");
            buf.append(efn.ident.as_str());
            buf.append(";\n");
        },
    }
    assert(buf@ =~= start + fn_pointer_text(efn, types@.structs));
}

#[verifier::rlimit(30)]
fn cxx_shim_string(efn: &ExternFn, ns: &Vec<String>, types: &Types) -> (r: String)
    requires
        types.wf(),
        fn_types_ok(efn),
    ensures
        r@ == cxx_shim_text(efn, name_views(ns@), types@.structs),
{
    let ghost structs = types@.structs;
    let mut buf = String::new();
    push_entry_head(&mut buf, efn, ns, ArgStyle::ShimParam, types);
    assert(buf@ =~= entry_head_text(efn, name_views(ns@), ArgStyle::ShimParam, structs));
    buf.append(") noexcept {\n");
    push_fn_pointer(&mut buf, efn, types);
    buf.append("  ");
    let try_open: &str = if efn.throws {
        "::rust::Str::Repr throw$;\n  ::rust::trycatch(\n      [&] {\n        "
    } else {
        ""
    };
    assert(try_open@ == try_open_text(efn.throws));
    buf.append(try_open);
    push_shim_call(&mut buf, efn, types);
    buf.append(";\n");
    let try_close: &str = if efn.throws {
        "        throw$.ptr = nullptr;\n      },\n      [&](const char *catch$) noexcept {\n        throw$.len = ::std::strlen(catch$);\n        throw$.ptr = cxxbridge02$exception(catch$, throw$.len);\n      });\n  return throw$;\n"
    } else {
        ""
    };
    assert(try_close@ == try_close_text(efn.throws));
    buf.append(try_close);
    buf.append("}\n");
    assert(buf@ == cxx_shim_text(efn, name_views(ns@), structs)) by {
        reveal(cxx_shim_text);
    }
    buf
}

/// Writes the trampoline through which the managed side calls a native
/// function: lowered parameters, a pointer to the function, the call with
/// ownership and storage conversions, and for a fallible one the exception
/// turned into a message.
pub fn write_cxx_function_shim(out: &mut OutFile, efn: &ExternFn, types: &Types)
    requires
        types.wf(),
        fn_types_ok(efn),
    ensures
        final(out)@ == put(
            old(out)@,
            cxx_shim_text(efn, name_views(old(out).namespace@), types@.structs),
        ),
        final(out).includes@ == (IncludesView {
            utility: old(out).includes@.utility || moves_any(efn.args@, types@.structs),
            cstring: old(out).includes@.cstring || efn.throws,
            ..old(out).includes@
        }),
        final(out).namespace@ == old(out).namespace@,
        final(out).header == old(out).header,
{
    let buf = cxx_shim_string(efn, &out.namespace, types);
    let moved = any_moved_arg(&efn.args, types);
    out.includes.utility = out.includes.utility || moved;
    out.includes.cstring = out.includes.cstring || efn.throws;
    out.write(buf.as_str());
}

/// Writes the declaration of the entry point that the managed side exports
/// for one of its functions.
pub fn write_rust_function_decl(out: &mut OutFile, efn: &ExternFn, types: &Types)
    requires
        types.wf(),
        fn_types_ok(efn),
    ensures
        final(out)@ == put(
            old(out)@,
            rust_decl_text(efn, name_views(old(out).namespace@), types@.structs),
        ),
        final(out).includes == old(out).includes,
        final(out).namespace@ == old(out).namespace@,
        final(out).header == old(out).header,
{
    let mut buf = String::new();
    push_entry_head(&mut buf, efn, &out.namespace, ArgStyle::DeclParam, types);
    buf.append(") noexcept;\n");
    assert(buf@ =~= rust_decl_text(efn, name_views(out.namespace@), types@.structs));
    out.write(buf.as_str());
}

/// Doc comment lines as native line comments.
pub open spec fn doc_text(doc: Seq<String>) -> Seq<char>
    decreases doc.len(),
{
    if doc.len() == 0 {
        Seq::empty()
    } else {
        doc_text(doc.drop_last()) + "//"@ + doc.last()@ + "\n"@
    }
}

/// The holder that keeps a moved argument from being destroyed twice.
pub open spec fn manually_drop_line(v: Var, structs: Map<Seq<char>, bool>) -> Seq<char> {
    if !is_rust_string(v.ty@) && indirect(structs, v.ty@) {
        "  ::rust::ManuallyDrop<"@ + type_text(v.ty@) + "> "@ + v.ident@ + "$(::std::move("@
            + v.ident@ + "));\n"@
    } else {
        Seq::empty()
    }
}

/// One holder line per moved argument, in order.
pub open spec fn manually_drop_text(args: Seq<Var>, structs: Map<Seq<char>, bool>) -> Seq<char>
    decreases args.len(),
{
    if args.len() == 0 {
        Seq::empty()
    } else {
        manually_drop_text(args.drop_last(), structs) + manually_drop_line(args.last(), structs)
    }
}

/// What a native wrapper puts before the call of an entry point: storage for
/// an indirect result, or a plain return taking ownership back.
pub open spec fn wrapper_result_open(efn: &ExternFn, structs: Map<Seq<char>, bool>) -> Seq<char> {
    if returns_indirectly(efn, structs) {
        "::rust::MaybeUninit<"@ + type_text(efn.ret.unwrap()@) + "> return$;\n  "@
    } else {
        match efn.ret {
            Some(t) => "return "@ + match t@ {
                TypeView::RustBox(_) => type_text(t@) + "::from_raw("@,
                TypeView::UniquePtr(_) => type_text(t@) + "("@,
                TypeView::Ref(_, _) => "*"@,
                _ => Seq::empty(),
            },
            None => Seq::empty(),
        }
    }
}

/// The address of the result's storage, after the other arguments.
pub open spec fn wrapper_out_arg(efn: &ExternFn, structs: Map<Seq<char>, bool>) -> Seq<char> {
    if returns_indirectly(efn, structs) {
        (if has_params(efn) {
            ", "@
        } else {
            Seq::empty()
        }) + "&return$.value"@
    } else {
        Seq::empty()
    }
}

/// `)` that closes the owned pointer built around a directly returned
/// result.
pub open spec fn wrapper_result_close(ret: Option<TypeView>, indirect_result: bool) -> Seq<char> {
    if indirect_result {
        Seq::empty()
    } else {
        match ret {
            Some(TypeView::RustBox(_)) => ")"@,
            Some(TypeView::UniquePtr(_)) => ")"@,
            _ => Seq::empty(),
        }
    }
}

/// `error$ = ` where a fallible entry point hands back its error message.
pub open spec fn error_capture_text(throws: bool) -> Seq<char> {
    if throws {
        "::rust::Str::Repr error$ = "@
    } else {
        Seq::empty()
    }
}

/// The statement that calls the entry point.
pub open spec fn wrapper_call_text(
    efn: &ExternFn,
    ns: Seq<Seq<char>>,
    structs: Map<Seq<char>, bool>,
) -> Seq<char> {
    wrapper_result_open(efn, structs) + error_capture_text(efn.throws) + fn_symbol(ns, efn.ident@)
        + "("@ + receiver_arg_text(efn) + args_text(ArgStyle::WrapperCall, efn.args@, structs)
        + wrapper_out_arg(
        efn,
        structs,
    ) + ")"@ + wrapper_result_close(ret_view(efn.ret), returns_indirectly(efn, structs)) + ";\n"@
}

/// The end of a wrapper: a transported error is thrown again, an indirect
/// result moved out.
pub open spec fn wrapper_tail_text(efn: &ExternFn, structs: Map<Seq<char>, bool>) -> Seq<char> {
    (if efn.throws {
        "  if (error$.ptr) {\n    throw ::rust::Error(error$);\n  }\n"@
    } else {
        Seq::empty()
    }) + (if returns_indirectly(efn, structs) {
        "  return ::std::move(return$.value);\n"@
    } else {
        Seq::empty()
    }) + "}\n"@
}

/// The native signature of a managed function.
pub open spec fn wrapper_signature_text(efn: &ExternFn, structs: Map<Seq<char>, bool>) -> Seq<
    char,
> {
    doc_text(efn.doc@) + return_type_text(ret_view(efn.ret)) + efn.ident@ + "("@
        + receiver_param_text(efn) + args_text(
        ArgStyle::WrapperParam,
        efn.args@,
        structs,
    ) + ")"@ + (if efn.throws {
        Seq::empty()
    } else {
        " noexcept"@
    })
}

/// The native wrapper of a managed function: a declaration in a header, a
/// definition with its body elsewhere.
pub open spec fn rust_shim_text(
    efn: &ExternFn,
    ns: Seq<Seq<char>>,
    structs: Map<Seq<char>, bool>,
    header: bool,
) -> Seq<char> {
    wrapper_signature_text(efn, structs) + if header {
        ";\n"@
    } else {
        " {\n"@ + manually_drop_text(efn.args@, structs) + "  "@ + wrapper_call_text(
            efn,
            ns,
            structs,
        ) + wrapper_tail_text(efn, structs)
    }
}

fn push_doc(buf: &mut String, doc: &Vec<String>)
    ensures
        final(buf)@ == old(buf)@ + doc_text(doc@),
{
    let ghost start = buf@;
    let mut i: usize = 0;
    while i < doc.len()
        invariant
            i <= doc@.len(),
            buf@ == start + doc_text(doc@.subrange(0, i as int)),
        decreases doc@.len() - i,
    {
        buf.append("//");
        buf.append(doc[i].as_str());
        buf.append("\n");
        let ghost s = doc@.subrange(0, i + 1);
        assert(s.drop_last() =~= doc@.subrange(0, i as int));
        assert(buf@ =~= start + doc_text(s));
        i = i + 1;
    }
    assert(doc@.subrange(0, i as int) =~= doc@);
}

fn push_manually_drop(buf: &mut String, args: &Vec<Var>, types: &Types)
    requires
        types.wf(),
        vars_no_void(args@),
    ensures
        final(buf)@ == old(buf)@ + manually_drop_text(args@, types@.structs),
{
    let ghost start = buf@;
    let mut i: usize = 0;
    while i < args.len()
        invariant
            i <= args@.len(),
            types.wf(),
            vars_no_void(args@),
            buf@ == start + manually_drop_text(args@.subrange(0, i as int), types@.structs),
        decreases args@.len() - i,
    {
        let ghost before = buf@;
        let v = &args[i];
        assert(no_void(args@[i as int].ty@));
        if !v.ty.is_rust_string() && types.needs_indirect_abi(&v.ty) {
            buf.append("  ::rust::ManuallyDrop<");
            push_type(buf, &v.ty);
            buf.append("> ");
            buf.append(v.ident.as_str());
            buf.append("$(::std::move(");
            buf.append(v.ident.as_str());
            buf.append("));\n");
        }
        assert(buf@ =~= before + manually_drop_line(*v, types@.structs));
        let ghost s = args@.subrange(0, i + 1);
        assert(s.drop_last() =~= args@.subrange(0, i as int));
        assert(buf@ =~= start + manually_drop_text(s, types@.structs));
        i = i + 1;
    }
    assert(args@.subrange(0, i as int) =~= args@);
}

#[verifier::rlimit(30)]
fn push_wrapper_result_open(buf: &mut String, efn: &ExternFn, types: &Types)
    requires
        types.wf(),
        fn_types_ok(efn),
    ensures
        final(buf)@ == old(buf)@ + wrapper_result_open(efn, types@.structs),
{
    proof {
        reveal_with_fuel(crate::syntax::type_view, 2);
    }
    let ghost start = buf@;
    let ind = indirect_return(efn, types);
    if ind {
        match &efn.ret {
            Some(t) => {
                buf.append("::rust::MaybeUninit<");
                push_type(buf, t);
                buf.append("> return$;\n  ");
            },
            None => {},
        }
    } else {
        match &efn.ret {
            Some(t) => {
                buf.append("return ");
                match t {
                    Type::RustBox(_) => {
                        push_type(buf, t);
                        buf.append("::from_raw(");
                    },
                    Type::UniquePtr(_) => {
                        push_type(buf, t);
                        buf.append("(");
                    },
                    Type::Ref(_, _) => buf.append("*"),
                    _ => {},
                }
            },
            None => {},
        }
    }
    assert(buf@ =~= start + wrapper_result_open(efn, types@.structs));
}

#[verifier::rlimit(30)]
fn push_wrapper_call(buf: &mut String, efn: &ExternFn, ns: &Vec<String>, types: &Types)
    requires
        types.wf(),
        fn_types_ok(efn),
    ensures
        final(buf)@ == old(buf)@ + wrapper_call_text(efn, name_views(ns@), types@.structs),
{
    proof {
        reveal_with_fuel(crate::syntax::type_view, 2);
    }
    let ghost start = buf@;
    let ind = indirect_return(efn, types);
    push_wrapper_result_open(buf, efn, types);
    assert(buf@ =~= start + wrapper_result_open(efn, types@.structs));
    let ghost a = buf@;
    if efn.throws {
        buf.append("::rust::Str::Repr error$ = ");
    }
    assert(buf@ =~= a + error_capture_text(efn.throws));
    push_fn_symbol(buf, ns, efn.ident.as_str());
    buf.append("(");
    push_receiver_arg(buf, efn);
    push_args(buf, ArgStyle::WrapperCall, &efn.args, types);
    let ghost b = buf@;
    if ind {
        if efn.args.len() > 0 || efn.receiver.is_some() {
            buf.append(", ");
        }
        buf.append("&return$.value");
    }
    assert(buf@ =~= b + wrapper_out_arg(efn, types@.structs));
    buf.append(")");
    let ghost c = buf@;
    if !ind {
        match &efn.ret {
            Some(Type::RustBox(_)) | Some(Type::UniquePtr(_)) => buf.append(")"),
            _ => {},
        }
    }
    assert(buf@ =~= c + wrapper_result_close(ret_view(efn.ret), ind));
    buf.append(";\n");
    assert(buf@ =~= start + wrapper_call_text(efn, name_views(ns@), types@.structs));
}

fn push_wrapper_signature(buf: &mut String, efn: &ExternFn, types: &Types)
    requires
        types.wf(),
        fn_types_ok(efn),
    ensures
        final(buf)@ == old(buf)@ + wrapper_signature_text(efn, types@.structs),
{
    let ghost start = buf@;
    push_doc(buf, &efn.doc);
    push_return_type(buf, &efn.ret);
    buf.append(efn.ident.as_str());
    buf.append("(");
    push_receiver_param(buf, efn);
    push_args(buf, ArgStyle::WrapperParam, &efn.args, types);
    buf.append(")");
    if !efn.throws {
        buf.append(" noexcept");
    }
    assert(buf@ =~= start + wrapper_signature_text(efn, types@.structs));
}

fn push_wrapper_tail(buf: &mut String, efn: &ExternFn, types: &Types)
    requires
        types.wf(),
    ensures
        final(buf)@ == old(buf)@ + wrapper_tail_text(efn, types@.structs),
{
    let ghost start = buf@;
    if efn.throws {
        buf.append("  if (error$.ptr) {\n    throw ::rust::Error(error$);\n  }\n");
    }
    if indirect_return(efn, types) {
        buf.append("  return ::std::move(return$.value);\n");
    }
    buf.append("}\n");
    assert(buf@ =~= start + wrapper_tail_text(efn, types@.structs));
}

#[verifier::rlimit(30)]
fn rust_shim_string(efn: &ExternFn, ns: &Vec<String>, types: &Types, header: bool) -> (r: String)
    requires
        types.wf(),
        fn_types_ok(efn),
    ensures
        r@ == rust_shim_text(efn, name_views(ns@), types@.structs, header),
{
    let mut buf = String::new();
    push_wrapper_signature(&mut buf, efn, types);
    let ghost sig = buf@;
    assert(sig =~= wrapper_signature_text(efn, types@.structs));
    if header {
        buf.append(";\n");
    } else {
        buf.append(" {\n");
        push_manually_drop(&mut buf, &efn.args, types);
        buf.append("  ");
        push_wrapper_call(&mut buf, efn, ns, types);
        push_wrapper_tail(&mut buf, efn, types);
    }
    assert(buf@ =~= rust_shim_text(efn, name_views(ns@), types@.structs, header));
    buf
}

/// Writes the native wrapper through which native code calls a managed
/// function: it converts arguments for the entry point, passes storage for
/// an indirect result, and throws again an error that comes back.
pub fn write_rust_function_shim(out: &mut OutFile, efn: &ExternFn, types: &Types)
    requires
        types.wf(),
        fn_types_ok(efn),
    ensures
        final(out)@ == put(
            old(out)@,
            rust_shim_text(efn, name_views(old(out).namespace@), types@.structs, old(out).header),
        ),
        final(out).includes@ == (IncludesView {
            utility: old(out).includes@.utility || (!old(out).header && (moves_any(
                efn.args@,
                types@.structs,
            ) || returns_indirectly(efn, types@.structs))),
            ..old(out).includes@
        }),
        final(out).namespace@ == old(out).namespace@,
        final(out).header == old(out).header,
{
    let buf = rust_shim_string(efn, &out.namespace, types, out.header);
    let moved = any_moved_arg(&efn.args, types);
    let ind = indirect_return(efn, types);
    out.includes.utility = out.includes.utility || (!out.header && (moved || ind));
    out.write(buf.as_str());
}

/// Writes the native spelling of a type.
pub fn write_type(out: &mut OutFile, ty: &Type)
    requires
        no_void(ty@),
    ensures
        final(out)@ == put(old(out)@, type_text(ty@)),
        keeps_frame(*old(out), *final(out)),
{
    let mut buf = String::new();
    push_type(&mut buf, ty);
    assert(buf@ =~= type_text(ty@));
    out.write(buf.as_str());
}

/// Writes the native spelling of a type, ready for a name to follow.
pub fn write_type_space(out: &mut OutFile, ty: &Type)
    requires
        no_void(ty@),
    ensures
        final(out)@ == put(old(out)@, type_space_text(ty@)),
        keeps_frame(*old(out), *final(out)),
{
    let mut buf = String::new();
    push_type_space(&mut buf, ty);
    assert(buf@ =~= type_space_text(ty@));
    out.write(buf.as_str());
}

/// Writes the native return type of a signature.
pub fn write_return_type(out: &mut OutFile, ret: &Option<Type>)
    requires
        match ret {
            Some(t) => no_void(t@),
            None => true,
        },
    ensures
        final(out)@ == put(old(out)@, return_type_text(ret_view(*ret))),
        keeps_frame(*old(out), *final(out)),
{
    let mut buf = String::new();
    push_return_type(&mut buf, ret);
    assert(buf@ =~= return_type_text(ret_view(*ret)));
    out.write(buf.as_str());
}

/// Writes the return type of a trampoline.
pub fn write_extern_return_type(out: &mut OutFile, ret: &Option<Type>, types: &Types)
    requires
        types.wf(),
        match ret {
            Some(t) => no_void(t@),
            None => true,
        },
    ensures
        final(out)@ == put(old(out)@, extern_return_type_text(ret_view(*ret), types@.structs)),
        keeps_frame(*old(out), *final(out)),
{
    let mut buf = String::new();
    push_extern_return_type(&mut buf, ret, types);
    assert(buf@ =~= extern_return_type_text(ret_view(*ret), types@.structs));
    out.write(buf.as_str());
}

/// Writes a parameter of a trampoline.
pub fn write_extern_arg(out: &mut OutFile, arg: &Var, types: &Types)
    requires
        types.wf(),
        no_void(arg.ty@),
    ensures
        final(out)@ == put(old(out)@, extern_arg_text(*arg, types@.structs)),
        keeps_frame(*old(out), *final(out)),
{
    let mut buf = String::new();
    push_extern_arg(&mut buf, arg, types);
    assert(buf@ =~= extern_arg_text(*arg, types@.structs));
    out.write(buf.as_str());
}

/// The fields of a struct, one per line, in declaration order.
pub open spec fn fields_text(fields: Seq<Var>) -> Seq<char>
    decreases fields.len(),
{
    if fields.len() == 0 {
        Seq::empty()
    } else {
        fields_text(fields.drop_last()) + "  "@ + type_space_text(fields.last().ty@)
            + fields.last().ident@ + ";\n"@
    }
}

/// The native definition of a value struct, field for field.
pub open spec fn struct_text(s: &Struct) -> Seq<char> {
    doc_text(s.doc@) + "struct "@ + s.ident@ + " final {\n"@ + fields_text(s.fields@) + "};\n"@
}

/// Writes the native definition of a value struct: its fields in the
/// declared order, which fixes the layout that both sides share.
#[verifier::rlimit(30)]
pub fn write_struct(out: &mut OutFile, strct: &Struct)
    requires
        struct_types_ok(strct),
    ensures
        final(out)@ == put(old(out)@, struct_text(strct)),
        keeps_frame(*old(out), *final(out)),
{
    let mut buf = String::new();
    push_doc(&mut buf, &strct.doc);
    buf.append("struct ");
    buf.append(strct.ident.as_str());
    buf.append(" final {\n");
    let ghost start = buf@;
    let mut i: usize = 0;
    while i < strct.fields.len()
        invariant
            i <= strct.fields@.len(),
            struct_types_ok(strct),
            buf@ == start + fields_text(strct.fields@.subrange(0, i as int)),
        decreases strct.fields@.len() - i,
    {
        let f = &strct.fields[i];
        assert(no_void(strct.fields@[i as int].ty@));
        buf.append("  ");
        push_type_space(&mut buf, &f.ty);
        buf.append(f.ident.as_str());
        buf.append(";\n");
        let ghost s = strct.fields@.subrange(0, i + 1);
        assert(s.drop_last() =~= strct.fields@.subrange(0, i as int));
        assert(buf@ =~= start + fields_text(s));
        i = i + 1;
    }
    assert(strct.fields@.subrange(0, i as int) =~= strct.fields@);
    buf.append("};\n");
    assert(buf@ =~= struct_text(strct));
    out.write(buf.as_str());
}

/// The forward declaration of a type.
pub open spec fn struct_decl_text(ident: Seq<char>) -> Seq<char> {
    "struct "@ + ident + ";\n"@
}

/// The alias through which native code names a native-owned opaque type.
pub open spec fn struct_using_text(ident: Seq<char>) -> Seq<char> {
    "using "@ + ident + " = "@ + ident + ";\n"@
}

/// Writes the forward declaration of a type.
pub fn write_struct_decl(out: &mut OutFile, ident: &String)
    ensures
        final(out)@ == put(old(out)@, struct_decl_text(ident@)),
        keeps_frame(*old(out), *final(out)),
{
    let mut buf = String::new();
    buf.append("struct ");
    buf.append(ident.as_str());
    buf.append(";\n");
    assert(buf@ =~= struct_decl_text(ident@));
    out.write(buf.as_str());
}

/// Writes the alias of a native-owned opaque type.
pub fn write_struct_using(out: &mut OutFile, ident: &String)
    ensures
        final(out)@ == put(old(out)@, struct_using_text(ident@)),
        keeps_frame(*old(out), *final(out)),
{
    let mut buf = String::new();
    buf.append("using ");
    buf.append(ident.as_str());
    buf.append(" = ");
    buf.append(ident.as_str());
    buf.append(";\n");
    assert(buf@ =~= struct_using_text(ident@));
    out.write(buf.as_str());
}

/// Whether a declaration is a fallible native function.
pub open spec fn is_cxx_throws(api: Api) -> bool {
    match api {
        Api::CxxFunction(f) => f.throws,
        _ => false,
    }
}

/// Whether some native function is fallible.
pub open spec fn has_cxx_throws(apis: Seq<Api>) -> bool {
    exists|i: int| 0 <= i < apis.len() && is_cxx_throws(#[trigger] apis[i])
}

/// The declaration of the managed-side function that copies an exception's
/// message.
pub open spec fn exception_glue_text() -> Seq<char> {
    "const char *cxxbridge02$exception(const char *, size_t);"@
}

/// Writes, in a section of its own, the declaration of the function that
/// copies exception messages, where some native function is fallible.
pub fn write_exception_glue(out: &mut OutFile, apis: &Vec<Api>)
    ensures
        has_cxx_throws(apis@) ==> final(out)@ == put(
            OutState { section_pending: true, ..old(out)@ },
            exception_glue_text(),
        ),
        !has_cxx_throws(apis@) ==> final(out)@ == old(out)@,
        keeps_frame(*old(out), *final(out)),
{
    let mut has_cxx_throws = false;
    let mut i: usize = 0;
    while i < apis.len()
        invariant
            i <= apis@.len(),
            has_cxx_throws == exists|l: int| 0 <= l < i && is_cxx_throws(#[trigger] apis@[l]),
        decreases apis@.len() - i,
    {
        match &apis[i] {
            Api::CxxFunction(efn) => {
                if efn.throws {
                    has_cxx_throws = true;
                }
            },
            _ => {},
        }
        i = i + 1;
    }
    if has_cxx_throws {
        out.next_section();
        out.write("const char *cxxbridge02$exception(const char *, size_t);");
    }
}

} // verus!
