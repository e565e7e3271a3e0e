use vstd::prelude::*;
use crate::atom::atom_of;
use crate::emit::{api_types_ok, apis_ok};
use crate::generic::{
    qualified_mangled, rust_box_extern_text, rust_vec_extern_text, unique_ptr_text, vector_text,
};
use crate::link::{
    box_link_prefix, instance_link_prefix, managed_box_link, managed_fn_link,
    managed_instance_link,
};
use crate::mangle::{fn_symbol, instance_symbol, mangled, ns_prefix};
use crate::syntax::{no_void, Api, ExternFn, Struct, TypeView, Var};
use crate::types::{
    api_error, collected, first_error, indirect, insert_type, names_of, struct_classes,
    struct_is_direct, type_supported, visit, visit_vars,
};
use crate::write::{
    arg_text, args_text, lowered_return_text, returns_indirectly, shim_call_text, type_text, ArgStyle,
};
use crate::expand::{call_text, entry_expr_text, managed_args_text, result_conversion_text, ManagedArg};
use crate::syntax::ret_view;
use crate::syntax::is_rust_string;

verus! {

/// Symbol agreement: for every boundary function and every operation of
/// every generic instantiation, the link name that the managed side computes
/// is the symbol that the native artifact declares or defines, whatever the
/// namespace's segments.
pub proof fn lemma_symbol_agreement(
    ns: Seq<Seq<char>>,
    ident: Seq<char>,
    t: TypeView,
    op: Seq<char>,
)
    ensures
        managed_fn_link(ns, ident) == fn_symbol(ns, ident),
        managed_box_link(ns, ident, op) == instance_symbol(
            "cxxbridge02$box$"@,
            qualified_mangled(ns, ident),
            op,
        ),
        managed_instance_link("cxxbridge02$rust_vec$"@, ns, t, op) == instance_symbol(
            "cxxbridge02$rust_vec$"@,
            mangled(ns, t),
            op,
        ),
        managed_instance_link("cxxbridge02$unique_ptr$"@, ns, t, op) == instance_symbol(
            "cxxbridge02$unique_ptr$"@,
            mangled(ns, t),
            op,
        ),
        managed_instance_link("cxxbridge02$std$vector$"@, ns, t, op) == instance_symbol(
            "cxxbridge02$std$vector$"@,
            mangled(ns, t),
            op,
        ),
        box_link_prefix(ns, ident) + op == managed_box_link(ns, ident, op),
        forall|kind: Seq<char>| #[trigger] instance_link_prefix(kind, ns, t) + op == instance_symbol(
            kind,
            mangled(ns, t),
            op,
        ),
{
    assert(managed_box_link(ns, ident, op) =~= instance_symbol(
        "cxxbridge02$box$"@,
        qualified_mangled(ns, ident),
        op,
    ));
    assert forall|kind: Seq<char>| #[trigger] instance_link_prefix(kind, ns, t) + op
        == instance_symbol(kind, mangled(ns, t), op) by {
        assert(instance_link_prefix(kind, ns, t) + op =~= instance_symbol(kind, mangled(ns, t), op));
    }
}

/// Within one namespace, two declared types, or two atoms, with the same
/// mangled segment have the same name.
pub proof fn lemma_mangled_injective(ns: Seq<Seq<char>>, a: Seq<char>, b: Seq<char>)
    requires
        atom_of(a).is_some() == atom_of(b).is_some(),
        mangled(ns, TypeView::Ident(a)) == mangled(ns, TypeView::Ident(b)),
    ensures
        a == b,
{
    if atom_of(a).is_none() {
        let p = ns_prefix(ns, "$"@);
        assert((p + a).subrange(p.len() as int, (p + a).len() as int) =~= a);
        assert((p + b).subrange(p.len() as int, (p + b).len() as int) =~= b);
    }
}

/// A supported type holds no unit type.
pub proof fn lemma_supported_no_void(t: TypeView)
    requires
        type_supported(t),
    ensures
        no_void(t),
    decreases t,
{
    reveal_with_fuel(no_void, 3);
    match t {
        TypeView::Ref(i, _) => lemma_supported_no_void(*i),
        _ => {},
    }
}

/// An interface that the registry accepts holds no unit type where the
/// emitters would have to write one.
pub proof fn lemma_accepted_apis_ok(apis: Seq<Api>)
    requires
        first_error(apis) is None,
    ensures
        apis_ok(apis),
    decreases apis.len(),
{
    if apis.len() > 0 {
        lemma_accepted_apis_ok(apis.drop_last());
        let last = apis.last();
        assert(api_error(last, names_of(apis.drop_last())) is None);
        match last {
            Api::Struct(s) => {
                assert forall|i: int| 0 <= i < s.fields@.len() implies no_void(
                    #[trigger] s.fields@[i].ty@,
                ) by {
                    lemma_supported_no_void(s.fields@[i].ty@);
                }
            },
            Api::CxxFunction(f) | Api::RustFunction(f) => {
                assert forall|i: int| 0 <= i < f.args@.len() implies no_void(
                    #[trigger] f.args@[i].ty@,
                ) by {
                    lemma_supported_no_void(f.args@[i].ty@);
                }
                match f.ret {
                    Some(t) => lemma_supported_no_void(t@),
                    None => {},
                }
            },
            _ => {},
        }
        assert forall|i: int| 0 <= i < apis.len() implies api_types_ok(#[trigger] apis[i]) by {
            if i < apis.len() - 1 {
                assert(apis[i] == apis.drop_last()[i]);
            }
        }
    }
}

/// Whether a list of types holds each type at most once.
pub open spec fn distinct(s: Seq<TypeView>) -> bool {
    forall|i: int, j: int| 0 <= i < j < s.len() ==> s[i] != s[j]
}

proof fn lemma_visit_distinct(acc: Seq<TypeView>, t: TypeView)
    requires
        distinct(acc),
    ensures
        distinct(visit(acc, t)),
    decreases t,
{
    let a = insert_type(acc, t);
    if !acc.contains(t) {
        assert forall|i: int, j: int| 0 <= i < j < a.len() implies a[i] != a[j] by {
            if j == acc.len() {
                assert(a[i] == acc[i]);
            }
        }
    }
    match t {
        TypeView::RustBox(i) => lemma_visit_distinct(a, *i),
        TypeView::RustVec(i) => lemma_visit_distinct(a, *i),
        TypeView::UniquePtr(i) => lemma_visit_distinct(a, *i),
        TypeView::Vector(i) => lemma_visit_distinct(a, *i),
        TypeView::Ref(i, _) => lemma_visit_distinct(a, *i),
        _ => {},
    }
}

proof fn lemma_visit_vars_distinct(acc: Seq<TypeView>, vars: Seq<Var>)
    requires
        distinct(acc),
    ensures
        distinct(visit_vars(acc, vars)),
    decreases vars.len(),
{
    if vars.len() > 0 {
        lemma_visit_vars_distinct(acc, vars.drop_last());
        lemma_visit_distinct(visit_vars(acc, vars.drop_last()), vars.last().ty@);
    }
}

/// Idempotence of instantiation: the registry holds each concrete type once,
/// so the instantiation pass, which writes at most one guarded block per
/// observed type and wrapper kind, writes no block twice.
pub proof fn lemma_collected_distinct(apis: Seq<Api>)
    ensures
        distinct(collected(apis)),
    decreases apis.len(),
{
    if apis.len() > 0 {
        lemma_collected_distinct(apis.drop_last());
        let acc = collected(apis.drop_last());
        match apis.last() {
            Api::Struct(s) => lemma_visit_vars_distinct(acc, s.fields@),
            Api::CxxFunction(f) | Api::RustFunction(f) => {
                lemma_visit_vars_distinct(acc, f.args@);
                match f.ret {
                    Some(t) => lemma_visit_distinct(visit_vars(acc, f.args@), t@),
                    None => {},
                }
            },
            _ => {},
        }
    }
}

proof fn lemma_box_guarded(inner: Seq<char>, inst: Seq<char>)
    ensures
        ({
            let g = "#ifndef CXXBRIDGE02_RUST_BOX_"@ + inst;
            rust_box_extern_text(inner, inst).subrange(0, g.len() as int) == g
        }),
{
    let g = "#ifndef CXXBRIDGE02_RUST_BOX_"@ + inst;
    assert(rust_box_extern_text(inner, inst).subrange(0, g.len() as int) =~= g);
}

proof fn lemma_rust_vec_guarded(inner: Seq<char>, inst: Seq<char>)
    ensures
        ({
            let g = "#ifndef CXXBRIDGE02_RUST_VEC_"@ + inst;
            rust_vec_extern_text(inner, inst).subrange(0, g.len() as int) == g
        }),
{
    let g = "#ifndef CXXBRIDGE02_RUST_VEC_"@ + inst;
    assert(rust_vec_extern_text(inner, inst).subrange(0, g.len() as int) =~= g);
}

proof fn lemma_unique_ptr_guarded(inner: Seq<char>, inst: Seq<char>)
    ensures
        ({
            let g = "#ifndef CXXBRIDGE02_UNIQUE_PTR_"@ + inst;
            unique_ptr_text(inner, inst).subrange(0, g.len() as int) == g
        }),
{
    let g = "#ifndef CXXBRIDGE02_UNIQUE_PTR_"@ + inst;
    let p = crate::generic::unique_ptr_part0(inner, inst);
    assert(p.subrange(0, g.len() as int) =~= g);
    assert(unique_ptr_text(inner, inst).subrange(0, g.len() as int) =~= g);
}

proof fn lemma_vector_guarded(inner: Seq<char>, inst: Seq<char>)
    ensures
        ({
            let g = "#ifndef CXXBRIDGE02_vector_"@ + inst;
            vector_text(inner, inst).subrange(0, g.len() as int) == g
        }),
{
    let g = "#ifndef CXXBRIDGE02_vector_"@ + inst;
    assert(vector_text(inner, inst).subrange(0, g.len() as int) =~= g);
}

/// Each native instantiation block opens with a guard keyed to its wrapper
/// kind and mangled instance name, so that a second copy in one translation
/// unit is skipped.
pub proof fn lemma_instantiation_guarded(inner: Seq<char>, inst: Seq<char>)
    ensures
        ({
            let g = "#ifndef CXXBRIDGE02_RUST_BOX_"@ + inst;
            rust_box_extern_text(inner, inst).subrange(0, g.len() as int) == g
        }),
        ({
            let g = "#ifndef CXXBRIDGE02_RUST_VEC_"@ + inst;
            rust_vec_extern_text(inner, inst).subrange(0, g.len() as int) == g
        }),
        ({
            let g = "#ifndef CXXBRIDGE02_UNIQUE_PTR_"@ + inst;
            unique_ptr_text(inner, inst).subrange(0, g.len() as int) == g
        }),
        ({
            let g = "#ifndef CXXBRIDGE02_vector_"@ + inst;
            vector_text(inner, inst).subrange(0, g.len() as int) == g
        }),
{
    lemma_box_guarded(inner, inst);
    lemma_rust_vec_guarded(inner, inst);
    lemma_unique_ptr_guarded(inner, inst);
    lemma_vector_guarded(inner, inst);
}

proof fn lemma_name_declared(apis: Seq<Api>, k: int, s: Struct)
    requires
        0 <= k < apis.len(),
        apis[k] == Api::Struct(s),
    ensures
        names_of(apis).contains(s.ident@),
    decreases apis.len(),
{
    if k < apis.len() - 1 {
        assert(apis.drop_last()[k] == apis[k]);
        lemma_name_declared(apis.drop_last(), k, s);
        let n = names_of(apis.drop_last());
        let j = choose|j: int| 0 <= j < n.len() && n[j] == s.ident@;
        match apis.last() {
            Api::Struct(_) | Api::CxxType(_) | Api::RustType(_) => {
                assert(names_of(apis)[j] == s.ident@);
            },
            _ => {},
        }
    } else {
        assert(names_of(apis).last() == s.ident@);
    }
}

/// In an accepted interface, the class that the registry records for a
/// value struct is the struct's own.
pub proof fn lemma_struct_class(apis: Seq<Api>, k: int, s: Struct)
    requires
        first_error(apis) is None,
        0 <= k < apis.len(),
        apis[k] == Api::Struct(s),
    ensures
        struct_classes(apis).contains_key(s.ident@),
        struct_classes(apis)[s.ident@] == struct_is_direct(s),
    decreases apis.len(),
{
    if k < apis.len() - 1 {
        assert(apis.drop_last()[k] == apis[k]);
        lemma_struct_class(apis.drop_last(), k, s);
        lemma_name_declared(apis.drop_last(), k, s);
        assert(api_error(apis.last(), names_of(apis.drop_last())) is None);
    }
}

/// Classification stability: in an accepted interface, a value struct whose
/// fields are all numbers or `bool` passes directly; one with a field of the
/// managed-side owned string or of a managed-side sequence passes through
/// caller-allocated storage. The class depends on the interface alone, so
/// every query gives the same answer.
pub proof fn lemma_classification(apis: Seq<Api>, k: int, s: Struct)
    requires
        first_error(apis) is None,
        0 <= k < apis.len(),
        apis[k] == Api::Struct(s),
    ensures
        struct_is_direct(s) ==> !indirect(struct_classes(apis), TypeView::Ident(s.ident@)),
        (exists|i: int|
            0 <= i < s.fields@.len() && (is_rust_string(#[trigger] s.fields@[i].ty@)
                || s.fields@[i].ty@ is RustVec)) ==> indirect(
            struct_classes(apis),
            TypeView::Ident(s.ident@),
        ),
{
    lemma_struct_class(apis, k, s);
    reveal_strlit("bool");
    reveal_strlit("u8");
    reveal_strlit("u16");
    reveal_strlit("u32");
    reveal_strlit("u64");
    reveal_strlit("usize");
    reveal_strlit("i8");
    reveal_strlit("i16");
    reveal_strlit("i32");
    reveal_strlit("i64");
    reveal_strlit("isize");
    reveal_strlit("f32");
    reveal_strlit("f64");
    reveal_strlit("CxxString");
    reveal_strlit("String");
    if exists|i: int|
        0 <= i < s.fields@.len() && (is_rust_string(#[trigger] s.fields@[i].ty@)
            || s.fields@[i].ty@ is RustVec) {
        let i = choose|i: int|
            0 <= i < s.fields@.len() && (is_rust_string(#[trigger] s.fields@[i].ty@)
                || s.fields@[i].ty@ is RustVec);
        assert("bool"@.len() == 4);
        assert("u8"@.len() == 2);
        assert("u16"@.len() == 3);
        assert("u32"@.len() == 3);
        assert("u64"@.len() == 3);
        assert("usize"@.len() == 5);
        assert("i8"@.len() == 2);
        assert("i16"@.len() == 3);
        assert("i32"@.len() == 3);
        assert("i64"@.len() == 3);
        assert("isize"@.len() == 5);
        assert("f32"@.len() == 3);
        assert("f64"@.len() == 3);
        assert("CxxString"@.len() == 9);
        assert("String"@.len() == 6);
        assert(atom_of("String"@) == Some(crate::atom::Atom::RustString));
        assert(!crate::types::is_primitive(s.fields@[i].ty@));
    }
}

/// Fallibility: a fallible function hands its result, if any, back through
/// the out-parameter whatever the result's own class, and its entry point
/// returns the record that carries an error message.
pub proof fn lemma_fallible(efn: &ExternFn, structs: Map<Seq<char>, bool>)
    requires
        efn.throws,
    ensures
        efn.ret is Some ==> returns_indirectly(efn, structs),
        lowered_return_text(efn, structs) == "::rust::Str::Repr "@,
{
}

/// Ownership transfer: an owned pointer leaves its sender as a raw pointer
/// (`release`, `into_raw`), which empties the sender's handle, and the
/// receiver rebuilds the owner from it.
pub proof fn lemma_ownership_transfer(v: Var, structs: Map<Seq<char>, bool>)
    ensures
        v.ty@ is UniquePtr ==> arg_text(ArgStyle::WrapperCall, v, structs) == v.ident@
            + ".release()"@,
        v.ty@ is RustBox ==> arg_text(ArgStyle::WrapperCall, v, structs) == v.ident@
            + ".into_raw()"@,
        v.ty@ is UniquePtr ==> arg_text(ArgStyle::ShimCall, v, structs) == type_text(v.ty@)
            + "("@ + v.ident@ + ")"@,
        v.ty@ is RustBox ==> arg_text(ArgStyle::ShimCall, v, structs) == type_text(v.ty@)
            + "::from_raw("@ + v.ident@ + ")"@,
{
    assert(Seq::<char>::empty() + v.ident@ =~= v.ident@);
}

/// Whether a value crosses the boundary as it is: a named type that is
/// neither the managed-side string nor in need of caller-allocated storage.
pub open spec fn direct_value(t: TypeView, structs: Map<Seq<char>, bool>) -> bool {
    t is Ident && !is_rust_string(t) && !indirect(structs, t)
}

/// The names of the arguments, separated by commas.
pub open spec fn names_text(args: Seq<Var>) -> Seq<char>
    decreases args.len(),
{
    if args.len() == 0 {
        Seq::empty()
    } else {
        names_text(args.drop_last()) + (if args.len() > 1 {
            ", "@
        } else {
            Seq::empty()
        }) + args.last().ident@
    }
}

/// Whether every argument crosses as it is.
pub open spec fn all_direct(args: Seq<Var>, structs: Map<Seq<char>, bool>) -> bool {
    forall|i: int| 0 <= i < args.len() ==> direct_value(#[trigger] args[i].ty@, structs)
}

proof fn lemma_direct_args(args: Seq<Var>, structs: Map<Seq<char>, bool>)
    requires
        all_direct(args, structs),
    ensures
        args_text(ArgStyle::ShimCall, args, structs) == names_text(args),
        args_text(ArgStyle::WrapperCall, args, structs) == names_text(args),
        managed_args_text(ManagedArg::ShimVar, args, structs) == names_text(args),
        managed_args_text(ManagedArg::EntryVar, args, structs) == names_text(args),
    decreases args.len(),
{
    if args.len() > 0 {
        assert(all_direct(args.drop_last(), structs)) by {
            assert forall|i: int| 0 <= i < args.drop_last().len() implies direct_value(
                #[trigger] args.drop_last()[i].ty@,
                structs,
            ) by {
                assert(args.drop_last()[i] == args[i]);
            }
        }
        lemma_direct_args(args.drop_last(), structs);
        let v = args.last();
        assert(direct_value(args[args.len() - 1].ty@, structs));
        assert(Seq::<char>::empty() + v.ident@ + Seq::<char>::empty() =~= v.ident@);
    }
}

/// Round trip of direct values: where every argument and the result of a
/// free, infallible function cross as they are, each side hands every
/// argument on by its name, in the declared order, and the result back with
/// no conversion, so what arrives is what was sent.
pub proof fn lemma_direct_round_trip(efn: &ExternFn, structs: Map<Seq<char>, bool>)
    requires
        !efn.throws,
        efn.receiver is None,
        all_direct(efn.args@, structs),
        match efn.ret {
            Some(t) => direct_value(t@, structs),
            None => true,
        },
    ensures
        shim_call_text(efn, structs) == (if efn.ret is Some {
            "return "@
        } else {
            Seq::empty()
        }) + efn.ident@ + "$("@ + names_text(efn.args@) + ")"@,
        call_text(efn, structs) == "__"@ + efn.ident@ + "("@ + names_text(efn.args@) + ")"@,
        result_conversion_text(ret_view(efn.ret), false, call_text(efn, structs)) == call_text(
            efn,
            structs,
        ),
        entry_expr_text(efn, structs) == "::cxx::private::catch_unwind(__fn, move || "@
            + "super::"@ + efn.ident@ + "("@ + names_text(efn.args@) + ")"@ + ")"@,
{
    lemma_direct_args(efn.args@, structs);
    let n = names_text(efn.args@);
    assert(call_text(efn, structs) =~= "__"@ + efn.ident@ + "("@ + n + ")"@);
    assert(shim_call_text(efn, structs) =~= (if efn.ret is Some {
        "return "@
    } else {
        Seq::empty()
    }) + efn.ident@ + "$("@ + n + ")"@);
    let call = "super::"@ + efn.ident@ + "("@ + n + ")"@;
    assert(crate::expand::entry_callee_text(efn) + managed_args_text(ManagedArg::EntryVar, efn.args@, structs) + ")"@ =~= call);
    assert(crate::expand::entry_result_text(ret_view(efn.ret), call) == call);
    assert(entry_expr_text(efn, structs) =~= "::cxx::private::catch_unwind(__fn, move || "@
        + call + ")"@);
}

} // verus!
