use vstd::prelude::*;
use vstd::string::*;
use crate::generic::{
    any_instance, any_unique_ptr, has_instances, instantiations_state, write_generic_instantiations,
};
use crate::headers::{
    cxxbridge_includes, include_cxxbridge_state, includes_for_types, includes_string,
    includes_text, needs_of, write_include_cxxbridge, write_includes,
};
use crate::out::{
    begin_block_state, end_block_state, next_section_state, put, IncludesView, OutFile, OutState,
};
use crate::syntax::{fn_types_ok, struct_types_ok, Api};
use crate::types::{collected, first_error, name_views, struct_classes, Error, Types};
use crate::write::{
    cxx_shim_text, exception_glue_text, has_cxx_throws, moves_any, returns_indirectly,
    rust_decl_text, rust_shim_text, struct_decl_text, struct_text, struct_using_text,
    write_cxx_function_shim, write_exception_glue, write_rust_function_decl,
    write_rust_function_shim, write_struct, write_struct_decl, write_struct_using,
};

verus! {

/// Whether the types of one declaration are free of the unit type.
pub open spec fn api_types_ok(api: Api) -> bool {
    match api {
        Api::Struct(s) => struct_types_ok(&s),
        Api::CxxFunction(f) => fn_types_ok(&f),
        Api::RustFunction(f) => fn_types_ok(&f),
        _ => true,
    }
}

/// Whether the types of every declaration are free of the unit type.
pub open spec fn apis_ok(apis: Seq<Api>) -> bool {
    forall|i: int| 0 <= i < apis.len() ==> api_types_ok(#[trigger] apis[i])
}

/// The passes over the declarations that write one kind of item each.
#[derive(Clone, Copy, Debug, PartialEq, Eq, Structural)]
pub enum Pass {
    /// Forward declarations and aliases of the declared types.
    Decls,
    /// Definitions of the value structs.
    Structs,
    /// Trampolines of native functions, entry point declarations of managed
    /// functions.
    Functions,
    /// Native wrappers of managed functions.
    Wrappers,
}

/// What one pass writes for one declaration.
pub open spec fn pass_step(
    pass: Pass,
    st: OutState,
    api: Api,
    ns: Seq<Seq<char>>,
    structs: Map<Seq<char>, bool>,
    header: bool,
) -> OutState {
    match (pass, api) {
        (Pass::Decls, Api::Struct(s)) => put(st, struct_decl_text(s.ident@)),
        (Pass::Decls, Api::CxxType(e)) => put(st, struct_using_text(e.ident@)),
        (Pass::Decls, Api::RustType(e)) => put(st, struct_decl_text(e.ident@)),
        (Pass::Structs, Api::Struct(s)) => put(next_section_state(st), struct_text(&s)),
        (Pass::Functions, Api::CxxFunction(f)) => put(
            next_section_state(st),
            cxx_shim_text(&f, ns, structs),
        ),
        (Pass::Functions, Api::RustFunction(f)) => put(
            next_section_state(st),
            rust_decl_text(&f, ns, structs),
        ),
        (Pass::Wrappers, Api::RustFunction(f)) => put(
            next_section_state(st),
            rust_shim_text(&f, ns, structs, header),
        ),
        _ => st,
    }
}

/// The headers that one pass marks for one declaration.
pub open spec fn pass_includes(
    pass: Pass,
    inc: IncludesView,
    api: Api,
    structs: Map<Seq<char>, bool>,
    header: bool,
) -> IncludesView {
    match (pass, api) {
        (Pass::Functions, Api::CxxFunction(f)) => IncludesView {
            utility: inc.utility || moves_any(f.args@, structs),
            cstring: inc.cstring || f.throws,
            ..inc
        },
        (Pass::Wrappers, Api::RustFunction(f)) => IncludesView {
            utility: inc.utility || (!header && (moves_any(f.args@, structs) || returns_indirectly(
                &f,
                structs,
            ))),
            ..inc
        },
        _ => inc,
    }
}

/// One pass over every declaration in order.
pub open spec fn pass_state(
    pass: Pass,
    st: OutState,
    apis: Seq<Api>,
    ns: Seq<Seq<char>>,
    structs: Map<Seq<char>, bool>,
    header: bool,
) -> OutState
    decreases apis.len(),
{
    if apis.len() == 0 {
        st
    } else {
        pass_step(
            pass,
            pass_state(pass, st, apis.drop_last(), ns, structs, header),
            apis.last(),
            ns,
            structs,
            header,
        )
    }
}

/// The headers that one pass marks over every declaration.
pub open spec fn pass_includes_all(
    pass: Pass,
    inc: IncludesView,
    apis: Seq<Api>,
    structs: Map<Seq<char>, bool>,
    header: bool,
) -> IncludesView
    decreases apis.len(),
{
    if apis.len() == 0 {
        inc
    } else {
        pass_includes(
            pass,
            pass_includes_all(pass, inc, apis.drop_last(), structs, header),
            apis.last(),
            structs,
            header,
        )
    }
}

/// The passes that write declarations and structs mark no header.
pub proof fn lemma_pass_keeps_includes(
    pass: Pass,
    inc: IncludesView,
    apis: Seq<Api>,
    structs: Map<Seq<char>, bool>,
    header: bool,
)
    requires
        pass == Pass::Decls || pass == Pass::Structs,
    ensures
        pass_includes_all(pass, inc, apis, structs, header) == inc,
    decreases apis.len(),
{
    if apis.len() > 0 {
        lemma_pass_keeps_includes(pass, inc, apis.drop_last(), structs, header);
    }
}

fn write_pass_step(out: &mut OutFile, pass: Pass, api: &Api, types: &Types)
    requires
        types.wf(),
        api_types_ok(*api),
    ensures
        final(out)@ == pass_step(
            pass,
            old(out)@,
            *api,
            name_views(old(out).namespace@),
            types@.structs,
            old(out).header,
        ),
        final(out).includes@ == pass_includes(
            pass,
            old(out).includes@,
            *api,
            types@.structs,
            old(out).header,
        ),
        final(out).namespace@ == old(out).namespace@,
        final(out).header == old(out).header,
{
    match (pass, api) {
        (Pass::Decls, Api::Struct(s)) => write_struct_decl(out, &s.ident),
        (Pass::Decls, Api::CxxType(e)) => write_struct_using(out, &e.ident),
        (Pass::Decls, Api::RustType(e)) => write_struct_decl(out, &e.ident),
        (Pass::Structs, Api::Struct(s)) => {
            out.next_section();
            write_struct(out, s);
        },
        (Pass::Functions, Api::CxxFunction(f)) => {
            out.next_section();
            write_cxx_function_shim(out, f, types);
        },
        (Pass::Functions, Api::RustFunction(f)) => {
            out.next_section();
            write_rust_function_decl(out, f, types);
        },
        (Pass::Wrappers, Api::RustFunction(f)) => {
            out.next_section();
            write_rust_function_shim(out, f, types);
        },
        _ => {},
    }
}

/// Runs one pass over every declaration in order.
pub fn write_pass(out: &mut OutFile, pass: Pass, apis: &Vec<Api>, types: &Types)
    requires
        types.wf(),
        apis_ok(apis@),
    ensures
        final(out)@ == pass_state(
            pass,
            old(out)@,
            apis@,
            name_views(old(out).namespace@),
            types@.structs,
            old(out).header,
        ),
        final(out).includes@ == pass_includes_all(
            pass,
            old(out).includes@,
            apis@,
            types@.structs,
            old(out).header,
        ),
        final(out).namespace@ == old(out).namespace@,
        final(out).header == old(out).header,
{
    let mut i: usize = 0;
    while i < apis.len()
        invariant
            i <= apis@.len(),
            types.wf(),
            apis_ok(apis@),
            out@ == pass_state(
                pass,
                old(out)@,
                apis@.subrange(0, i as int),
                name_views(old(out).namespace@),
                types@.structs,
                old(out).header,
            ),
            out.includes@ == pass_includes_all(
                pass,
                old(out).includes@,
                apis@.subrange(0, i as int),
                types@.structs,
                old(out).header,
            ),
            out.namespace@ == old(out).namespace@,
            out.header == old(out).header,
        decreases apis@.len() - i,
    {
        assert(api_types_ok(apis@[i as int]));
        write_pass_step(out, pass, &apis[i], types);
        assert(apis@.subrange(0, i + 1).drop_last() =~= apis@.subrange(0, i as int));
        i = i + 1;
    }
    assert(apis@.subrange(0, i as int) =~= apis@);
}

/// The header files that the declarations name, in order.
pub open spec fn custom_of(apis: Seq<Api>) -> Seq<Seq<char>>
    decreases apis.len(),
{
    if apis.len() == 0 {
        Seq::empty()
    } else {
        let c = custom_of(apis.drop_last());
        match apis.last() {
            Api::Include(path) => c.push(path@),
            _ => c,
        }
    }
}

/// The lines that open the namespaces, outermost first.
pub open spec fn ns_open_text(ns: Seq<Seq<char>>) -> Seq<char>
    decreases ns.len(),
{
    if ns.len() == 0 {
        Seq::empty()
    } else {
        ns_open_text(ns.drop_last()) + "namespace "@ + ns.last() + " {\n"@
    }
}

/// The lines that close the namespaces, innermost first.
pub open spec fn ns_close_text(ns: Seq<Seq<char>>) -> Seq<char>
    decreases ns.len(),
{
    if ns.len() == 0 {
        Seq::empty()
    } else {
        "} // namespace "@ + ns.last() + "\n"@ + ns_close_text(ns.drop_last())
    }
}

/// The declaration of the message-copying function, where it is needed.
pub open spec fn exception_state(st: OutState, apis: Seq<Api>) -> OutState {
    if has_cxx_throws(apis) {
        put(next_section_state(st), exception_glue_text())
    } else {
        st
    }
}

/// An empty artifact.
pub open spec fn empty_state() -> OutState {
    OutState { content: Seq::empty(), section_pending: false, blocks: Seq::empty() }
}

/// The body of an artifact, before the header lines go in front: runtime
/// support, namespaces, declarations, struct definitions, and in a
/// definition artifact the trampolines and entry point declarations; then
/// the wrappers of managed functions and, in a definition artifact, the
/// generic instantiations.
pub open spec fn gen_body(
    ns: Seq<Seq<char>>,
    apis: Seq<Api>,
    all: Seq<crate::syntax::TypeView>,
    structs: Map<Seq<char>, bool>,
    header: bool,
    runtime: Seq<String>,
) -> OutState {
    let s1 = if header {
        put(empty_state(), "#pragma once\n"@)
    } else {
        empty_state()
    };
    let s2 = include_cxxbridge_state(s1, needs_of(apis, all, structs, header), runtime);
    let s3 = put(next_section_state(s2), ns_open_text(ns));
    let s4 = pass_state(Pass::Decls, next_section_state(s3), apis, ns, structs, header);
    let s5 = pass_state(Pass::Structs, s4, apis, ns, structs, header);
    let s5g = if !header && any_instance(all) {
        glue_state(s5, ns, all)
    } else {
        s5
    };
    let s6 = if header {
        s5g
    } else {
        end_block_state(
            pass_state(
                Pass::Functions,
                exception_state(begin_block_state(s5g, "extern \"C\""@), apis),
                apis,
                ns,
                structs,
                header,
            ),
            "extern \"C\""@,
        )
    };
    let s7 = pass_state(Pass::Wrappers, s6, apis, ns, structs, header);
    put(next_section_state(s7), ns_close_text(ns))
}

/// The instantiation glue at the outermost scope, ahead of every function
/// body: the namespaces are closed around it and opened again after it.
pub open spec fn glue_state(st: OutState, ns: Seq<Seq<char>>, all: Seq<crate::syntax::TypeView>) -> OutState {
    let closed = put(next_section_state(st), ns_close_text(ns));
    let glued = instantiations_state(next_section_state(closed), ns, all);
    put(next_section_state(glued), ns_open_text(ns))
}

/// The headers that an artifact needs.
pub open spec fn gen_includes(
    apis: Seq<Api>,
    all: Seq<crate::syntax::TypeView>,
    structs: Map<Seq<char>, bool>,
    header: bool,
) -> IncludesView {
    let i0 = IncludesView {
        custom: custom_of(apis),
        array: false,
        cstdint: false,
        cstring: false,
        exception: false,
        memory: false,
        string: false,
        type_traits: false,
        utility: false,
        vector: false,
    };
    let i2 = cxxbridge_includes(
        includes_for_types(i0, all),
        needs_of(apis, all, structs, header),
    );
    let i2g = if !header && any_instance(all) {
        IncludesView { utility: i2.utility || any_unique_ptr(all), ..i2 }
    } else {
        i2
    };
    let i3 = if header {
        i2g
    } else {
        pass_includes_all(Pass::Functions, i2g, apis, structs, header)
    };
    pass_includes_all(Pass::Wrappers, i3, apis, structs, header)
}

fn ns_open_string(ns: &Vec<String>) -> (r: String)
    ensures
        r@ == ns_open_text(name_views(ns@)),
{
    let ghost v = name_views(ns@);
    let mut buf = String::new();
    let mut i: usize = 0;
    while i < ns.len()
        invariant
            i <= ns@.len(),
            v == name_views(ns@),
            buf@ == ns_open_text(v.subrange(0, i as int)),
        decreases ns@.len() - i,
    {
        buf.append("namespace ");
        buf.append(ns[i].as_str());
        buf.append(" {\n");
        let ghost s = v.subrange(0, i + 1);
        assert(s.drop_last() =~= v.subrange(0, i as int));
        assert(s.last() == ns@[i as int]@);
        assert(buf@ =~= ns_open_text(s));
        i = i + 1;
    }
    assert(v.subrange(0, i as int) =~= v);
    buf
}

fn ns_close_string(ns: &Vec<String>) -> (r: String)
    ensures
        r@ == ns_close_text(name_views(ns@)),
{
    let ghost v = name_views(ns@);
    let mut buf = String::new();
    let mut i: usize = ns.len();
    assert(v.subrange(0, i as int) =~= v);
    assert(buf@ + ns_close_text(v.subrange(0, i as int)) =~= ns_close_text(v));
    while i > 0
        invariant
            i <= ns@.len(),
            v == name_views(ns@),
            buf@ + ns_close_text(v.subrange(0, i as int)) == ns_close_text(v),
        decreases i,
    {
        let ghost s = v.subrange(0, i as int);
        assert(s.drop_last() =~= v.subrange(0, i - 1));
        assert(s.last() == ns@[i - 1]@);
        buf.append("} // namespace ");
        buf.append(ns[i - 1].as_str());
        buf.append("\n");
        i = i - 1;
        assert(buf@ + ns_close_text(v.subrange(0, i as int)) =~= ns_close_text(v));
    }
    assert(buf@ =~= ns_close_text(v));
    buf
}

#[verifier::rlimit(30)]
fn collect_custom(out: &mut OutFile, apis: &Vec<Api>)
    ensures
        final(out).includes@ == (IncludesView {
            custom: old(out).includes@.custom + custom_of(apis@),
            ..old(out).includes@
        }),
        final(out)@ == old(out)@,
        final(out).namespace@ == old(out).namespace@,
        final(out).header == old(out).header,
{
    let mut i: usize = 0;
    assert(old(out).includes@.custom + custom_of(apis@.subrange(0, 0)) =~= old(out).includes@.custom);
    while i < apis.len()
        invariant
            i <= apis@.len(),
            out.includes@ == (IncludesView {
                custom: old(out).includes@.custom + custom_of(apis@.subrange(0, i as int)),
                ..old(out).includes@
            }),
            out@ == old(out)@,
            out.namespace@ == old(out).namespace@,
            out.header == old(out).header,
        decreases apis@.len() - i,
    {
        let ghost before = out.includes@.custom;
        match &apis[i] {
            Api::Include(path) => {
                out.includes.insert(path.clone());
                assert(out.includes@.custom =~= before.push(path@));
            },
            _ => {},
        }
        let ghost s = apis@.subrange(0, i + 1);
        assert(s.drop_last() =~= apis@.subrange(0, i as int));
        assert(out.includes@.custom =~= old(out).includes@.custom + custom_of(s));
        i = i + 1;
    }
    assert(apis@.subrange(0, i as int) =~= apis@);
}

/// Generates one native artifact of an interface: the declaration artifact
/// where `header` is set, else the definition artifact. `types` is the
/// interface's registry; `runtime` holds the lines of the runtime header,
/// whose needed sections are copied in.
#[verifier::rlimit(30)]
pub fn gen(
    namespace: Vec<String>,
    apis: &Vec<Api>,
    types: &Types,
    header: bool,
    runtime: &Vec<String>,
) -> (r: OutFile)
    requires
        types.wf(),
        apis_ok(apis@),
    ensures
        r.includes@ == gen_includes(apis@, types@.all, types@.structs, header),
        r@ == (OutState {
            content: includes_text(gen_includes(apis@, types@.all, types@.structs, header))
                + gen_body(
                name_views(namespace@),
                apis@,
                types@.all,
                types@.structs,
                header,
                runtime@,
            ).content,
            ..gen_body(name_views(namespace@), apis@, types@.all, types@.structs, header, runtime@)
        }),
        r.namespace@ == namespace@,
        r.header == header,
{
    let ghost ns = name_views(namespace@);
    let ghost all = types@.all;
    let ghost structs = types@.structs;
    let ghost n = needs_of(apis@, all, structs, header);
    let mut out = OutFile::new(namespace, header);
    if header {
        out.write("#pragma once\n");
    }
    collect_custom(&mut out, apis);
    assert(out.includes@.custom =~= custom_of(apis@));
    write_includes(&mut out, types);
    write_include_cxxbridge(&mut out, apis, types, runtime);
    let ghost i2 = out.includes@;
    assert(out@ == include_cxxbridge_state(
        if header { put(empty_state(), "#pragma once\n"@) } else { empty_state() },
        n,
        runtime@,
    ));
    out.next_section();
    let open = ns_open_string(&out.namespace);
    out.write(open.as_str());
    out.next_section();
    write_pass(&mut out, Pass::Decls, apis, types);
    write_pass(&mut out, Pass::Structs, apis, types);
    proof {
        lemma_pass_keeps_includes(Pass::Decls, i2, apis@, structs, header);
        lemma_pass_keeps_includes(Pass::Structs, i2, apis@, structs, header);
    }
    if !header && has_instances(types) {
        out.next_section();
        let close = ns_close_string(&out.namespace);
        out.write(close.as_str());
        out.next_section();
        write_generic_instantiations(&mut out, types);
        out.next_section();
        let open = ns_open_string(&out.namespace);
        out.write(open.as_str());
    }
    let ghost i2g = out.includes@;
    if !header {
        out.begin_block("extern \"C\"");
        write_exception_glue(&mut out, apis);
        write_pass(&mut out, Pass::Functions, apis, types);
        out.end_block("extern \"C\"");
    }
    let ghost i3 = out.includes@;
    assert(i3 == if header {
        i2g
    } else {
        pass_includes_all(Pass::Functions, i2g, apis@, structs, header)
    });
    write_pass(&mut out, Pass::Wrappers, apis, types);
    out.next_section();
    let close = ns_close_string(&out.namespace);
    out.write(close.as_str());
    assert(out.includes@ == gen_includes(apis@, all, structs, header));
    assert(out@ == gen_body(ns, apis@, all, structs, header, runtime@));
    let text = includes_string(&out.includes);
    out.prepend(text);
    out
}

/// Checks an interface and generates one native artifact of it: rejects
/// the interface at its first bad declaration, else builds its registry and
/// hands it to [`gen`].
#[verifier::rlimit(30)]
pub fn generate(
    namespace: Vec<String>,
    apis: &Vec<Api>,
    header: bool,
    runtime: &Vec<String>,
) -> (r: Result<OutFile, Error>)
    ensures
        match r {
            Ok(out) => {
                &&& first_error(apis@) is None
                &&& out.includes@ == gen_includes(
                    apis@,
                    collected(apis@),
                    struct_classes(apis@),
                    header,
                )
                &&& out@ == (OutState {
                    content: includes_text(
                        gen_includes(apis@, collected(apis@), struct_classes(apis@), header),
                    ) + gen_body(
                        name_views(namespace@),
                        apis@,
                        collected(apis@),
                        struct_classes(apis@),
                        header,
                        runtime@,
                    ).content,
                    ..gen_body(
                        name_views(namespace@),
                        apis@,
                        collected(apis@),
                        struct_classes(apis@),
                        header,
                        runtime@,
                    )
                })
            },
            Err(e) => first_error(apis@) == Some((e.kind, e.ident@)),
        },
{
    match Types::collect(apis) {
        Ok(types) => {
            proof {
                crate::laws::lemma_accepted_apis_ok(apis@);
            }
            Ok(gen(namespace, apis, &types, header, runtime))
        },
        Err(e) => Err(e),
    }
}

} // verus!
