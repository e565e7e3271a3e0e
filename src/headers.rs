use vstd::prelude::*;
use vstd::string::*;
use crate::atom::{atom_of, Atom};
use crate::out::{
    begin_block_state, end_block_state, next_section_state, put, IncludesView, OutFile, OutState,
};
use crate::strings::{char_is_whitespace, escape_default, escaped, is_white_space, str_eq};
use crate::syntax::{is_rust_string, Api, Type, TypeView, Var};
use crate::write::moves_any;
use crate::types::{views, Types};
use crate::write::returns_indirectly;

verus! {

/// `s` without its leading whitespace.
pub open spec fn trim_blank(s: Seq<char>) -> Seq<char>
    decreases s.len(),
{
    if s.len() > 0 && is_white_space(s[0]) {
        trim_blank(s.drop_first())
    } else {
        s
    }
}

/// Whether a line of the runtime header is a line comment.
pub open spec fn is_comment_line(s: Seq<char>) -> bool {
    let t = trim_blank(s);
    t.len() >= 2 && t[0] == '/' && t[1] == '/'
}

/// A line of the runtime header as copied: comments are left out.
pub open spec fn kept_line(s: Seq<char>) -> Seq<char> {
    if is_comment_line(s) {
        Seq::empty()
    } else {
        s + "\n"@
    }
}

/// The lines of the section guarded by `guard`: from the line that opens the
/// guard to the line that closes it, both included, comments left out.
pub open spec fn section_from(lines: Seq<String>, guard: Seq<char>, inside: bool) -> Seq<char>
    decreases lines.len(),
{
    if lines.len() == 0 {
        Seq::empty()
    } else {
        let l = lines[0]@;
        if !inside {
            if l == "#ifndef "@ + guard {
                kept_line(l) + section_from(lines.drop_first(), guard, true)
            } else {
                section_from(lines.drop_first(), guard, false)
            }
        } else if l == "#endif // "@ + guard {
            kept_line(l)
        } else {
            kept_line(l) + section_from(lines.drop_first(), guard, true)
        }
    }
}

/// Whether a line of the runtime header is a line comment.
pub fn is_comment(line: &str) -> (r: bool)
    ensures
        r == is_comment_line(line@),
{
    let n = line.unicode_len();
    let mut k: usize = 0;
    assert(line@.subrange(0, n as int) =~= line@);
    while k < n && char_is_whitespace(line.get_char(k))
        invariant
            k <= n,
            n == line@.len(),
            trim_blank(line@) == trim_blank(line@.subrange(k as int, n as int)),
        decreases n - k,
    {
        assert(line@.subrange(k as int, n as int).drop_first() =~= line@.subrange(
            k + 1,
            n as int,
        ));
        k = k + 1;
    }
    let ghost rest = line@.subrange(k as int, n as int);
    assert(trim_blank(rest) == rest);
    if n - k > 1 {
        line.get_char(k) == '/' && line.get_char(k + 1) == '/'
    } else {
        false
    }
}

fn push_kept(buf: &mut String, line: &String)
    ensures
        final(buf)@ == old(buf)@ + kept_line(line@),
{
    if !is_comment(line.as_str()) {
        let ghost start = buf@;
        buf.append(line.as_str());
        buf.append("\n");
        assert(buf@ =~= start + kept_line(line@));
    } else {
        assert(old(buf)@ + kept_line(line@) =~= old(buf)@);
    }
}

/// The lines of the runtime header's section guarded by `guard`.
#[verifier::rlimit(30)]
pub fn header_section(runtime: &Vec<String>, guard: &str) -> (r: String)
    ensures
        r@ == section_from(runtime@, guard@, false),
{
    let mut ifndef = String::new();
    ifndef.append("#ifndef ");
    ifndef.append(guard);
    let mut endif = String::new();
    endif.append("#endif // ");
    endif.append(guard);
    let ghost total = section_from(runtime@, guard@, false);
    let n = runtime.len();
    let mut buf = String::new();
    let mut inside = false;
    let mut i: usize = 0;
    assert(runtime@.subrange(0, n as int) =~= runtime@);
    assert(buf@ + section_from(runtime@.subrange(0, n as int), guard@, false) =~= total);
    while i < n
        invariant
            i <= n,
            n == runtime@.len(),
            ifndef@ == "#ifndef "@ + guard@,
            endif@ == "#endif // "@ + guard@,
            total == section_from(runtime@, guard@, false),
            buf@ + section_from(runtime@.subrange(i as int, n as int), guard@, inside) == total,
        decreases n - i,
    {
        let line = &runtime[i];
        let ghost rest = runtime@.subrange(i as int, n as int);
        assert(rest[0] == runtime@[i as int]);
        assert(rest.drop_first() =~= runtime@.subrange(i + 1, n as int));
        if !inside {
            if str_eq(line.as_str(), ifndef.as_str()) {
                push_kept(&mut buf, line);
                inside = true;
            }
        } else if str_eq(line.as_str(), endif.as_str()) {
            assert(section_from(rest, guard@, true) == kept_line(line@));
            push_kept(&mut buf, line);
            assert(buf@ =~= total);
            return buf;
        } else {
            push_kept(&mut buf, line);
        }
        assert(buf@ + section_from(runtime@.subrange(i + 1, n as int), guard@, inside) =~= total);
        i = i + 1;
    }
    assert(buf@ =~= total);
    buf
}

/// The state after copying a section of the runtime header where it is
/// needed.
pub open spec fn header_section_state(
    st: OutState,
    needed: bool,
    guard: Seq<char>,
    runtime: Seq<String>,
) -> OutState {
    if needed {
        put(next_section_state(st), section_from(runtime, guard, false))
    } else {
        st
    }
}

/// Copies, in a section of its own, the runtime header's section guarded by
/// `section`, where it is needed.
pub fn write_header_section(out: &mut OutFile, needed: bool, section: &str, runtime: &Vec<String>)
    ensures
        final(out)@ == header_section_state(old(out)@, needed, section@, runtime@),
        crate::out::keeps_frame(*old(out), *final(out)),
{
    if needed {
        out.next_section();
        let text = header_section(runtime, section);
        out.write(text.as_str());
    }
}

/// Whether an atom is a fixed-width or pointer-width integer.
pub open spec fn is_int_atom(a: Atom) -> bool {
    match a {
        Atom::U8 | Atom::U16 | Atom::U32 | Atom::U64 | Atom::Usize => true,
        Atom::I8 | Atom::I16 | Atom::I32 | Atom::I64 | Atom::Isize => true,
        _ => false,
    }
}

/// The standard headers that one observed type needs.
pub open spec fn includes_type_step(inc: IncludesView, t: TypeView) -> IncludesView {
    match t {
        TypeView::Ident(id) => match atom_of(id) {
            Some(a) => if is_int_atom(a) {
                IncludesView { cstdint: true, ..inc }
            } else if a == Atom::CxxString {
                IncludesView { string: true, ..inc }
            } else {
                inc
            },
            None => inc,
        },
        TypeView::RustBox(_) => IncludesView { type_traits: true, ..inc },
        TypeView::UniquePtr(_) => IncludesView { memory: true, ..inc },
        TypeView::Vector(_) => IncludesView { vector: true, ..inc },
        _ => inc,
    }
}

/// [`includes_type_step`] over each observed type.
pub open spec fn includes_for_types(inc: IncludesView, all: Seq<TypeView>) -> IncludesView
    decreases all.len(),
{
    if all.len() == 0 {
        inc
    } else {
        includes_type_step(includes_for_types(inc, all.drop_last()), all.last())
    }
}

/// Marks the standard headers that the observed types need.
#[verifier::rlimit(30)]
pub fn write_includes(out: &mut OutFile, types: &Types)
    ensures
        final(out).includes@ == includes_for_types(old(out).includes@, types@.all),
        final(out)@ == old(out)@,
        final(out).namespace@ == old(out).namespace@,
        final(out).header == old(out).header,
{
    proof {
        reveal_with_fuel(crate::syntax::type_view, 2);
    }
    let ghost all = types@.all;
    let mut i: usize = 0;
    while i < types.all.len()
        invariant
            i <= types.all@.len(),
            all == views(types.all@),
            out.includes@ == includes_for_types(old(out).includes@, all.subrange(0, i as int)),
            out@ == old(out)@,
            out.namespace@ == old(out).namespace@,
            out.header == old(out).header,
        decreases types.all@.len() - i,
    {
        let ty = &types.all[i];
        assert(all[i as int] == ty@);
        match ty {
            Type::Ident(id) => {
                assert(ty@ == TypeView::Ident(id@));
                match Atom::from(id.as_str()) {
                    Some(a) => match a {
                        Atom::U8 | Atom::U16 | Atom::U32 | Atom::U64 | Atom::Usize | Atom::I8
                        | Atom::I16 | Atom::I32 | Atom::I64 | Atom::Isize => {
                            out.includes.cstdint = true;
                        },
                        Atom::CxxString => {
                            out.includes.string = true;
                        },
                        _ => {},
                    },
                    None => {},
                }
            },
            Type::RustBox(_) => {
                out.includes.type_traits = true;
            },
            Type::UniquePtr(_) => {
                out.includes.memory = true;
            },
            Type::Vector(_) => {
                out.includes.vector = true;
            },
            _ => {},
        }
        assert(all.subrange(0, i + 1).drop_last() =~= all.subrange(0, i as int));
        i = i + 1;
    }
    assert(all.subrange(0, i as int) =~= all);
}

/// The runtime support that generated code needs.
#[derive(Clone, Copy, Debug, PartialEq, Eq, Structural)]
pub struct Needs {
    pub rust_string: bool,
    pub rust_str: bool,
    pub rust_box: bool,
    pub rust_vec: bool,
    pub rust_error: bool,
    pub unsafe_bitcopy: bool,
    pub manually_drop: bool,
    pub maybe_uninit: bool,
    pub trycatch: bool,
}

/// Nothing needed.
pub open spec fn no_needs() -> Needs {
    Needs {
        rust_string: false,
        rust_str: false,
        rust_box: false,
        rust_vec: false,
        rust_error: false,
        unsafe_bitcopy: false,
        manually_drop: false,
        maybe_uninit: false,
        trycatch: false,
    }
}

/// The runtime types that one observed type needs.
pub open spec fn needs_type_step(n: Needs, t: TypeView) -> Needs {
    match t {
        TypeView::RustBox(_) => Needs { rust_box: true, ..n },
        TypeView::RustVec(_) => Needs { rust_vec: true, ..n },
        TypeView::Str => Needs { rust_str: true, ..n },
        _ => if is_rust_string(t) {
            Needs { rust_string: true, ..n }
        } else {
            n
        },
    }
}

/// [`needs_type_step`] over each observed type.
pub open spec fn needs_types(n: Needs, all: Seq<TypeView>) -> Needs
    decreases all.len(),
{
    if all.len() == 0 {
        n
    } else {
        needs_type_step(needs_types(n, all.drop_last()), all.last())
    }
}

/// Whether some argument is the managed-side owned string.
pub open spec fn has_string_arg(args: Seq<Var>) -> bool {
    exists|i: int| 0 <= i < args.len() && is_rust_string(#[trigger] args[i].ty@)
}

/// The helpers that the definitions of one function need.
pub open spec fn needs_api_step(n: Needs, api: Api, structs: Map<Seq<char>, bool>) -> Needs {
    match api {
        Api::CxxFunction(f) => Needs {
            trycatch: n.trycatch || f.throws,
            unsafe_bitcopy: n.unsafe_bitcopy || has_string_arg(f.args@),
            ..n
        },
        Api::RustFunction(f) => Needs {
            rust_error: n.rust_error || f.throws,
            manually_drop: n.manually_drop || moves_any(f.args@, structs),
            maybe_uninit: n.maybe_uninit || returns_indirectly(&f, structs),
            ..n
        },
        _ => n,
    }
}

/// [`needs_api_step`] over each declaration.
pub open spec fn needs_apis(n: Needs, apis: Seq<Api>, structs: Map<Seq<char>, bool>) -> Needs
    decreases apis.len(),
{
    if apis.len() == 0 {
        n
    } else {
        needs_api_step(needs_apis(n, apis.drop_last(), structs), apis.last(), structs)
    }
}

/// What an artifact needs: the runtime types for every observed type, and in
/// a definition artifact the helpers of its functions.
pub open spec fn needs_of(
    apis: Seq<Api>,
    all: Seq<TypeView>,
    structs: Map<Seq<char>, bool>,
    header: bool,
) -> Needs {
    let n = needs_types(no_needs(), all);
    if header {
        n
    } else {
        needs_apis(n, apis, structs)
    }
}

fn has_string_argument(args: &Vec<Var>) -> (r: bool)
    ensures
        r == has_string_arg(args@),
{
    let mut i: usize = 0;
    while i < args.len()
        invariant
            i <= args@.len(),
            forall|l: int| 0 <= l < i ==> !is_rust_string(#[trigger] args@[l].ty@),
        decreases args@.len() - i,
    {
        if args[i].ty.is_rust_string() {
            return true;
        }
        i = i + 1;
    }
    false
}

/// Scans the observed types and the declarations for the runtime support
/// that the artifact needs.
#[verifier::rlimit(30)]
pub fn scan_needs(apis: &Vec<Api>, types: &Types, header: bool) -> (r: Needs)
    requires
        types.wf(),
    ensures
        r == needs_of(apis@, types@.all, types@.structs, header),
{
    proof {
        reveal_with_fuel(crate::syntax::type_view, 2);
    }
    let ghost all = types@.all;
    let mut n = Needs {
        rust_string: false,
        rust_str: false,
        rust_box: false,
        rust_vec: false,
        rust_error: false,
        unsafe_bitcopy: false,
        manually_drop: false,
        maybe_uninit: false,
        trycatch: false,
    };
    let mut i: usize = 0;
    while i < types.all.len()
        invariant
            i <= types.all@.len(),
            all == views(types.all@),
            n == needs_types(no_needs(), all.subrange(0, i as int)),
        decreases types.all@.len() - i,
    {
        let ty = &types.all[i];
        assert(all[i as int] == ty@);
        match ty {
            Type::RustBox(_) => n.rust_box = true,
            Type::RustVec(_) => n.rust_vec = true,
            Type::Str => n.rust_str = true,
            _ => {
                if ty.is_rust_string() {
                    n.rust_string = true;
                }
            },
        }
        assert(all.subrange(0, i + 1).drop_last() =~= all.subrange(0, i as int));
        i = i + 1;
    }
    assert(all.subrange(0, i as int) =~= all);
    if header {
        return n;
    }
    let ghost n0 = n;
    let mut i: usize = 0;
    while i < apis.len()
        invariant
            i <= apis@.len(),
            types.wf(),
            n == needs_apis(n0, apis@.subrange(0, i as int), types@.structs),
        decreases apis@.len() - i,
    {
        match &apis[i] {
            Api::CxxFunction(efn) => {
                let s = has_string_argument(&efn.args);
                n.trycatch = n.trycatch || efn.throws;
                n.unsafe_bitcopy = n.unsafe_bitcopy || s;
            },
            Api::RustFunction(efn) => {
                let m = crate::write::any_moved_arg(&efn.args, types);
                let ind = crate::write::indirect_return(efn, types);
                n.rust_error = n.rust_error || efn.throws;
                n.manually_drop = n.manually_drop || m;
                n.maybe_uninit = n.maybe_uninit || ind;
            },
            _ => {},
        }
        assert(apis@.subrange(0, i + 1).drop_last() =~= apis@.subrange(0, i as int));
        i = i + 1;
    }
    assert(apis@.subrange(0, i as int) =~= apis@);
    n
}

/// Whether anything of the runtime is needed.
pub open spec fn any_needs(n: Needs) -> bool {
    n.rust_string || n.rust_str || n.rust_box || n.rust_vec || n.rust_error || n.unsafe_bitcopy
        || n.manually_drop || n.maybe_uninit || n.trycatch
}

/// The holder that keeps a moved argument from being destroyed twice.
pub open spec fn manually_drop_helper_text() -> Seq<char> {
    "template <typename T>\nunion ManuallyDrop {\n  T value;\n  ManuallyDrop(T &&value) : value(::std::move(value)) {}\n  ~ManuallyDrop() {}\n};\n"@
}

/// The storage for a result that the managed side constructs in place.
pub open spec fn maybe_uninit_helper_text() -> Seq<char> {
    "template <typename T>\nunion MaybeUninit {\n  T value;\n  MaybeUninit() {}\n  ~MaybeUninit() {}\n};\n"@
}

/// The helper that turns a native exception into its message.
pub open spec fn trycatch_helper_text() -> Seq<char> {
    "template <typename Try, typename Fail>\nstatic void trycatch(Try &&func, Fail &&fail) noexcept try {\n  func();\n} catch (const ::std::exception &e) {\n  fail(e.what());\n}\n"@
}

/// A helper in a section of its own, where it is needed.
pub open spec fn helper_state(st: OutState, needed: bool, text: Seq<char>) -> OutState {
    if needed {
        put(next_section_state(st), text)
    } else {
        st
    }
}

/// The comment that marks the runtime support, where any is needed, and the
/// sections of the runtime header that are needed.
pub open spec fn runtime_sections_state(st: OutState, n: Needs, runtime: Seq<String>) -> OutState {
    let s1 = if any_needs(n) {
        put(st, "// #include \"rust/cxx.h\"\n"@)
    } else {
        st
    };
    let s2 = header_section_state(s1, n.rust_string, "CXXBRIDGE02_RUST_STRING"@, runtime);
    let s3 = header_section_state(s2, n.rust_str, "CXXBRIDGE02_RUST_STR"@, runtime);
    let s4 = header_section_state(s3, n.rust_box, "CXXBRIDGE02_RUST_BOX"@, runtime);
    let s5 = header_section_state(s4, n.rust_vec, "CXXBRIDGE02_RUST_VEC"@, runtime);
    let s6 = header_section_state(s5, n.rust_error, "CXXBRIDGE02_RUST_ERROR"@, runtime);
    header_section_state(s6, n.unsafe_bitcopy, "CXXBRIDGE02_RUST_BITCOPY"@, runtime)
}

/// The helpers that are needed.
pub open spec fn helpers_state(st: OutState, n: Needs) -> OutState {
    let s8 = helper_state(st, n.manually_drop, manually_drop_helper_text());
    let s9 = helper_state(s8, n.maybe_uninit, maybe_uninit_helper_text());
    helper_state(s9, n.trycatch, trycatch_helper_text())
}

/// The runtime support inside the runtime's namespace: the sections of the
/// runtime header and the helpers that the artifact needs, each once.
pub open spec fn include_cxxbridge_state(st: OutState, n: Needs, runtime: Seq<String>) -> OutState {
    let s0 = begin_block_state(
        begin_block_state(st, "namespace rust"@),
        "inline namespace cxxbridge02"@,
    );
    let s10 = helpers_state(runtime_sections_state(s0, n, runtime), n);
    end_block_state(end_block_state(s10, "namespace cxxbridge02"@), "namespace rust"@)
}

fn write_runtime_sections(out: &mut OutFile, n: Needs, runtime: &Vec<String>)
    ensures
        final(out)@ == runtime_sections_state(old(out)@, n, runtime@),
        crate::out::keeps_frame(*old(out), *final(out)),
{
    if n.rust_string || n.rust_str || n.rust_box || n.rust_vec || n.rust_error || n.unsafe_bitcopy
        || n.manually_drop || n.maybe_uninit || n.trycatch {
        out.write("// #include \"rust/cxx.h\"\n");
    }
    write_header_section(out, n.rust_string, "CXXBRIDGE02_RUST_STRING", runtime);
    write_header_section(out, n.rust_str, "CXXBRIDGE02_RUST_STR", runtime);
    write_header_section(out, n.rust_box, "CXXBRIDGE02_RUST_BOX", runtime);
    write_header_section(out, n.rust_vec, "CXXBRIDGE02_RUST_VEC", runtime);
    write_header_section(out, n.rust_error, "CXXBRIDGE02_RUST_ERROR", runtime);
    write_header_section(out, n.unsafe_bitcopy, "CXXBRIDGE02_RUST_BITCOPY", runtime);
}

fn write_helpers(out: &mut OutFile, n: Needs)
    ensures
        final(out)@ == helpers_state(old(out)@, n),
        crate::out::keeps_frame(*old(out), *final(out)),
{
    write_helper(
        out,
        n.manually_drop,
        "template <typename T>\nunion ManuallyDrop {\n  T value;\n  ManuallyDrop(T &&value) : value(::std::move(value)) {}\n  ~ManuallyDrop() {}\n};\n",
    );
    write_helper(
        out,
        n.maybe_uninit,
        "template <typename T>\nunion MaybeUninit {\n  T value;\n  MaybeUninit() {}\n  ~MaybeUninit() {}\n};\n",
    );
    write_helper(
        out,
        n.trycatch,
        "template <typename Try, typename Fail>\nstatic void trycatch(Try &&func, Fail &&fail) noexcept try {\n  func();\n} catch (const ::std::exception &e) {\n  fail(e.what());\n}\n",
    );
}

/// The standard headers that the runtime support needs.
pub open spec fn cxxbridge_includes(inc: IncludesView, n: Needs) -> IncludesView {
    IncludesView {
        type_traits: inc.type_traits || n.rust_box || n.rust_vec,
        cstdint: inc.cstdint || n.rust_str || n.rust_string,
        string: inc.string || n.rust_str || n.rust_string,
        array: inc.array || n.rust_string,
        exception: inc.exception || n.rust_error || n.trycatch,
        utility: inc.utility || n.manually_drop,
        ..inc
    }
}

fn write_helper(out: &mut OutFile, needed: bool, text: &str)
    ensures
        final(out)@ == helper_state(old(out)@, needed, text@),
        crate::out::keeps_frame(*old(out), *final(out)),
{
    if needed {
        out.next_section();
        out.write(text);
    }
}

/// Writes the runtime support that the artifact needs, inside the runtime's
/// namespace, and marks the standard headers it needs in turn.
#[verifier::rlimit(30)]
pub fn write_include_cxxbridge(
    out: &mut OutFile,
    apis: &Vec<Api>,
    types: &Types,
    runtime: &Vec<String>,
)
    requires
        types.wf(),
    ensures
        final(out)@ == include_cxxbridge_state(
            old(out)@,
            needs_of(apis@, types@.all, types@.structs, old(out).header),
            runtime@,
        ),
        final(out).includes@ == cxxbridge_includes(
            old(out).includes@,
            needs_of(apis@, types@.all, types@.structs, old(out).header),
        ),
        final(out).namespace@ == old(out).namespace@,
        final(out).header == old(out).header,
{
    let n = scan_needs(apis, types, out.header);
    out.includes.type_traits = out.includes.type_traits || n.rust_box || n.rust_vec;
    out.includes.cstdint = out.includes.cstdint || n.rust_str || n.rust_string;
    out.includes.string = out.includes.string || n.rust_str || n.rust_string;
    out.includes.array = out.includes.array || n.rust_string;
    out.includes.exception = out.includes.exception || n.rust_error || n.trycatch;
    out.includes.utility = out.includes.utility || n.manually_drop;
    let ghost st = old(out)@;
    out.begin_block("namespace rust");
    out.begin_block("inline namespace cxxbridge02");
    write_runtime_sections(out, n, runtime);
    write_helpers(out, n);
    out.end_block("namespace cxxbridge02");
    out.end_block("namespace rust");
}

/// The lines that name the header files of the interface.
pub open spec fn custom_text(custom: Seq<Seq<char>>) -> Seq<char>
    decreases custom.len(),
{
    if custom.len() == 0 {
        Seq::empty()
    } else {
        custom_text(custom.drop_last()) + "#include \""@ + escaped(custom.last()) + "\"\n"@
    }
}

/// `line` where `flag` is set.
pub open spec fn flag_text(flag: bool, line: Seq<char>) -> Seq<char> {
    if flag {
        line
    } else {
        Seq::empty()
    }
}

/// Whether any header is needed at all.
pub open spec fn any_includes(inc: IncludesView) -> bool {
    inc.custom.len() > 0 || inc.array || inc.cstdint || inc.cstring || inc.exception || inc.memory
        || inc.string || inc.type_traits || inc.utility || inc.vector
}

/// The header lines at the top of an artifact, and a blank line after them
/// where there are any.
pub open spec fn includes_text(inc: IncludesView) -> Seq<char> {
    custom_text(inc.custom) + flag_text(inc.array, "#include <array>\n"@) + flag_text(
        inc.cstdint,
        "#include <cstdint>\n"@,
    ) + flag_text(inc.cstring, "#include <cstring>\n"@) + flag_text(
        inc.exception,
        "#include <exception>\n"@,
    ) + flag_text(inc.memory, "#include <memory>\n"@) + flag_text(
        inc.string,
        "#include <string>\n"@,
    ) + flag_text(inc.type_traits, "#include <type_traits>\n"@) + flag_text(
        inc.utility,
        "#include <utility>\n"@,
    ) + flag_text(inc.vector, "#include <vector>\n"@) + flag_text(any_includes(inc), "\n"@)
}

fn push_flag(buf: &mut String, flag: bool, line: &str)
    ensures
        final(buf)@ == old(buf)@ + flag_text(flag, line@),
{
    if flag {
        buf.append(line);
    } else {
        assert(old(buf)@ + flag_text(flag, line@) =~= old(buf)@);
    }
}

/// The header lines at the top of an artifact.
#[verifier::rlimit(30)]
pub fn includes_string(inc: &crate::out::Includes) -> (r: String)
    ensures
        r@ == includes_text(inc@),
{
    let mut buf = String::new();
    let ghost custom = inc@.custom;
    let mut i: usize = 0;
    while i < inc.custom.len()
        invariant
            i <= inc.custom@.len(),
            custom == inc@.custom,
            buf@ == custom_text(custom.subrange(0, i as int)),
        decreases inc.custom@.len() - i,
    {
        let ghost before = buf@;
        let e = escape_default(inc.custom[i].as_str());
        buf.append("#include \"");
        buf.append(e.as_str());
        buf.append("\"\n");
        let ghost s = custom.subrange(0, i + 1);
        assert(s.drop_last() =~= custom.subrange(0, i as int));
        assert(s.last() == inc.custom@[i as int]@);
        assert(buf@ =~= custom_text(s));
        i = i + 1;
    }
    assert(custom.subrange(0, i as int) =~= custom);
    push_flag(&mut buf, inc.array, "#include <array>\n");
    push_flag(&mut buf, inc.cstdint, "#include <cstdint>\n");
    push_flag(&mut buf, inc.cstring, "#include <cstring>\n");
    push_flag(&mut buf, inc.exception, "#include <exception>\n");
    push_flag(&mut buf, inc.memory, "#include <memory>\n");
    push_flag(&mut buf, inc.string, "#include <string>\n");
    push_flag(&mut buf, inc.type_traits, "#include <type_traits>\n");
    push_flag(&mut buf, inc.utility, "#include <utility>\n");
    push_flag(&mut buf, inc.vector, "#include <vector>\n");
    let any = inc.custom.len() > 0 || inc.array || inc.cstdint || inc.cstring || inc.exception
        || inc.memory || inc.string || inc.type_traits || inc.utility || inc.vector;
    push_flag(&mut buf, any, "\n");
    buf
}

} // verus!
