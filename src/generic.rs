use vstd::prelude::*;
use vstd::string::*;
use crate::atom::{atom_of, Atom};
use crate::mangle::{
    instance_symbol, mangled, ns_prefix, push_instance_symbol, push_ns_prefix, to_mangled,
    to_typename, typename,
};
use crate::out::{
    begin_block_state, end_block_state, keeps_frame, next_section_state, put, IncludesView,
    OutFile, OutState,
};
use crate::syntax::{Type, TypeView};
use crate::types::{name_views, views, Types};

verus! {

/// Line 0 of [`rust_box_extern_text`].
pub open spec fn rust_box_extern_line0(inner: Seq<char>, inst: Seq<char>) -> Seq<char> {
    "#ifndef CXXBRIDGE02_RUST_BOX_"@ + inst + "\n"@
}

/// Line 1 of [`rust_box_extern_text`].
pub open spec fn rust_box_extern_line1(inner: Seq<char>, inst: Seq<char>) -> Seq<char> {
    "#define CXXBRIDGE02_RUST_BOX_"@ + inst + "\n"@
}

/// Line 2 of [`rust_box_extern_text`].
pub open spec fn rust_box_extern_line2(inner: Seq<char>, inst: Seq<char>) -> Seq<char> {
    "void "@ + instance_symbol("cxxbridge02$box$"@, inst, "uninit"@) + "(::rust::Box<"@ + inner + "> *ptr) noexcept;\n"@
}

/// Line 3 of [`rust_box_extern_text`].
pub open spec fn rust_box_extern_line3(inner: Seq<char>, inst: Seq<char>) -> Seq<char> {
    "void "@ + instance_symbol("cxxbridge02$box$"@, inst, "drop"@) + "(::rust::Box<"@ + inner + "> *ptr) noexcept;\n"@
}

/// Line 4 of [`rust_box_extern_text`].
pub open spec fn rust_box_extern_line4(inner: Seq<char>, inst: Seq<char>) -> Seq<char> {
    "#endif // CXXBRIDGE02_RUST_BOX_"@ + inst + "\n"@
}

/// The guarded declarations of the managed side's functions behind an owned
/// pointer to a managed-side value.
pub open spec fn rust_box_extern_text(inner: Seq<char>, inst: Seq<char>) -> Seq<char> {
    rust_box_extern_line0(inner, inst) + rust_box_extern_line1(inner, inst) + rust_box_extern_line2(inner, inst) + rust_box_extern_line3(inner, inst) + rust_box_extern_line4(inner, inst)
}

fn rust_box_extern_text_string(inner: &str, inst: &str) -> (r: String)
    ensures
        r@ == rust_box_extern_text(inner@, inst@),
{
    let mut buf = String::new();
    let ghost b0 = buf@;
    buf.append("#ifndef CXXBRIDGE02_RUST_BOX_");
    buf.append(inst);
    buf.append("\n");
    assert(buf@ =~= rust_box_extern_line0(inner@, inst@));
    let ghost b1 = buf@;
    buf.append("#define CXXBRIDGE02_RUST_BOX_");
    buf.append(inst);
    buf.append("\n");
    assert(buf@ =~= b1 + rust_box_extern_line1(inner@, inst@));
    let ghost b2 = buf@;
    buf.append("void ");
    push_instance_symbol(&mut buf, "cxxbridge02$box$", inst, "uninit");
    buf.append("(::rust::Box<");
    buf.append(inner);
    buf.append("> *ptr) noexcept;\n");
    assert(buf@ =~= b2 + rust_box_extern_line2(inner@, inst@));
    let ghost b3 = buf@;
    buf.append("void ");
    push_instance_symbol(&mut buf, "cxxbridge02$box$", inst, "drop");
    buf.append("(::rust::Box<");
    buf.append(inner);
    buf.append("> *ptr) noexcept;\n");
    assert(buf@ =~= b3 + rust_box_extern_line3(inner@, inst@));
    let ghost b4 = buf@;
    buf.append("#endif // CXXBRIDGE02_RUST_BOX_");
    buf.append(inst);
    buf.append("\n");
    assert(buf@ =~= b4 + rust_box_extern_line4(inner@, inst@));
    buf
}

/// Line 0 of [`rust_vec_extern_text`].
pub open spec fn rust_vec_extern_line0(inner: Seq<char>, inst: Seq<char>) -> Seq<char> {
    "#ifndef CXXBRIDGE02_RUST_VEC_"@ + inst + "\n"@
}

/// Line 1 of [`rust_vec_extern_text`].
pub open spec fn rust_vec_extern_line1(inner: Seq<char>, inst: Seq<char>) -> Seq<char> {
    "#define CXXBRIDGE02_RUST_VEC_"@ + inst + "\n"@
}

/// Line 2 of [`rust_vec_extern_text`].
pub open spec fn rust_vec_extern_line2(inner: Seq<char>, inst: Seq<char>) -> Seq<char> {
    "void "@ + instance_symbol("cxxbridge02$rust_vec$"@, inst, "drop"@) + "(::rust::Vec<"@ + inner + "> *ptr) noexcept;\n"@
}

/// Line 3 of [`rust_vec_extern_text`].
pub open spec fn rust_vec_extern_line3(inner: Seq<char>, inst: Seq<char>) -> Seq<char> {
    "void "@ + instance_symbol("cxxbridge02$rust_vec$"@, inst, "vector_from"@) + "(const ::rust::Vec<"@ + inner + "> *ptr, const std::vector<"@ + inner + "> &vector) noexcept;\n"@
}

/// Line 4 of [`rust_vec_extern_text`].
pub open spec fn rust_vec_extern_line4(inner: Seq<char>, inst: Seq<char>) -> Seq<char> {
    "size_t "@ + instance_symbol("cxxbridge02$rust_vec$"@, inst, "len"@) + "(const ::rust::Vec<"@ + inner + "> *ptr) noexcept;\n"@
}

/// Line 5 of [`rust_vec_extern_text`].
pub open spec fn rust_vec_extern_line5(inner: Seq<char>, inst: Seq<char>) -> Seq<char> {
    "#endif // CXXBRIDGE02_RUST_VEC_"@ + inst + "\n"@
}

/// The guarded declarations of the managed side's functions behind a
/// managed-side sequence.
pub open spec fn rust_vec_extern_text(inner: Seq<char>, inst: Seq<char>) -> Seq<char> {
    rust_vec_extern_line0(inner, inst) + rust_vec_extern_line1(inner, inst) + rust_vec_extern_line2(inner, inst) + rust_vec_extern_line3(inner, inst) + rust_vec_extern_line4(inner, inst) + rust_vec_extern_line5(inner, inst)
}

fn rust_vec_extern_text_string(inner: &str, inst: &str) -> (r: String)
    ensures
        r@ == rust_vec_extern_text(inner@, inst@),
{
    let mut buf = String::new();
    let ghost b0 = buf@;
    buf.append("#ifndef CXXBRIDGE02_RUST_VEC_");
    buf.append(inst);
    buf.append("\n");
    assert(buf@ =~= rust_vec_extern_line0(inner@, inst@));
    let ghost b1 = buf@;
    buf.append("#define CXXBRIDGE02_RUST_VEC_");
    buf.append(inst);
    buf.append("\n");
    assert(buf@ =~= b1 + rust_vec_extern_line1(inner@, inst@));
    let ghost b2 = buf@;
    buf.append("void ");
    push_instance_symbol(&mut buf, "cxxbridge02$rust_vec$", inst, "drop");
    buf.append("(::rust::Vec<");
    buf.append(inner);
    buf.append("> *ptr) noexcept;\n");
    assert(buf@ =~= b2 + rust_vec_extern_line2(inner@, inst@));
    let ghost b3 = buf@;
    buf.append("void ");
    push_instance_symbol(&mut buf, "cxxbridge02$rust_vec$", inst, "vector_from");
    buf.append("(const ::rust::Vec<");
    buf.append(inner);
    buf.append("> *ptr, const std::vector<");
    buf.append(inner);
    buf.append("> &vector) noexcept;\n");
    assert(buf@ =~= b3 + rust_vec_extern_line3(inner@, inst@));
    let ghost b4 = buf@;
    buf.append("size_t ");
    push_instance_symbol(&mut buf, "cxxbridge02$rust_vec$", inst, "len");
    buf.append("(const ::rust::Vec<");
    buf.append(inner);
    buf.append("> *ptr) noexcept;\n");
    assert(buf@ =~= b4 + rust_vec_extern_line4(inner@, inst@));
    let ghost b5 = buf@;
    buf.append("#endif // CXXBRIDGE02_RUST_VEC_");
    buf.append(inst);
    buf.append("\n");
    assert(buf@ =~= b5 + rust_vec_extern_line5(inner@, inst@));
    buf
}

/// Line 0 of [`rust_box_impl_text`].
pub open spec fn rust_box_impl_line0(inner: Seq<char>, inst: Seq<char>) -> Seq<char> {
    "template <>\n"@
}

/// Line 1 of [`rust_box_impl_text`].
pub open spec fn rust_box_impl_line1(inner: Seq<char>, inst: Seq<char>) -> Seq<char> {
    "void Box<"@ + inner + ">::uninit() noexcept {\n"@
}

/// Line 2 of [`rust_box_impl_text`].
pub open spec fn rust_box_impl_line2(inner: Seq<char>, inst: Seq<char>) -> Seq<char> {
    "  return "@ + instance_symbol("cxxbridge02$box$"@, inst, "uninit"@) + "(this);\n"@
}

/// Line 3 of [`rust_box_impl_text`].
pub open spec fn rust_box_impl_line3(inner: Seq<char>, inst: Seq<char>) -> Seq<char> {
    "}\n"@
}

/// Line 4 of [`rust_box_impl_text`].
pub open spec fn rust_box_impl_line4(inner: Seq<char>, inst: Seq<char>) -> Seq<char> {
    "template <>\n"@
}

/// Line 5 of [`rust_box_impl_text`].
pub open spec fn rust_box_impl_line5(inner: Seq<char>, inst: Seq<char>) -> Seq<char> {
    "void Box<"@ + inner + ">::drop() noexcept {\n"@
}

/// Line 6 of [`rust_box_impl_text`].
pub open spec fn rust_box_impl_line6(inner: Seq<char>, inst: Seq<char>) -> Seq<char> {
    "  return "@ + instance_symbol("cxxbridge02$box$"@, inst, "drop"@) + "(this);\n"@
}

/// Line 7 of [`rust_box_impl_text`].
pub open spec fn rust_box_impl_line7(inner: Seq<char>, inst: Seq<char>) -> Seq<char> {
    "}\n"@
}

/// The members of the native owned pointer to a managed-side value, bound to
/// the managed side's functions.
pub open spec fn rust_box_impl_text(inner: Seq<char>, inst: Seq<char>) -> Seq<char> {
    rust_box_impl_line0(inner, inst) + rust_box_impl_line1(inner, inst) + rust_box_impl_line2(inner, inst) + rust_box_impl_line3(inner, inst) + rust_box_impl_line4(inner, inst) + rust_box_impl_line5(inner, inst) + rust_box_impl_line6(inner, inst) + rust_box_impl_line7(inner, inst)
}

fn rust_box_impl_text_string(inner: &str, inst: &str) -> (r: String)
    ensures
        r@ == rust_box_impl_text(inner@, inst@),
{
    let mut buf = String::new();
    let ghost b0 = buf@;
    buf.append("template <>\n");
    assert(buf@ =~= rust_box_impl_line0(inner@, inst@));
    let ghost b1 = buf@;
    buf.append("void Box<");
    buf.append(inner);
    buf.append(">::uninit() noexcept {\n");
    assert(buf@ =~= b1 + rust_box_impl_line1(inner@, inst@));
    let ghost b2 = buf@;
    buf.append("  return ");
    push_instance_symbol(&mut buf, "cxxbridge02$box$", inst, "uninit");
    buf.append("(this);\n");
    assert(buf@ =~= b2 + rust_box_impl_line2(inner@, inst@));
    let ghost b3 = buf@;
    buf.append("}\n");
    assert(buf@ =~= b3 + rust_box_impl_line3(inner@, inst@));
    let ghost b4 = buf@;
    buf.append("template <>\n");
    assert(buf@ =~= b4 + rust_box_impl_line4(inner@, inst@));
    let ghost b5 = buf@;
    buf.append("void Box<");
    buf.append(inner);
    buf.append(">::drop() noexcept {\n");
    assert(buf@ =~= b5 + rust_box_impl_line5(inner@, inst@));
    let ghost b6 = buf@;
    buf.append("  return ");
    push_instance_symbol(&mut buf, "cxxbridge02$box$", inst, "drop");
    buf.append("(this);\n");
    assert(buf@ =~= b6 + rust_box_impl_line6(inner@, inst@));
    let ghost b7 = buf@;
    buf.append("}\n");
    assert(buf@ =~= b7 + rust_box_impl_line7(inner@, inst@));
    buf
}

/// Line 0 of [`rust_vec_impl_text`].
pub open spec fn rust_vec_impl_line0(inner: Seq<char>, inst: Seq<char>) -> Seq<char> {
    "template <>\n"@
}

/// Line 1 of [`rust_vec_impl_text`].
pub open spec fn rust_vec_impl_line1(inner: Seq<char>, inst: Seq<char>) -> Seq<char> {
    "void Vec<"@ + inner + ">::drop() noexcept {\n"@
}

/// Line 2 of [`rust_vec_impl_text`].
pub open spec fn rust_vec_impl_line2(inner: Seq<char>, inst: Seq<char>) -> Seq<char> {
    "  return "@ + instance_symbol("cxxbridge02$rust_vec$"@, inst, "drop"@) + "(this);\n"@
}

/// Line 3 of [`rust_vec_impl_text`].
pub open spec fn rust_vec_impl_line3(inner: Seq<char>, inst: Seq<char>) -> Seq<char> {
    "}\n"@
}

/// Line 4 of [`rust_vec_impl_text`].
pub open spec fn rust_vec_impl_line4(inner: Seq<char>, inst: Seq<char>) -> Seq<char> {
    "template <>\n"@
}

/// Line 5 of [`rust_vec_impl_text`].
pub open spec fn rust_vec_impl_line5(inner: Seq<char>, inst: Seq<char>) -> Seq<char> {
    "size_t Vec<"@ + inner + ">::size() const noexcept {\n"@
}

/// Line 6 of [`rust_vec_impl_text`].
pub open spec fn rust_vec_impl_line6(inner: Seq<char>, inst: Seq<char>) -> Seq<char> {
    "  return "@ + instance_symbol("cxxbridge02$rust_vec$"@, inst, "len"@) + "(this);\n"@
}

/// Line 7 of [`rust_vec_impl_text`].
pub open spec fn rust_vec_impl_line7(inner: Seq<char>, inst: Seq<char>) -> Seq<char> {
    "}\n"@
}

/// Line 8 of [`rust_vec_impl_text`].
pub open spec fn rust_vec_impl_line8(inner: Seq<char>, inst: Seq<char>) -> Seq<char> {
    "template <>\n"@
}

/// Line 9 of [`rust_vec_impl_text`].
pub open spec fn rust_vec_impl_line9(inner: Seq<char>, inst: Seq<char>) -> Seq<char> {
    "Vec<"@ + inner + ">::operator std::vector<"@ + inner + ">() const noexcept {\n"@
}

/// Line 10 of [`rust_vec_impl_text`].
pub open spec fn rust_vec_impl_line10(inner: Seq<char>, inst: Seq<char>) -> Seq<char> {
    "  std::vector<"@ + inner + "> v; v.reserve(this->size()); "@ + instance_symbol("cxxbridge02$rust_vec$"@, inst, "vector_from"@) + "(this, v); return v;\n"@
}

/// Line 11 of [`rust_vec_impl_text`].
pub open spec fn rust_vec_impl_line11(inner: Seq<char>, inst: Seq<char>) -> Seq<char> {
    "}\n"@
}

/// The members of the native view of a managed-side sequence, bound to the
/// managed side's functions.
pub open spec fn rust_vec_impl_text(inner: Seq<char>, inst: Seq<char>) -> Seq<char> {
    rust_vec_impl_line0(inner, inst) + rust_vec_impl_line1(inner, inst) + rust_vec_impl_line2(inner, inst) + rust_vec_impl_line3(inner, inst) + rust_vec_impl_line4(inner, inst) + rust_vec_impl_line5(inner, inst) + rust_vec_impl_line6(inner, inst) + rust_vec_impl_line7(inner, inst) + rust_vec_impl_line8(inner, inst) + rust_vec_impl_line9(inner, inst) + rust_vec_impl_line10(inner, inst) + rust_vec_impl_line11(inner, inst)
}

#[verifier::rlimit(30)]
fn rust_vec_impl_text_string(inner: &str, inst: &str) -> (r: String)
    ensures
        r@ == rust_vec_impl_text(inner@, inst@),
{
    let mut buf = String::new();
    let ghost b0 = buf@;
    buf.append("template <>\n");
    assert(buf@ =~= rust_vec_impl_line0(inner@, inst@));
    let ghost b1 = buf@;
    buf.append("void Vec<");
    buf.append(inner);
    buf.append(">::drop() noexcept {\n");
    assert(buf@ =~= b1 + rust_vec_impl_line1(inner@, inst@));
    let ghost b2 = buf@;
    buf.append("  return ");
    push_instance_symbol(&mut buf, "cxxbridge02$rust_vec$", inst, "drop");
    buf.append("(this);\n");
    assert(buf@ =~= b2 + rust_vec_impl_line2(inner@, inst@));
    let ghost b3 = buf@;
    buf.append("}\n");
    assert(buf@ =~= b3 + rust_vec_impl_line3(inner@, inst@));
    let ghost b4 = buf@;
    buf.append("template <>\n");
    assert(buf@ =~= b4 + rust_vec_impl_line4(inner@, inst@));
    let ghost b5 = buf@;
    buf.append("size_t Vec<");
    buf.append(inner);
    buf.append(">::size() const noexcept {\n");
    assert(buf@ =~= b5 + rust_vec_impl_line5(inner@, inst@));
    let ghost b6 = buf@;
    buf.append("  return ");
    push_instance_symbol(&mut buf, "cxxbridge02$rust_vec$", inst, "len");
    buf.append("(this);\n");
    assert(buf@ =~= b6 + rust_vec_impl_line6(inner@, inst@));
    let ghost b7 = buf@;
    buf.append("}\n");
    assert(buf@ =~= b7 + rust_vec_impl_line7(inner@, inst@));
    let ghost b8 = buf@;
    buf.append("template <>\n");
    assert(buf@ =~= b8 + rust_vec_impl_line8(inner@, inst@));
    let ghost b9 = buf@;
    buf.append("Vec<");
    buf.append(inner);
    buf.append(">::operator std::vector<");
    buf.append(inner);
    buf.append(">() const noexcept {\n");
    assert(buf@ =~= b9 + rust_vec_impl_line9(inner@, inst@));
    let ghost b10 = buf@;
    buf.append("  std::vector<");
    buf.append(inner);
    buf.append("> v; v.reserve(this->size()); ");
    push_instance_symbol(&mut buf, "cxxbridge02$rust_vec$", inst, "vector_from");
    buf.append("(this, v); return v;\n");
    assert(buf@ =~= b10 + rust_vec_impl_line10(inner@, inst@));
    let ghost b11 = buf@;
    buf.append("}\n");
    assert(buf@ =~= b11 + rust_vec_impl_line11(inner@, inst@));
    buf
}

/// Line 0 of [`unique_ptr_text`].
pub open spec fn unique_ptr_line0(inner: Seq<char>, inst: Seq<char>) -> Seq<char> {
    "#ifndef CXXBRIDGE02_UNIQUE_PTR_"@ + inst + "\n"@
}

/// Line 1 of [`unique_ptr_text`].
pub open spec fn unique_ptr_line1(inner: Seq<char>, inst: Seq<char>) -> Seq<char> {
    "#define CXXBRIDGE02_UNIQUE_PTR_"@ + inst + "\n"@
}

/// Line 2 of [`unique_ptr_text`].
pub open spec fn unique_ptr_line2(inner: Seq<char>, inst: Seq<char>) -> Seq<char> {
    "static_assert(sizeof(::std::unique_ptr<"@ + inner + ">) == sizeof(void *), \"\");\n"@
}

/// Line 3 of [`unique_ptr_text`].
pub open spec fn unique_ptr_line3(inner: Seq<char>, inst: Seq<char>) -> Seq<char> {
    "static_assert(alignof(::std::unique_ptr<"@ + inner + ">) == alignof(void *), \"\");\n"@
}

/// Line 4 of [`unique_ptr_text`].
pub open spec fn unique_ptr_line4(inner: Seq<char>, inst: Seq<char>) -> Seq<char> {
    "void "@ + instance_symbol("cxxbridge02$unique_ptr$"@, inst, "null"@) + "(::std::unique_ptr<"@ + inner + "> *ptr) noexcept {\n"@
}

/// Line 5 of [`unique_ptr_text`].
pub open spec fn unique_ptr_line5(inner: Seq<char>, inst: Seq<char>) -> Seq<char> {
    "  new (ptr) ::std::unique_ptr<"@ + inner + ">();\n"@
}

/// Line 6 of [`unique_ptr_text`].
pub open spec fn unique_ptr_line6(inner: Seq<char>, inst: Seq<char>) -> Seq<char> {
    "}\n"@
}

/// Line 7 of [`unique_ptr_text`].
pub open spec fn unique_ptr_line7(inner: Seq<char>, inst: Seq<char>) -> Seq<char> {
    "void "@ + instance_symbol("cxxbridge02$unique_ptr$"@, inst, "new"@) + "(::std::unique_ptr<"@ + inner + "> *ptr, "@ + inner + " *value) noexcept {\n"@
}

/// Line 8 of [`unique_ptr_text`].
pub open spec fn unique_ptr_line8(inner: Seq<char>, inst: Seq<char>) -> Seq<char> {
    "  new (ptr) ::std::unique_ptr<"@ + inner + ">(new "@ + inner + "(::std::move(*value)));\n"@
}

/// Line 9 of [`unique_ptr_text`].
pub open spec fn unique_ptr_line9(inner: Seq<char>, inst: Seq<char>) -> Seq<char> {
    "}\n"@
}

/// Line 10 of [`unique_ptr_text`].
pub open spec fn unique_ptr_line10(inner: Seq<char>, inst: Seq<char>) -> Seq<char> {
    "void "@ + instance_symbol("cxxbridge02$unique_ptr$"@, inst, "raw"@) + "(::std::unique_ptr<"@ + inner + "> *ptr, "@ + inner + " *raw) noexcept {\n"@
}

/// Line 11 of [`unique_ptr_text`].
pub open spec fn unique_ptr_line11(inner: Seq<char>, inst: Seq<char>) -> Seq<char> {
    "  new (ptr) ::std::unique_ptr<"@ + inner + ">(raw);\n"@
}

/// Line 12 of [`unique_ptr_text`].
pub open spec fn unique_ptr_line12(inner: Seq<char>, inst: Seq<char>) -> Seq<char> {
    "}\n"@
}

/// Line 13 of [`unique_ptr_text`].
pub open spec fn unique_ptr_line13(inner: Seq<char>, inst: Seq<char>) -> Seq<char> {
    "const "@ + inner + " *"@ + instance_symbol("cxxbridge02$unique_ptr$"@, inst, "get"@) + "(const ::std::unique_ptr<"@ + inner + ">& ptr) noexcept {\n"@
}

/// Line 14 of [`unique_ptr_text`].
pub open spec fn unique_ptr_line14(inner: Seq<char>, inst: Seq<char>) -> Seq<char> {
    "  return ptr.get();\n"@
}

/// Line 15 of [`unique_ptr_text`].
pub open spec fn unique_ptr_line15(inner: Seq<char>, inst: Seq<char>) -> Seq<char> {
    "}\n"@
}

/// Line 16 of [`unique_ptr_text`].
pub open spec fn unique_ptr_line16(inner: Seq<char>, inst: Seq<char>) -> Seq<char> {
    inner + " *"@ + instance_symbol("cxxbridge02$unique_ptr$"@, inst, "release"@) + "(::std::unique_ptr<"@ + inner + ">& ptr) noexcept {\n"@
}

/// Line 17 of [`unique_ptr_text`].
pub open spec fn unique_ptr_line17(inner: Seq<char>, inst: Seq<char>) -> Seq<char> {
    "  return ptr.release();\n"@
}

/// Line 18 of [`unique_ptr_text`].
pub open spec fn unique_ptr_line18(inner: Seq<char>, inst: Seq<char>) -> Seq<char> {
    "}\n"@
}

/// Line 19 of [`unique_ptr_text`].
pub open spec fn unique_ptr_line19(inner: Seq<char>, inst: Seq<char>) -> Seq<char> {
    "void "@ + instance_symbol("cxxbridge02$unique_ptr$"@, inst, "drop"@) + "(::std::unique_ptr<"@ + inner + "> *ptr) noexcept {\n"@
}

/// Line 20 of [`unique_ptr_text`].
pub open spec fn unique_ptr_line20(inner: Seq<char>, inst: Seq<char>) -> Seq<char> {
    "  ptr->~unique_ptr();\n"@
}

/// Line 21 of [`unique_ptr_text`].
pub open spec fn unique_ptr_line21(inner: Seq<char>, inst: Seq<char>) -> Seq<char> {
    "}\n"@
}

/// Line 22 of [`unique_ptr_text`].
pub open spec fn unique_ptr_line22(inner: Seq<char>, inst: Seq<char>) -> Seq<char> {
    "#endif // CXXBRIDGE02_UNIQUE_PTR_"@ + inst + "\n"@
}

/// Part 0 of [`unique_ptr_text`].
pub open spec fn unique_ptr_part0(inner: Seq<char>, inst: Seq<char>) -> Seq<char> {
    unique_ptr_line0(inner, inst) + unique_ptr_line1(inner, inst) + unique_ptr_line2(inner, inst) + unique_ptr_line3(inner, inst) + unique_ptr_line4(inner, inst) + unique_ptr_line5(inner, inst) + unique_ptr_line6(inner, inst) + unique_ptr_line7(inner, inst)
}

#[verifier::rlimit(30)]
fn unique_ptr_part0_string(inner: &str, inst: &str) -> (r: String)
    ensures
        r@ == unique_ptr_part0(inner@, inst@),
{
    let mut buf = String::new();
    let ghost b0 = buf@;
    buf.append("#ifndef CXXBRIDGE02_UNIQUE_PTR_");
    buf.append(inst);
    buf.append("\n");
    assert(buf@ =~= unique_ptr_line0(inner@, inst@));
    let ghost b1 = buf@;
    buf.append("#define CXXBRIDGE02_UNIQUE_PTR_");
    buf.append(inst);
    buf.append("\n");
    assert(buf@ =~= b1 + unique_ptr_line1(inner@, inst@));
    let ghost b2 = buf@;
    buf.append("static_assert(sizeof(::std::unique_ptr<");
    buf.append(inner);
    buf.append(">) == sizeof(void *), \"\");\n");
    assert(buf@ =~= b2 + unique_ptr_line2(inner@, inst@));
    let ghost b3 = buf@;
    buf.append("static_assert(alignof(::std::unique_ptr<");
    buf.append(inner);
    buf.append(">) == alignof(void *), \"\");\n");
    assert(buf@ =~= b3 + unique_ptr_line3(inner@, inst@));
    let ghost b4 = buf@;
    buf.append("void ");
    push_instance_symbol(&mut buf, "cxxbridge02$unique_ptr$", inst, "null");
    buf.append("(::std::unique_ptr<");
    buf.append(inner);
    buf.append("> *ptr) noexcept {\n");
    assert(buf@ =~= b4 + unique_ptr_line4(inner@, inst@));
    let ghost b5 = buf@;
    buf.append("  new (ptr) ::std::unique_ptr<");
    buf.append(inner);
    buf.append(">();\n");
    assert(buf@ =~= b5 + unique_ptr_line5(inner@, inst@));
    let ghost b6 = buf@;
    buf.append("}\n");
    assert(buf@ =~= b6 + unique_ptr_line6(inner@, inst@));
    let ghost b7 = buf@;
    buf.append("void ");
    push_instance_symbol(&mut buf, "cxxbridge02$unique_ptr$", inst, "new");
    buf.append("(::std::unique_ptr<");
    buf.append(inner);
    buf.append("> *ptr, ");
    buf.append(inner);
    buf.append(" *value) noexcept {\n");
    assert(buf@ =~= b7 + unique_ptr_line7(inner@, inst@));
    buf
}

/// Part 1 of [`unique_ptr_text`].
pub open spec fn unique_ptr_part1(inner: Seq<char>, inst: Seq<char>) -> Seq<char> {
    unique_ptr_line8(inner, inst) + unique_ptr_line9(inner, inst) + unique_ptr_line10(inner, inst) + unique_ptr_line11(inner, inst) + unique_ptr_line12(inner, inst) + unique_ptr_line13(inner, inst) + unique_ptr_line14(inner, inst) + unique_ptr_line15(inner, inst)
}

#[verifier::rlimit(30)]
fn unique_ptr_part1_string(inner: &str, inst: &str) -> (r: String)
    ensures
        r@ == unique_ptr_part1(inner@, inst@),
{
    let mut buf = String::new();
    let ghost b0 = buf@;
    buf.append("  new (ptr) ::std::unique_ptr<");
    buf.append(inner);
    buf.append(">(new ");
    buf.append(inner);
    buf.append("(::std::move(*value)));\n");
    assert(buf@ =~= unique_ptr_line8(inner@, inst@));
    let ghost b1 = buf@;
    buf.append("}\n");
    assert(buf@ =~= b1 + unique_ptr_line9(inner@, inst@));
    let ghost b2 = buf@;
    buf.append("void ");
    push_instance_symbol(&mut buf, "cxxbridge02$unique_ptr$", inst, "raw");
    buf.append("(::std::unique_ptr<");
    buf.append(inner);
    buf.append("> *ptr, ");
    buf.append(inner);
    buf.append(" *raw) noexcept {\n");
    assert(buf@ =~= b2 + unique_ptr_line10(inner@, inst@));
    let ghost b3 = buf@;
    buf.append("  new (ptr) ::std::unique_ptr<");
    buf.append(inner);
    buf.append(">(raw);\n");
    assert(buf@ =~= b3 + unique_ptr_line11(inner@, inst@));
    let ghost b4 = buf@;
    buf.append("}\n");
    assert(buf@ =~= b4 + unique_ptr_line12(inner@, inst@));
    let ghost b5 = buf@;
    buf.append("const ");
    buf.append(inner);
    buf.append(" *");
    push_instance_symbol(&mut buf, "cxxbridge02$unique_ptr$", inst, "get");
    buf.append("(const ::std::unique_ptr<");
    buf.append(inner);
    buf.append(">& ptr) noexcept {\n");
    assert(buf@ =~= b5 + unique_ptr_line13(inner@, inst@));
    let ghost b6 = buf@;
    buf.append("  return ptr.get();\n");
    assert(buf@ =~= b6 + unique_ptr_line14(inner@, inst@));
    let ghost b7 = buf@;
    buf.append("}\n");
    assert(buf@ =~= b7 + unique_ptr_line15(inner@, inst@));
    buf
}

/// Part 2 of [`unique_ptr_text`].
pub open spec fn unique_ptr_part2(inner: Seq<char>, inst: Seq<char>) -> Seq<char> {
    unique_ptr_line16(inner, inst) + unique_ptr_line17(inner, inst) + unique_ptr_line18(inner, inst) + unique_ptr_line19(inner, inst) + unique_ptr_line20(inner, inst) + unique_ptr_line21(inner, inst) + unique_ptr_line22(inner, inst)
}

#[verifier::rlimit(30)]
fn unique_ptr_part2_string(inner: &str, inst: &str) -> (r: String)
    ensures
        r@ == unique_ptr_part2(inner@, inst@),
{
    let mut buf = String::new();
    let ghost b0 = buf@;
    buf.append(inner);
    buf.append(" *");
    push_instance_symbol(&mut buf, "cxxbridge02$unique_ptr$", inst, "release");
    buf.append("(::std::unique_ptr<");
    buf.append(inner);
    buf.append(">& ptr) noexcept {\n");
    assert(buf@ =~= unique_ptr_line16(inner@, inst@));
    let ghost b1 = buf@;
    buf.append("  return ptr.release();\n");
    assert(buf@ =~= b1 + unique_ptr_line17(inner@, inst@));
    let ghost b2 = buf@;
    buf.append("}\n");
    assert(buf@ =~= b2 + unique_ptr_line18(inner@, inst@));
    let ghost b3 = buf@;
    buf.append("void ");
    push_instance_symbol(&mut buf, "cxxbridge02$unique_ptr$", inst, "drop");
    buf.append("(::std::unique_ptr<");
    buf.append(inner);
    buf.append("> *ptr) noexcept {\n");
    assert(buf@ =~= b3 + unique_ptr_line19(inner@, inst@));
    let ghost b4 = buf@;
    buf.append("  ptr->~unique_ptr();\n");
    assert(buf@ =~= b4 + unique_ptr_line20(inner@, inst@));
    let ghost b5 = buf@;
    buf.append("}\n");
    assert(buf@ =~= b5 + unique_ptr_line21(inner@, inst@));
    let ghost b6 = buf@;
    buf.append("#endif // CXXBRIDGE02_UNIQUE_PTR_");
    buf.append(inst);
    buf.append("\n");
    assert(buf@ =~= b6 + unique_ptr_line22(inner@, inst@));
    buf
}

/// The guarded functions through which the managed side handles a native
/// owned pointer: a size check, then null, construct from a value, adopt a
/// raw pointer, peek, release and destroy.
pub open spec fn unique_ptr_text(inner: Seq<char>, inst: Seq<char>) -> Seq<char> {
    unique_ptr_part0(inner, inst) + unique_ptr_part1(inner, inst) + unique_ptr_part2(inner, inst)
}

fn unique_ptr_text_string(inner: &str, inst: &str) -> (r: String)
    ensures
        r@ == unique_ptr_text(inner@, inst@),
{
    let mut buf = unique_ptr_part0_string(inner, inst);
    let ghost b = buf@;
    let part = unique_ptr_part1_string(inner, inst);
    buf.append(part.as_str());
    assert(buf@ == b + unique_ptr_part1(inner@, inst@));
    let ghost b = buf@;
    let part = unique_ptr_part2_string(inner, inst);
    buf.append(part.as_str());
    assert(buf@ == b + unique_ptr_part2(inner@, inst@));
    buf
}

/// Line 0 of [`vector_text`].
pub open spec fn vector_line0(inner: Seq<char>, inst: Seq<char>) -> Seq<char> {
    "#ifndef CXXBRIDGE02_vector_"@ + inst + "\n"@
}

/// Line 1 of [`vector_text`].
pub open spec fn vector_line1(inner: Seq<char>, inst: Seq<char>) -> Seq<char> {
    "#define CXXBRIDGE02_vector_"@ + inst + "\n"@
}

/// Line 2 of [`vector_text`].
pub open spec fn vector_line2(inner: Seq<char>, inst: Seq<char>) -> Seq<char> {
    "size_t "@ + instance_symbol("cxxbridge02$std$vector$"@, inst, "length"@) + "(const std::vector<"@ + inner + "> &s) noexcept {\n"@
}

/// Line 3 of [`vector_text`].
pub open spec fn vector_line3(inner: Seq<char>, inst: Seq<char>) -> Seq<char> {
    "  return s.size();\n"@
}

/// Line 4 of [`vector_text`].
pub open spec fn vector_line4(inner: Seq<char>, inst: Seq<char>) -> Seq<char> {
    "}\n"@
}

/// Line 5 of [`vector_text`].
pub open spec fn vector_line5(inner: Seq<char>, inst: Seq<char>) -> Seq<char> {
    "void "@ + instance_symbol("cxxbridge02$std$vector$"@, inst, "push_back"@) + "(std::vector<"@ + inner + "> &s, const "@ + inner + " &item) noexcept {\n"@
}

/// Line 6 of [`vector_text`].
pub open spec fn vector_line6(inner: Seq<char>, inst: Seq<char>) -> Seq<char> {
    "  s.push_back(item);\n"@
}

/// Line 7 of [`vector_text`].
pub open spec fn vector_line7(inner: Seq<char>, inst: Seq<char>) -> Seq<char> {
    "}\n"@
}

/// Line 8 of [`vector_text`].
pub open spec fn vector_line8(inner: Seq<char>, inst: Seq<char>) -> Seq<char> {
    "const "@ + inner + " *"@ + instance_symbol("cxxbridge02$std$vector$"@, inst, "get_unchecked"@) + "(const std::vector<"@ + inner + "> &s, size_t pos) noexcept {\n"@
}

/// Line 9 of [`vector_text`].
pub open spec fn vector_line9(inner: Seq<char>, inst: Seq<char>) -> Seq<char> {
    "  return &s[pos];\n"@
}

/// Line 10 of [`vector_text`].
pub open spec fn vector_line10(inner: Seq<char>, inst: Seq<char>) -> Seq<char> {
    "}\n"@
}

/// Line 11 of [`vector_text`].
pub open spec fn vector_line11(inner: Seq<char>, inst: Seq<char>) -> Seq<char> {
    "#endif // CXXBRIDGE02_vector_"@ + inst + "\n"@
}

/// The guarded functions through which the managed side reads and grows a
/// native sequence: length, append and indexed access.
pub open spec fn vector_text(inner: Seq<char>, inst: Seq<char>) -> Seq<char> {
    vector_line0(inner, inst) + vector_line1(inner, inst) + vector_line2(inner, inst) + vector_line3(inner, inst) + vector_line4(inner, inst) + vector_line5(inner, inst) + vector_line6(inner, inst) + vector_line7(inner, inst) + vector_line8(inner, inst) + vector_line9(inner, inst) + vector_line10(inner, inst) + vector_line11(inner, inst)
}

fn vector_text_string(inner: &str, inst: &str) -> (r: String)
    ensures
        r@ == vector_text(inner@, inst@),
{
    let mut buf = String::new();
    let ghost b0 = buf@;
    buf.append("#ifndef CXXBRIDGE02_vector_");
    buf.append(inst);
    buf.append("\n");
    assert(buf@ =~= vector_line0(inner@, inst@));
    let ghost b1 = buf@;
    buf.append("#define CXXBRIDGE02_vector_");
    buf.append(inst);
    buf.append("\n");
    assert(buf@ =~= b1 + vector_line1(inner@, inst@));
    let ghost b2 = buf@;
    buf.append("size_t ");
    push_instance_symbol(&mut buf, "cxxbridge02$std$vector$", inst, "length");
    buf.append("(const std::vector<");
    buf.append(inner);
    buf.append("> &s) noexcept {\n");
    assert(buf@ =~= b2 + vector_line2(inner@, inst@));
    let ghost b3 = buf@;
    buf.append("  return s.size();\n");
    assert(buf@ =~= b3 + vector_line3(inner@, inst@));
    let ghost b4 = buf@;
    buf.append("}\n");
    assert(buf@ =~= b4 + vector_line4(inner@, inst@));
    let ghost b5 = buf@;
    buf.append("void ");
    push_instance_symbol(&mut buf, "cxxbridge02$std$vector$", inst, "push_back");
    buf.append("(std::vector<");
    buf.append(inner);
    buf.append("> &s, const ");
    buf.append(inner);
    buf.append(" &item) noexcept {\n");
    assert(buf@ =~= b5 + vector_line5(inner@, inst@));
    let ghost b6 = buf@;
    buf.append("  s.push_back(item);\n");
    assert(buf@ =~= b6 + vector_line6(inner@, inst@));
    let ghost b7 = buf@;
    buf.append("}\n");
    assert(buf@ =~= b7 + vector_line7(inner@, inst@));
    let ghost b8 = buf@;
    buf.append("const ");
    buf.append(inner);
    buf.append(" *");
    push_instance_symbol(&mut buf, "cxxbridge02$std$vector$", inst, "get_unchecked");
    buf.append("(const std::vector<");
    buf.append(inner);
    buf.append("> &s, size_t pos) noexcept {\n");
    assert(buf@ =~= b8 + vector_line8(inner@, inst@));
    let ghost b9 = buf@;
    buf.append("  return &s[pos];\n");
    assert(buf@ =~= b9 + vector_line9(inner@, inst@));
    let ghost b10 = buf@;
    buf.append("}\n");
    assert(buf@ =~= b10 + vector_line10(inner@, inst@));
    let ghost b11 = buf@;
    buf.append("#endif // CXXBRIDGE02_vector_");
    buf.append(inst);
    buf.append("\n");
    assert(buf@ =~= b11 + vector_line11(inner@, inst@));
    buf
}

/// The qualified native name of a declared type.
pub open spec fn qualified(ns: Seq<Seq<char>>, ident: Seq<char>) -> Seq<char> {
    ns_prefix(ns, "::"@) + ident
}

/// The mangled segment of a declared type.
pub open spec fn qualified_mangled(ns: Seq<Seq<char>>, ident: Seq<char>) -> Seq<char> {
    ns_prefix(ns, "$"@) + ident
}

fn qualified_strings(ns: &Vec<String>, ident: &String) -> (r: (String, String))
    ensures
        r.0@ == qualified(name_views(ns@), ident@),
        r.1@ == qualified_mangled(name_views(ns@), ident@),
{
    let mut inner = String::new();
    push_ns_prefix(&mut inner, ns, "::");
    inner.append(ident.as_str());
    let mut inst = String::new();
    push_ns_prefix(&mut inst, ns, "$");
    inst.append(ident.as_str());
    assert(inner@ =~= qualified(name_views(ns@), ident@));
    assert(inst@ =~= qualified_mangled(name_views(ns@), ident@));
    (inner, inst)
}

fn type_strings(ns: &Vec<String>, ty: &Type) -> (r: (String, String))
    requires
        crate::mangle::has_typename(ty@),
        crate::mangle::has_mangled(ty@),
    ensures
        r.0@ == typename(name_views(ns@), ty@),
        r.1@ == mangled(name_views(ns@), ty@),
{
    (to_typename(ty, ns), to_mangled(ty, ns))
}

/// Writes the guarded declarations behind an owned pointer to the managed
/// type `ident`.
pub fn write_rust_box_extern(out: &mut OutFile, ident: &String)
    ensures
        final(out)@ == put(
            old(out)@,
            rust_box_extern_text(
                qualified(name_views(old(out).namespace@), ident@),
                qualified_mangled(name_views(old(out).namespace@), ident@),
            ),
        ),
        keeps_frame(*old(out), *final(out)),
{
    let (inner, inst) = qualified_strings(&out.namespace, ident);
    let text = rust_box_extern_text_string(inner.as_str(), inst.as_str());
    out.write(text.as_str());
}

/// Writes the members of the owned pointer to the managed type `ident`.
pub fn write_rust_box_impl(out: &mut OutFile, ident: &String)
    ensures
        final(out)@ == put(
            old(out)@,
            rust_box_impl_text(
                qualified(name_views(old(out).namespace@), ident@),
                qualified_mangled(name_views(old(out).namespace@), ident@),
            ),
        ),
        keeps_frame(*old(out), *final(out)),
{
    let (inner, inst) = qualified_strings(&out.namespace, ident);
    let text = rust_box_impl_text_string(inner.as_str(), inst.as_str());
    out.write(text.as_str());
}

/// Writes the guarded declarations behind a managed sequence of `ty`.
pub fn write_rust_vec_extern(out: &mut OutFile, ty: &Type)
    requires
        ty@ is Ident,
    ensures
        final(out)@ == put(
            old(out)@,
            rust_vec_extern_text(
                typename(name_views(old(out).namespace@), ty@),
                mangled(name_views(old(out).namespace@), ty@),
            ),
        ),
        keeps_frame(*old(out), *final(out)),
{
    let (inner, inst) = type_strings(&out.namespace, ty);
    let text = rust_vec_extern_text_string(inner.as_str(), inst.as_str());
    out.write(text.as_str());
}

/// Writes the members of the native view of a managed sequence of `ty`.
pub fn write_rust_vec_impl(out: &mut OutFile, ty: &Type)
    requires
        ty@ is Ident,
    ensures
        final(out)@ == put(
            old(out)@,
            rust_vec_impl_text(
                typename(name_views(old(out).namespace@), ty@),
                mangled(name_views(old(out).namespace@), ty@),
            ),
        ),
        keeps_frame(*old(out), *final(out)),
{
    let (inner, inst) = type_strings(&out.namespace, ty);
    let text = rust_vec_impl_text_string(inner.as_str(), inst.as_str());
    out.write(text.as_str());
}

/// Whether a type can stand inside a native owned pointer's glue: a name,
/// or a native sequence of a name.
pub open spec fn unique_ptr_target(t: TypeView) -> bool {
    match t {
        TypeView::Ident(_) => true,
        TypeView::Vector(i) => *i is Ident,
        _ => false,
    }
}

/// Writes the guarded functions behind a native owned pointer to `ty`.
pub fn write_unique_ptr(out: &mut OutFile, ty: &Type)
    requires
        unique_ptr_target(ty@),
    ensures
        final(out)@ == put(
            old(out)@,
            unique_ptr_text(
                typename(name_views(old(out).namespace@), ty@),
                mangled(name_views(old(out).namespace@), ty@),
            ),
        ),
        final(out).includes@ == (IncludesView { utility: true, ..old(out).includes@ }),
        final(out).namespace@ == old(out).namespace@,
        final(out).header == old(out).header,
{
    proof {
        reveal_with_fuel(crate::syntax::type_view, 2);
        reveal_with_fuel(crate::mangle::has_typename, 2);
        reveal_with_fuel(crate::mangle::has_mangled, 2);
    }
    out.includes.utility = true;
    let (inner, inst) = type_strings(&out.namespace, ty);
    let text = unique_ptr_text_string(inner.as_str(), inst.as_str());
    out.write(text.as_str());
}

/// Writes the guarded functions behind a native sequence of `ident`.
pub fn write_vector(out: &mut OutFile, ident: &String)
    ensures
        final(out)@ == put(
            old(out)@,
            vector_text(
                typename(name_views(old(out).namespace@), TypeView::Ident(ident@)),
                mangled(name_views(old(out).namespace@), TypeView::Ident(ident@)),
            ),
        ),
        keeps_frame(*old(out), *final(out)),
{
    let ty = Type::Ident(ident.clone());
    let (inner, inst) = type_strings(&out.namespace, &ty);
    let text = vector_text_string(inner.as_str(), inst.as_str());
    out.write(text.as_str());
}

/// Whether a native sequence of the named type gets glue here: bytes or a
/// user type; other primitive sequences come with the runtime.
pub open spec fn allow_vector(id: Seq<char>) -> bool {
    id == "u8"@ || atom_of(id).is_none()
}

/// Whether glue for a native owned pointer is written for `t`.
pub open spec fn writes_unique_ptr(t: TypeView) -> bool {
    match t {
        TypeView::UniquePtr(i) => match *i {
            TypeView::Ident(id) => atom_of(id).is_none(),
            TypeView::Vector(j) => *j is Ident,
            _ => false,
        },
        _ => false,
    }
}

/// The declarations and functions that one observed type needs, each in a
/// section of its own.
pub open spec fn extern_step(st: OutState, ns: Seq<Seq<char>>, t: TypeView) -> OutState {
    match t {
        TypeView::RustBox(i) => match *i {
            TypeView::Ident(id) => put(
                next_section_state(st),
                rust_box_extern_text(qualified(ns, id), qualified_mangled(ns, id)),
            ),
            _ => st,
        },
        TypeView::RustVec(i) => match *i {
            TypeView::Ident(_) => put(
                next_section_state(st),
                rust_vec_extern_text(typename(ns, *i), mangled(ns, *i)),
            ),
            _ => st,
        },
        TypeView::UniquePtr(i) => if writes_unique_ptr(t) {
            put(next_section_state(st), unique_ptr_text(typename(ns, *i), mangled(ns, *i)))
        } else {
            st
        },
        TypeView::Vector(i) => match *i {
            TypeView::Ident(id) => if allow_vector(id) {
                put(next_section_state(st), vector_text(typename(ns, *i), mangled(ns, *i)))
            } else {
                st
            },
            _ => st,
        },
        _ => st,
    }
}

/// [`extern_step`] over each observed type in order.
pub open spec fn extern_steps(st: OutState, ns: Seq<Seq<char>>, all: Seq<TypeView>) -> OutState
    decreases all.len(),
{
    if all.len() == 0 {
        st
    } else {
        extern_step(extern_steps(st, ns, all.drop_last()), ns, all.last())
    }
}

/// The native members that one observed type needs.
pub open spec fn impl_step(st: OutState, ns: Seq<Seq<char>>, t: TypeView) -> OutState {
    match t {
        TypeView::RustBox(i) => match *i {
            TypeView::Ident(id) => put(
                st,
                rust_box_impl_text(qualified(ns, id), qualified_mangled(ns, id)),
            ),
            _ => st,
        },
        TypeView::RustVec(i) => match *i {
            TypeView::Ident(_) => put(st, rust_vec_impl_text(typename(ns, *i), mangled(ns, *i))),
            _ => st,
        },
        _ => st,
    }
}

/// [`impl_step`] over each observed type in order.
pub open spec fn impl_steps(st: OutState, ns: Seq<Seq<char>>, all: Seq<TypeView>) -> OutState
    decreases all.len(),
{
    if all.len() == 0 {
        st
    } else {
        impl_step(impl_steps(st, ns, all.drop_last()), ns, all.last())
    }
}

/// The whole instantiation pass: the declarations with C linkage, then the
/// native members inside the runtime's namespace; blocks that stay empty
/// leave no trace.
pub open spec fn instantiations_state(st: OutState, ns: Seq<Seq<char>>, all: Seq<TypeView>) -> OutState {
    let a = end_block_state(
        extern_steps(begin_block_state(st, "extern \"C\""@), ns, all),
        "extern \"C\""@,
    );
    let b = begin_block_state(
        begin_block_state(a, "namespace rust"@),
        "inline namespace cxxbridge02"@,
    );
    end_block_state(end_block_state(impl_steps(b, ns, all), "namespace cxxbridge02"@), "namespace rust"@)
}

/// Whether some observed type gets native owned pointer glue.
pub open spec fn any_unique_ptr(all: Seq<TypeView>) -> bool {
    exists|i: int| 0 <= i < all.len() && writes_unique_ptr(#[trigger] all[i])
}

/// Writes what [`extern_step`] adds for one observed type.
#[verifier::rlimit(30)]
fn write_extern_step(out: &mut OutFile, ty: &Type)
    ensures
        final(out)@ == extern_step(old(out)@, name_views(old(out).namespace@), ty@),
        final(out).includes@ == (IncludesView {
            utility: old(out).includes@.utility || writes_unique_ptr(ty@),
            ..old(out).includes@
        }),
        final(out).namespace@ == old(out).namespace@,
        final(out).header == old(out).header,
{
    proof {
        reveal_with_fuel(crate::syntax::type_view, 3);
    }
    match ty {
        Type::RustBox(inner) => match &**inner {
            Type::Ident(id) => {
                assert(inner@ == TypeView::Ident(id@));
                assert(ty@ == TypeView::RustBox(Box::new(TypeView::Ident(id@))));
                out.next_section();
                write_rust_box_extern(out, id);
            },
            _ => {},
        },
        Type::RustVec(inner) => match &**inner {
            Type::Ident(id) => {
                assert(inner@ == TypeView::Ident(id@));
                assert(ty@ == TypeView::RustVec(Box::new(TypeView::Ident(id@))));
                out.next_section();
                write_rust_vec_extern(out, inner);
            },
            _ => {},
        },
        Type::UniquePtr(inner) => match &**inner {
            Type::Ident(id) => {
                assert(inner@ == TypeView::Ident(id@));
                assert(ty@ == TypeView::UniquePtr(Box::new(TypeView::Ident(id@))));
                if Atom::from(id.as_str()).is_none() {
                    out.next_section();
                    write_unique_ptr(out, inner);
                }
            },
            Type::Vector(elem) => match &**elem {
                Type::Ident(id) => {
                    assert(inner@ == TypeView::Vector(Box::new(TypeView::Ident(id@))));
                    assert(ty@ == TypeView::UniquePtr(Box::new(inner@)));
                    out.next_section();
                    write_unique_ptr(out, inner);
                },
                _ => {
                    assert(!(elem@ is Ident));
                },
            },
            _ => {},
        },
        Type::Vector(inner) => match &**inner {
            Type::Ident(id) => {
                assert(inner@ == TypeView::Ident(id@));
                assert(ty@ == TypeView::Vector(Box::new(TypeView::Ident(id@))));
                let allowed = crate::strings::str_eq(id.as_str(), "u8") || Atom::from(
                    id.as_str(),
                ).is_none();
                if allowed {
                    out.next_section();
                    write_vector(out, id);
                }
            },
            _ => {},
        },
        _ => {},
    }
}

/// Writes the glue of every generic instantiation that the interface uses,
/// once per wrapper kind and concrete type, each block guarded by its
/// mangled instance name.
#[verifier::rlimit(30)]
pub fn write_generic_instantiations(out: &mut OutFile, types: &Types)
    ensures
        final(out)@ == instantiations_state(
            old(out)@,
            name_views(old(out).namespace@),
            types@.all,
        ),
        final(out).includes@ == (IncludesView {
            utility: old(out).includes@.utility || any_unique_ptr(types@.all),
            ..old(out).includes@
        }),
        final(out).namespace@ == old(out).namespace@,
        final(out).header == old(out).header,
{
    proof {
        reveal_with_fuel(crate::syntax::type_view, 3);
    }
    let ghost ns = name_views(out.namespace@);
    let ghost all = types@.all;
    let ghost inc0 = out.includes@;
    out.begin_block("extern \"C\"");
    let ghost st0 = out@;
    let mut i: usize = 0;
    while i < types.all.len()
        invariant
            i <= types.all@.len(),
            all == views(types.all@),
            ns == name_views(out.namespace@),
            out@ == extern_steps(st0, ns, all.subrange(0, i as int)),
            out.includes@ == (IncludesView {
                utility: inc0.utility || any_unique_ptr(all.subrange(0, i as int)),
                ..inc0
            }),
            out.header == old(out).header,
            out.namespace@ == old(out).namespace@,
        decreases types.all@.len() - i,
    {
        let ghost before = out@;
        let ghost inc = out.includes@;
        let ty = &types.all[i];
        assert(all[i as int] == ty@);
        write_extern_step(out, ty);
        let ghost s = all.subrange(0, i + 1);
        assert(s.drop_last() =~= all.subrange(0, i as int));
        assert(out@ == extern_step(before, ns, ty@));
        assert(any_unique_ptr(s) == (any_unique_ptr(all.subrange(0, i as int)) || writes_unique_ptr(ty@))) by {
            if writes_unique_ptr(ty@) {
                assert(s[i as int] == ty@);
            }
            if any_unique_ptr(s) && !writes_unique_ptr(ty@) {
                let l = choose|l: int| 0 <= l < s.len() && writes_unique_ptr(#[trigger] s[l]);
                assert(all.subrange(0, i as int)[l] == s[l]);
            }
        }
        i = i + 1;
    }
    assert(all.subrange(0, i as int) =~= all);
    out.end_block("extern \"C\"");
    out.begin_block("namespace rust");
    out.begin_block("inline namespace cxxbridge02");
    let ghost st1 = out@;
    let mut i: usize = 0;
    while i < types.all.len()
        invariant
            i <= types.all@.len(),
            all == views(types.all@),
            ns == name_views(out.namespace@),
            out@ == impl_steps(st1, ns, all.subrange(0, i as int)),
            out.includes@ == (IncludesView {
                utility: inc0.utility || any_unique_ptr(all),
                ..inc0
            }),
            out.header == old(out).header,
            out.namespace@ == old(out).namespace@,
        decreases types.all@.len() - i,
    {
        let ghost before = out@;
        let ty = &types.all[i];
        assert(all[i as int] == ty@);
        match ty {
            Type::RustBox(inner) => match &**inner {
                Type::Ident(id) => {
                    assert(inner@ == TypeView::Ident(id@));
                    assert(inner@ == TypeView::Ident(id@));
                    assert(ty@ == TypeView::RustBox(Box::new(TypeView::Ident(id@))));
                    write_rust_box_impl(out, id);
                },
                _ => {},
            },
            Type::RustVec(inner) => match &**inner {
                Type::Ident(_) => write_rust_vec_impl(out, inner),
                _ => {},
            },
            _ => {},
        }
        let ghost s = all.subrange(0, i + 1);
        assert(s.drop_last() =~= all.subrange(0, i as int));
        assert(out@ == impl_step(before, ns, ty@));
        i = i + 1;
    }
    assert(all.subrange(0, i as int) =~= all);
    out.end_block("namespace cxxbridge02");
    out.end_block("namespace rust");
}

/// Whether the instantiation pass writes anything for `t`.
pub open spec fn writes_instance(t: TypeView) -> bool {
    match t {
        TypeView::RustBox(i) => *i is Ident,
        TypeView::RustVec(i) => *i is Ident,
        TypeView::UniquePtr(_) => writes_unique_ptr(t),
        TypeView::Vector(i) => match *i {
            TypeView::Ident(id) => allow_vector(id),
            _ => false,
        },
        _ => false,
    }
}

/// Whether the instantiation pass writes anything at all.
pub open spec fn any_instance(all: Seq<TypeView>) -> bool {
    exists|i: int| 0 <= i < all.len() && writes_instance(#[trigger] all[i])
}

fn instance_check(ty: &Type) -> (r: bool)
    ensures
        r == writes_instance(ty@),
{
    proof {
        reveal_with_fuel(crate::syntax::type_view, 3);
    }
    match ty {
        Type::RustBox(inner) | Type::RustVec(inner) => match &**inner {
            Type::Ident(id) => {
                assert(inner@ == TypeView::Ident(id@));
                true
            },
            _ => false,
        },
        Type::UniquePtr(inner) => match &**inner {
            Type::Ident(id) => {
                assert(inner@ == TypeView::Ident(id@));
                Atom::from(id.as_str()).is_none()
            },
            Type::Vector(elem) => match &**elem {
                Type::Ident(id) => {
                    assert(inner@ == TypeView::Vector(Box::new(TypeView::Ident(id@))));
                    true
                },
                _ => {
                    assert(!(elem@ is Ident));
                    false
                },
            },
            _ => false,
        },
        Type::Vector(inner) => match &**inner {
            Type::Ident(id) => {
                assert(inner@ == TypeView::Ident(id@));
                crate::strings::str_eq(id.as_str(), "u8") || Atom::from(id.as_str()).is_none()
            },
            _ => false,
        },
        _ => false,
    }
}

/// Whether the instantiation pass writes anything at all.
pub fn has_instances(types: &Types) -> (r: bool)
    ensures
        r == any_instance(types@.all),
{
    proof {
        reveal_with_fuel(crate::syntax::type_view, 3);
    }
    let ghost all = types@.all;
    let mut i: usize = 0;
    while i < types.all.len()
        invariant
            i <= types.all@.len(),
            all == views(types.all@),
            forall|l: int| 0 <= l < i ==> !writes_instance(#[trigger] all[l]),
        decreases types.all@.len() - i,
    {
        let ty = &types.all[i];
        assert(all[i as int] == ty@);
        let w = instance_check(ty);
        if w {
            assert(writes_instance(all[i as int]));
            return true;
        }
        i = i + 1;
    }
    false
}

} // verus!
