use vstd::prelude::*;
use vstd::string::*;
use crate::expand::rust_type_text;
use crate::generic::unique_ptr_target;
use crate::link::{
    box_link_prefix, instance_link_prefix, instance_link_prefix_of, rust_box_link_prefix,
};
use crate::atom::{atom_of, Atom};
use crate::mangle::{to_typename, typename};
use crate::syntax::{Type, TypeView};
use crate::types::{name_views, views, Types};

verus! {

/// Line 0 of [`box_expansion_text`].
pub open spec fn box_expansion_line0(inner: Seq<char>, name: Seq<char>, prefix: Seq<char>) -> Seq<char> {
    "#[doc(hidden)]\n"@
}

/// Line 1 of [`box_expansion_text`].
pub open spec fn box_expansion_line1(inner: Seq<char>, name: Seq<char>, prefix: Seq<char>) -> Seq<char> {
    "#[export_name = \""@ + prefix + "uninit"@ + "\"]\n"@
}

/// Line 2 of [`box_expansion_text`].
pub open spec fn box_expansion_line2(inner: Seq<char>, name: Seq<char>, prefix: Seq<char>) -> Seq<char> {
    "unsafe extern \"C\" fn "@ + inner + "__box_uninit(\n"@
}

/// Line 3 of [`box_expansion_text`].
pub open spec fn box_expansion_line3(inner: Seq<char>, name: Seq<char>, prefix: Seq<char>) -> Seq<char> {
    "    this: *mut ::std::boxed::Box<::std::mem::MaybeUninit<"@ + inner + ">>,\n"@
}

/// Line 4 of [`box_expansion_text`].
pub open spec fn box_expansion_line4(inner: Seq<char>, name: Seq<char>, prefix: Seq<char>) -> Seq<char> {
    ") {\n"@
}

/// Line 5 of [`box_expansion_text`].
pub open spec fn box_expansion_line5(inner: Seq<char>, name: Seq<char>, prefix: Seq<char>) -> Seq<char> {
    "    ::std::ptr::write(\n"@
}

/// Line 6 of [`box_expansion_text`].
pub open spec fn box_expansion_line6(inner: Seq<char>, name: Seq<char>, prefix: Seq<char>) -> Seq<char> {
    "        this,\n"@
}

/// Line 7 of [`box_expansion_text`].
pub open spec fn box_expansion_line7(inner: Seq<char>, name: Seq<char>, prefix: Seq<char>) -> Seq<char> {
    "        ::std::boxed::Box::new(::std::mem::MaybeUninit::uninit()),\n"@
}

/// Line 8 of [`box_expansion_text`].
pub open spec fn box_expansion_line8(inner: Seq<char>, name: Seq<char>, prefix: Seq<char>) -> Seq<char> {
    "    );\n"@
}

/// Line 9 of [`box_expansion_text`].
pub open spec fn box_expansion_line9(inner: Seq<char>, name: Seq<char>, prefix: Seq<char>) -> Seq<char> {
    "}\n"@
}

/// Line 10 of [`box_expansion_text`].
pub open spec fn box_expansion_line10(inner: Seq<char>, name: Seq<char>, prefix: Seq<char>) -> Seq<char> {
    "#[doc(hidden)]\n"@
}

/// Line 11 of [`box_expansion_text`].
pub open spec fn box_expansion_line11(inner: Seq<char>, name: Seq<char>, prefix: Seq<char>) -> Seq<char> {
    "#[export_name = \""@ + prefix + "drop"@ + "\"]\n"@
}

/// Line 12 of [`box_expansion_text`].
pub open spec fn box_expansion_line12(inner: Seq<char>, name: Seq<char>, prefix: Seq<char>) -> Seq<char> {
    "unsafe extern \"C\" fn "@ + inner + "__box_drop(this: *mut ::std::boxed::Box<"@ + inner + ">) {\n"@
}

/// Line 13 of [`box_expansion_text`].
pub open spec fn box_expansion_line13(inner: Seq<char>, name: Seq<char>, prefix: Seq<char>) -> Seq<char> {
    "    ::std::ptr::drop_in_place(this);\n"@
}

/// Line 14 of [`box_expansion_text`].
pub open spec fn box_expansion_line14(inner: Seq<char>, name: Seq<char>, prefix: Seq<char>) -> Seq<char> {
    "}\n"@
}

/// Part 0 of [`box_expansion_text`].
pub open spec fn box_expansion_part0(inner: Seq<char>, name: Seq<char>, prefix: Seq<char>) -> Seq<char> {
    box_expansion_line0(inner, name, prefix) + box_expansion_line1(inner, name, prefix) + box_expansion_line2(inner, name, prefix) + box_expansion_line3(inner, name, prefix) + box_expansion_line4(inner, name, prefix) + box_expansion_line5(inner, name, prefix) + box_expansion_line6(inner, name, prefix) + box_expansion_line7(inner, name, prefix)
}

fn box_expansion_part0_string(inner: &str, name: &str, prefix: &str) -> (r: String)
    ensures
        r@ == box_expansion_part0(inner@, name@, prefix@),
{
    let mut buf = String::new();
    let ghost b0 = buf@;
    buf.append("#[doc(hidden)]\n");
    assert(buf@ =~= box_expansion_line0(inner@, name@, prefix@));
    let ghost b1 = buf@;
    buf.append("#[export_name = \"");
    buf.append(prefix);
    buf.append("uninit");
    buf.append("\"]\n");
    assert(buf@ =~= b1 + box_expansion_line1(inner@, name@, prefix@));
    let ghost b2 = buf@;
    buf.append("unsafe extern \"C\" fn ");
    buf.append(inner);
    buf.append("__box_uninit(\n");
    assert(buf@ =~= b2 + box_expansion_line2(inner@, name@, prefix@));
    let ghost b3 = buf@;
    buf.append("    this: *mut ::std::boxed::Box<::std::mem::MaybeUninit<");
    buf.append(inner);
    buf.append(">>,\n");
    assert(buf@ =~= b3 + box_expansion_line3(inner@, name@, prefix@));
    let ghost b4 = buf@;
    buf.append(") {\n");
    assert(buf@ =~= b4 + box_expansion_line4(inner@, name@, prefix@));
    let ghost b5 = buf@;
    buf.append("    ::std::ptr::write(\n");
    assert(buf@ =~= b5 + box_expansion_line5(inner@, name@, prefix@));
    let ghost b6 = buf@;
    buf.append("        this,\n");
    assert(buf@ =~= b6 + box_expansion_line6(inner@, name@, prefix@));
    let ghost b7 = buf@;
    buf.append("        ::std::boxed::Box::new(::std::mem::MaybeUninit::uninit()),\n");
    assert(buf@ =~= b7 + box_expansion_line7(inner@, name@, prefix@));
    buf
}

/// Part 1 of [`box_expansion_text`].
pub open spec fn box_expansion_part1(inner: Seq<char>, name: Seq<char>, prefix: Seq<char>) -> Seq<char> {
    box_expansion_line8(inner, name, prefix) + box_expansion_line9(inner, name, prefix) + box_expansion_line10(inner, name, prefix) + box_expansion_line11(inner, name, prefix) + box_expansion_line12(inner, name, prefix) + box_expansion_line13(inner, name, prefix) + box_expansion_line14(inner, name, prefix)
}

fn box_expansion_part1_string(inner: &str, name: &str, prefix: &str) -> (r: String)
    ensures
        r@ == box_expansion_part1(inner@, name@, prefix@),
{
    let mut buf = String::new();
    let ghost b0 = buf@;
    buf.append("    );\n");
    assert(buf@ =~= box_expansion_line8(inner@, name@, prefix@));
    let ghost b1 = buf@;
    buf.append("}\n");
    assert(buf@ =~= b1 + box_expansion_line9(inner@, name@, prefix@));
    let ghost b2 = buf@;
    buf.append("#[doc(hidden)]\n");
    assert(buf@ =~= b2 + box_expansion_line10(inner@, name@, prefix@));
    let ghost b3 = buf@;
    buf.append("#[export_name = \"");
    buf.append(prefix);
    buf.append("drop");
    buf.append("\"]\n");
    assert(buf@ =~= b3 + box_expansion_line11(inner@, name@, prefix@));
    let ghost b4 = buf@;
    buf.append("unsafe extern \"C\" fn ");
    buf.append(inner);
    buf.append("__box_drop(this: *mut ::std::boxed::Box<");
    buf.append(inner);
    buf.append(">) {\n");
    assert(buf@ =~= b4 + box_expansion_line12(inner@, name@, prefix@));
    let ghost b5 = buf@;
    buf.append("    ::std::ptr::drop_in_place(this);\n");
    assert(buf@ =~= b5 + box_expansion_line13(inner@, name@, prefix@));
    let ghost b6 = buf@;
    buf.append("}\n");
    assert(buf@ =~= b6 + box_expansion_line14(inner@, name@, prefix@));
    buf
}

/// The managed side's exported functions behind an owned pointer to its type
/// `inner`: allocation of uninitialized storage, and destruction.
pub open spec fn box_expansion_text(inner: Seq<char>, name: Seq<char>, prefix: Seq<char>) -> Seq<char> {
    box_expansion_part0(inner, name, prefix) + box_expansion_part1(inner, name, prefix)
}

fn box_expansion_text_string(inner: &str, name: &str, prefix: &str) -> (r: String)
    ensures
        r@ == box_expansion_text(inner@, name@, prefix@),
{
    let mut buf = box_expansion_part0_string(inner, name, prefix);
    let ghost b = buf@;
    let part = box_expansion_part1_string(inner, name, prefix);
    buf.append(part.as_str());
    assert(buf@ == b + box_expansion_part1(inner@, name@, prefix@));
    buf
}

/// Line 0 of [`vec_expansion_text`].
pub open spec fn vec_expansion_line0(inner: Seq<char>, name: Seq<char>, prefix: Seq<char>) -> Seq<char> {
    "#[doc(hidden)]\n"@
}

/// Line 1 of [`vec_expansion_text`].
pub open spec fn vec_expansion_line1(inner: Seq<char>, name: Seq<char>, prefix: Seq<char>) -> Seq<char> {
    "#[export_name = \""@ + prefix + "drop"@ + "\"]\n"@
}

/// Line 2 of [`vec_expansion_text`].
pub open spec fn vec_expansion_line2(inner: Seq<char>, name: Seq<char>, prefix: Seq<char>) -> Seq<char> {
    "unsafe extern \"C\" fn "@ + inner + "__vec_drop(this: *mut ::cxx::RustVec<"@ + inner + ">) {\n"@
}

/// Line 3 of [`vec_expansion_text`].
pub open spec fn vec_expansion_line3(inner: Seq<char>, name: Seq<char>, prefix: Seq<char>) -> Seq<char> {
    "    std::ptr::drop_in_place(this);\n"@
}

/// Line 4 of [`vec_expansion_text`].
pub open spec fn vec_expansion_line4(inner: Seq<char>, name: Seq<char>, prefix: Seq<char>) -> Seq<char> {
    "}\n"@
}

/// Line 5 of [`vec_expansion_text`].
pub open spec fn vec_expansion_line5(inner: Seq<char>, name: Seq<char>, prefix: Seq<char>) -> Seq<char> {
    "#[export_name = \""@ + prefix + "vector_from"@ + "\"]\n"@
}

/// Line 6 of [`vec_expansion_text`].
pub open spec fn vec_expansion_line6(inner: Seq<char>, name: Seq<char>, prefix: Seq<char>) -> Seq<char> {
    "unsafe extern \"C\" fn "@ + inner + "__vec_vector_from(this: *mut ::cxx::RustVec<"@ + inner + ">, vector: *mut ::cxx::RealVector<"@ + inner + ">) {\n"@
}

/// Line 7 of [`vec_expansion_text`].
pub open spec fn vec_expansion_line7(inner: Seq<char>, name: Seq<char>, prefix: Seq<char>) -> Seq<char> {
    "    this.as_ref().unwrap().into_vector(vector.as_mut().unwrap());\n"@
}

/// Line 8 of [`vec_expansion_text`].
pub open spec fn vec_expansion_line8(inner: Seq<char>, name: Seq<char>, prefix: Seq<char>) -> Seq<char> {
    "}\n"@
}

/// Line 9 of [`vec_expansion_text`].
pub open spec fn vec_expansion_line9(inner: Seq<char>, name: Seq<char>, prefix: Seq<char>) -> Seq<char> {
    "#[export_name = \""@ + prefix + "len"@ + "\"]\n"@
}

/// Line 10 of [`vec_expansion_text`].
pub open spec fn vec_expansion_line10(inner: Seq<char>, name: Seq<char>, prefix: Seq<char>) -> Seq<char> {
    "unsafe extern \"C\" fn "@ + inner + "__vec_len(this: *const ::cxx::RustVec<"@ + inner + ">) -> usize {\n"@
}

/// Line 11 of [`vec_expansion_text`].
pub open spec fn vec_expansion_line11(inner: Seq<char>, name: Seq<char>, prefix: Seq<char>) -> Seq<char> {
    "    this.as_ref().unwrap().len()\n"@
}

/// Line 12 of [`vec_expansion_text`].
pub open spec fn vec_expansion_line12(inner: Seq<char>, name: Seq<char>, prefix: Seq<char>) -> Seq<char> {
    "}\n"@
}

/// Part 0 of [`vec_expansion_text`].
pub open spec fn vec_expansion_part0(inner: Seq<char>, name: Seq<char>, prefix: Seq<char>) -> Seq<char> {
    vec_expansion_line0(inner, name, prefix) + vec_expansion_line1(inner, name, prefix) + vec_expansion_line2(inner, name, prefix) + vec_expansion_line3(inner, name, prefix) + vec_expansion_line4(inner, name, prefix) + vec_expansion_line5(inner, name, prefix) + vec_expansion_line6(inner, name, prefix) + vec_expansion_line7(inner, name, prefix)
}

fn vec_expansion_part0_string(inner: &str, name: &str, prefix: &str) -> (r: String)
    ensures
        r@ == vec_expansion_part0(inner@, name@, prefix@),
{
    let mut buf = String::new();
    let ghost b0 = buf@;
    buf.append("#[doc(hidden)]\n");
    assert(buf@ =~= vec_expansion_line0(inner@, name@, prefix@));
    let ghost b1 = buf@;
    buf.append("#[export_name = \"");
    buf.append(prefix);
    buf.append("drop");
    buf.append("\"]\n");
    assert(buf@ =~= b1 + vec_expansion_line1(inner@, name@, prefix@));
    let ghost b2 = buf@;
    buf.append("unsafe extern \"C\" fn ");
    buf.append(inner);
    buf.append("__vec_drop(this: *mut ::cxx::RustVec<");
    buf.append(inner);
    buf.append(">) {\n");
    assert(buf@ =~= b2 + vec_expansion_line2(inner@, name@, prefix@));
    let ghost b3 = buf@;
    buf.append("    std::ptr::drop_in_place(this);\n");
    assert(buf@ =~= b3 + vec_expansion_line3(inner@, name@, prefix@));
    let ghost b4 = buf@;
    buf.append("}\n");
    assert(buf@ =~= b4 + vec_expansion_line4(inner@, name@, prefix@));
    let ghost b5 = buf@;
    buf.append("#[export_name = \"");
    buf.append(prefix);
    buf.append("vector_from");
    buf.append("\"]\n");
    assert(buf@ =~= b5 + vec_expansion_line5(inner@, name@, prefix@));
    let ghost b6 = buf@;
    buf.append("unsafe extern \"C\" fn ");
    buf.append(inner);
    buf.append("__vec_vector_from(this: *mut ::cxx::RustVec<");
    buf.append(inner);
    buf.append(">, vector: *mut ::cxx::RealVector<");
    buf.append(inner);
    buf.append(">) {\n");
    assert(buf@ =~= b6 + vec_expansion_line6(inner@, name@, prefix@));
    let ghost b7 = buf@;
    buf.append("    this.as_ref().unwrap().into_vector(vector.as_mut().unwrap());\n");
    assert(buf@ =~= b7 + vec_expansion_line7(inner@, name@, prefix@));
    buf
}

/// Part 1 of [`vec_expansion_text`].
pub open spec fn vec_expansion_part1(inner: Seq<char>, name: Seq<char>, prefix: Seq<char>) -> Seq<char> {
    vec_expansion_line8(inner, name, prefix) + vec_expansion_line9(inner, name, prefix) + vec_expansion_line10(inner, name, prefix) + vec_expansion_line11(inner, name, prefix) + vec_expansion_line12(inner, name, prefix)
}

fn vec_expansion_part1_string(inner: &str, name: &str, prefix: &str) -> (r: String)
    ensures
        r@ == vec_expansion_part1(inner@, name@, prefix@),
{
    let mut buf = String::new();
    let ghost b0 = buf@;
    buf.append("}\n");
    assert(buf@ =~= vec_expansion_line8(inner@, name@, prefix@));
    let ghost b1 = buf@;
    buf.append("#[export_name = \"");
    buf.append(prefix);
    buf.append("len");
    buf.append("\"]\n");
    assert(buf@ =~= b1 + vec_expansion_line9(inner@, name@, prefix@));
    let ghost b2 = buf@;
    buf.append("unsafe extern \"C\" fn ");
    buf.append(inner);
    buf.append("__vec_len(this: *const ::cxx::RustVec<");
    buf.append(inner);
    buf.append(">) -> usize {\n");
    assert(buf@ =~= b2 + vec_expansion_line10(inner@, name@, prefix@));
    let ghost b3 = buf@;
    buf.append("    this.as_ref().unwrap().len()\n");
    assert(buf@ =~= b3 + vec_expansion_line11(inner@, name@, prefix@));
    let ghost b4 = buf@;
    buf.append("}\n");
    assert(buf@ =~= b4 + vec_expansion_line12(inner@, name@, prefix@));
    buf
}

/// The managed side's exported functions behind a managed sequence of
/// `inner`: destruction, copy into a native sequence, and length.
pub open spec fn vec_expansion_text(inner: Seq<char>, name: Seq<char>, prefix: Seq<char>) -> Seq<char> {
    vec_expansion_part0(inner, name, prefix) + vec_expansion_part1(inner, name, prefix)
}

fn vec_expansion_text_string(inner: &str, name: &str, prefix: &str) -> (r: String)
    ensures
        r@ == vec_expansion_text(inner@, name@, prefix@),
{
    let mut buf = vec_expansion_part0_string(inner, name, prefix);
    let ghost b = buf@;
    let part = vec_expansion_part1_string(inner, name, prefix);
    buf.append(part.as_str());
    assert(buf@ == b + vec_expansion_part1(inner@, name@, prefix@));
    buf
}

/// Line 0 of [`unique_ptr_head_text`].
pub open spec fn unique_ptr_head_line0(inner: Seq<char>, name: Seq<char>, prefix: Seq<char>) -> Seq<char> {
    "unsafe impl ::cxx::private::UniquePtrTarget for "@ + inner + " {\n"@
}

/// Line 1 of [`unique_ptr_head_text`].
pub open spec fn unique_ptr_head_line1(inner: Seq<char>, name: Seq<char>, prefix: Seq<char>) -> Seq<char> {
    "    const __NAME: &'static str = \""@ + name + "\";\n"@
}

/// Line 2 of [`unique_ptr_head_text`].
pub open spec fn unique_ptr_head_line2(inner: Seq<char>, name: Seq<char>, prefix: Seq<char>) -> Seq<char> {
    "    fn __null() -> *mut ::std::ffi::c_void {\n"@
}

/// Line 3 of [`unique_ptr_head_text`].
pub open spec fn unique_ptr_head_line3(inner: Seq<char>, name: Seq<char>, prefix: Seq<char>) -> Seq<char> {
    "        extern \"C\" {\n"@
}

/// Line 4 of [`unique_ptr_head_text`].
pub open spec fn unique_ptr_head_line4(inner: Seq<char>, name: Seq<char>, prefix: Seq<char>) -> Seq<char> {
    "            #[link_name = \""@ + prefix + "null"@ + "\"]\n"@
}

/// Line 5 of [`unique_ptr_head_text`].
pub open spec fn unique_ptr_head_line5(inner: Seq<char>, name: Seq<char>, prefix: Seq<char>) -> Seq<char> {
    "            fn __null(this: *mut *mut ::std::ffi::c_void);\n"@
}

/// Line 6 of [`unique_ptr_head_text`].
pub open spec fn unique_ptr_head_line6(inner: Seq<char>, name: Seq<char>, prefix: Seq<char>) -> Seq<char> {
    "        }\n"@
}

/// Line 7 of [`unique_ptr_head_text`].
pub open spec fn unique_ptr_head_line7(inner: Seq<char>, name: Seq<char>, prefix: Seq<char>) -> Seq<char> {
    "        let mut repr = ::std::ptr::null_mut::<::std::ffi::c_void>();\n"@
}

/// Line 8 of [`unique_ptr_head_text`].
pub open spec fn unique_ptr_head_line8(inner: Seq<char>, name: Seq<char>, prefix: Seq<char>) -> Seq<char> {
    "        unsafe { __null(&mut repr) }\n"@
}

/// Line 9 of [`unique_ptr_head_text`].
pub open spec fn unique_ptr_head_line9(inner: Seq<char>, name: Seq<char>, prefix: Seq<char>) -> Seq<char> {
    "        repr\n"@
}

/// Line 10 of [`unique_ptr_head_text`].
pub open spec fn unique_ptr_head_line10(inner: Seq<char>, name: Seq<char>, prefix: Seq<char>) -> Seq<char> {
    "    }\n"@
}

/// The start of the managed side's binding of a native owned pointer to
/// `inner`: its name, and the null pointer.
pub open spec fn unique_ptr_head_text(inner: Seq<char>, name: Seq<char>, prefix: Seq<char>) -> Seq<char> {
    unique_ptr_head_line0(inner, name, prefix) + unique_ptr_head_line1(inner, name, prefix) + unique_ptr_head_line2(inner, name, prefix) + unique_ptr_head_line3(inner, name, prefix) + unique_ptr_head_line4(inner, name, prefix) + unique_ptr_head_line5(inner, name, prefix) + unique_ptr_head_line6(inner, name, prefix) + unique_ptr_head_line7(inner, name, prefix) + unique_ptr_head_line8(inner, name, prefix) + unique_ptr_head_line9(inner, name, prefix) + unique_ptr_head_line10(inner, name, prefix)
}

fn unique_ptr_head_text_string(inner: &str, name: &str, prefix: &str) -> (r: String)
    ensures
        r@ == unique_ptr_head_text(inner@, name@, prefix@),
{
    let mut buf = String::new();
    let ghost b0 = buf@;
    buf.append("unsafe impl ::cxx::private::UniquePtrTarget for ");
    buf.append(inner);
    buf.append(" {\n");
    assert(buf@ =~= unique_ptr_head_line0(inner@, name@, prefix@));
    let ghost b1 = buf@;
    buf.append("    const __NAME: &'static str = \"");
    buf.append(name);
    buf.append("\";\n");
    assert(buf@ =~= b1 + unique_ptr_head_line1(inner@, name@, prefix@));
    let ghost b2 = buf@;
    buf.append("    fn __null() -> *mut ::std::ffi::c_void {\n");
    assert(buf@ =~= b2 + unique_ptr_head_line2(inner@, name@, prefix@));
    let ghost b3 = buf@;
    buf.append("        extern \"C\" {\n");
    assert(buf@ =~= b3 + unique_ptr_head_line3(inner@, name@, prefix@));
    let ghost b4 = buf@;
    buf.append("            #[link_name = \"");
    buf.append(prefix);
    buf.append("null");
    buf.append("\"]\n");
    assert(buf@ =~= b4 + unique_ptr_head_line4(inner@, name@, prefix@));
    let ghost b5 = buf@;
    buf.append("            fn __null(this: *mut *mut ::std::ffi::c_void);\n");
    assert(buf@ =~= b5 + unique_ptr_head_line5(inner@, name@, prefix@));
    let ghost b6 = buf@;
    buf.append("        }\n");
    assert(buf@ =~= b6 + unique_ptr_head_line6(inner@, name@, prefix@));
    let ghost b7 = buf@;
    buf.append("        let mut repr = ::std::ptr::null_mut::<::std::ffi::c_void>();\n");
    assert(buf@ =~= b7 + unique_ptr_head_line7(inner@, name@, prefix@));
    let ghost b8 = buf@;
    buf.append("        unsafe { __null(&mut repr) }\n");
    assert(buf@ =~= b8 + unique_ptr_head_line8(inner@, name@, prefix@));
    let ghost b9 = buf@;
    buf.append("        repr\n");
    assert(buf@ =~= b9 + unique_ptr_head_line9(inner@, name@, prefix@));
    let ghost b10 = buf@;
    buf.append("    }\n");
    assert(buf@ =~= b10 + unique_ptr_head_line10(inner@, name@, prefix@));
    buf
}

/// Line 0 of [`unique_ptr_new_text`].
pub open spec fn unique_ptr_new_line0(inner: Seq<char>, name: Seq<char>, prefix: Seq<char>) -> Seq<char> {
    "    fn __new(mut value: Self) -> *mut ::std::ffi::c_void {\n"@
}

/// Line 1 of [`unique_ptr_new_text`].
pub open spec fn unique_ptr_new_line1(inner: Seq<char>, name: Seq<char>, prefix: Seq<char>) -> Seq<char> {
    "        extern \"C\" {\n"@
}

/// Line 2 of [`unique_ptr_new_text`].
pub open spec fn unique_ptr_new_line2(inner: Seq<char>, name: Seq<char>, prefix: Seq<char>) -> Seq<char> {
    "            #[link_name = \""@ + prefix + "new"@ + "\"]\n"@
}

/// Line 3 of [`unique_ptr_new_text`].
pub open spec fn unique_ptr_new_line3(inner: Seq<char>, name: Seq<char>, prefix: Seq<char>) -> Seq<char> {
    "            fn __new(this: *mut *mut ::std::ffi::c_void, value: *mut "@ + inner + ");\n"@
}

/// Line 4 of [`unique_ptr_new_text`].
pub open spec fn unique_ptr_new_line4(inner: Seq<char>, name: Seq<char>, prefix: Seq<char>) -> Seq<char> {
    "        }\n"@
}

/// Line 5 of [`unique_ptr_new_text`].
pub open spec fn unique_ptr_new_line5(inner: Seq<char>, name: Seq<char>, prefix: Seq<char>) -> Seq<char> {
    "        let mut repr = ::std::ptr::null_mut::<::std::ffi::c_void>();\n"@
}

/// Line 6 of [`unique_ptr_new_text`].
pub open spec fn unique_ptr_new_line6(inner: Seq<char>, name: Seq<char>, prefix: Seq<char>) -> Seq<char> {
    "        unsafe { __new(&mut repr, &mut value) }\n"@
}

/// Line 7 of [`unique_ptr_new_text`].
pub open spec fn unique_ptr_new_line7(inner: Seq<char>, name: Seq<char>, prefix: Seq<char>) -> Seq<char> {
    "        repr\n"@
}

/// Line 8 of [`unique_ptr_new_text`].
pub open spec fn unique_ptr_new_line8(inner: Seq<char>, name: Seq<char>, prefix: Seq<char>) -> Seq<char> {
    "    }\n"@
}

/// Construction of a native owned pointer from a value, for value structs.
pub open spec fn unique_ptr_new_text(inner: Seq<char>, name: Seq<char>, prefix: Seq<char>) -> Seq<char> {
    unique_ptr_new_line0(inner, name, prefix) + unique_ptr_new_line1(inner, name, prefix) + unique_ptr_new_line2(inner, name, prefix) + unique_ptr_new_line3(inner, name, prefix) + unique_ptr_new_line4(inner, name, prefix) + unique_ptr_new_line5(inner, name, prefix) + unique_ptr_new_line6(inner, name, prefix) + unique_ptr_new_line7(inner, name, prefix) + unique_ptr_new_line8(inner, name, prefix)
}

fn unique_ptr_new_text_string(inner: &str, name: &str, prefix: &str) -> (r: String)
    ensures
        r@ == unique_ptr_new_text(inner@, name@, prefix@),
{
    let mut buf = String::new();
    let ghost b0 = buf@;
    buf.append("    fn __new(mut value: Self) -> *mut ::std::ffi::c_void {\n");
    assert(buf@ =~= unique_ptr_new_line0(inner@, name@, prefix@));
    let ghost b1 = buf@;
    buf.append("        extern \"C\" {\n");
    assert(buf@ =~= b1 + unique_ptr_new_line1(inner@, name@, prefix@));
    let ghost b2 = buf@;
    buf.append("            #[link_name = \"");
    buf.append(prefix);
    buf.append("new");
    buf.append("\"]\n");
    assert(buf@ =~= b2 + unique_ptr_new_line2(inner@, name@, prefix@));
    let ghost b3 = buf@;
    buf.append("            fn __new(this: *mut *mut ::std::ffi::c_void, value: *mut ");
    buf.append(inner);
    buf.append(");\n");
    assert(buf@ =~= b3 + unique_ptr_new_line3(inner@, name@, prefix@));
    let ghost b4 = buf@;
    buf.append("        }\n");
    assert(buf@ =~= b4 + unique_ptr_new_line4(inner@, name@, prefix@));
    let ghost b5 = buf@;
    buf.append("        let mut repr = ::std::ptr::null_mut::<::std::ffi::c_void>();\n");
    assert(buf@ =~= b5 + unique_ptr_new_line5(inner@, name@, prefix@));
    let ghost b6 = buf@;
    buf.append("        unsafe { __new(&mut repr, &mut value) }\n");
    assert(buf@ =~= b6 + unique_ptr_new_line6(inner@, name@, prefix@));
    let ghost b7 = buf@;
    buf.append("        repr\n");
    assert(buf@ =~= b7 + unique_ptr_new_line7(inner@, name@, prefix@));
    let ghost b8 = buf@;
    buf.append("    }\n");
    assert(buf@ =~= b8 + unique_ptr_new_line8(inner@, name@, prefix@));
    buf
}

/// Line 0 of [`unique_ptr_raw_get_text`].
pub open spec fn unique_ptr_raw_get_line0(inner: Seq<char>, name: Seq<char>, prefix: Seq<char>) -> Seq<char> {
    "    unsafe fn __raw(raw: *mut Self) -> *mut ::std::ffi::c_void {\n"@
}

/// Line 1 of [`unique_ptr_raw_get_text`].
pub open spec fn unique_ptr_raw_get_line1(inner: Seq<char>, name: Seq<char>, prefix: Seq<char>) -> Seq<char> {
    "        extern \"C\" {\n"@
}

/// Line 2 of [`unique_ptr_raw_get_text`].
pub open spec fn unique_ptr_raw_get_line2(inner: Seq<char>, name: Seq<char>, prefix: Seq<char>) -> Seq<char> {
    "            #[link_name = \""@ + prefix + "raw"@ + "\"]\n"@
}

/// Line 3 of [`unique_ptr_raw_get_text`].
pub open spec fn unique_ptr_raw_get_line3(inner: Seq<char>, name: Seq<char>, prefix: Seq<char>) -> Seq<char> {
    "            fn __raw(this: *mut *mut ::std::ffi::c_void, raw: *mut "@ + inner + ");\n"@
}

/// Line 4 of [`unique_ptr_raw_get_text`].
pub open spec fn unique_ptr_raw_get_line4(inner: Seq<char>, name: Seq<char>, prefix: Seq<char>) -> Seq<char> {
    "        }\n"@
}

/// Line 5 of [`unique_ptr_raw_get_text`].
pub open spec fn unique_ptr_raw_get_line5(inner: Seq<char>, name: Seq<char>, prefix: Seq<char>) -> Seq<char> {
    "        let mut repr = ::std::ptr::null_mut::<::std::ffi::c_void>();\n"@
}

/// Line 6 of [`unique_ptr_raw_get_text`].
pub open spec fn unique_ptr_raw_get_line6(inner: Seq<char>, name: Seq<char>, prefix: Seq<char>) -> Seq<char> {
    "        __raw(&mut repr, raw);\n"@
}

/// Line 7 of [`unique_ptr_raw_get_text`].
pub open spec fn unique_ptr_raw_get_line7(inner: Seq<char>, name: Seq<char>, prefix: Seq<char>) -> Seq<char> {
    "        repr\n"@
}

/// Line 8 of [`unique_ptr_raw_get_text`].
pub open spec fn unique_ptr_raw_get_line8(inner: Seq<char>, name: Seq<char>, prefix: Seq<char>) -> Seq<char> {
    "    }\n"@
}

/// Line 9 of [`unique_ptr_raw_get_text`].
pub open spec fn unique_ptr_raw_get_line9(inner: Seq<char>, name: Seq<char>, prefix: Seq<char>) -> Seq<char> {
    "    unsafe fn __get(repr: *mut ::std::ffi::c_void) -> *const Self {\n"@
}

/// Line 10 of [`unique_ptr_raw_get_text`].
pub open spec fn unique_ptr_raw_get_line10(inner: Seq<char>, name: Seq<char>, prefix: Seq<char>) -> Seq<char> {
    "        extern \"C\" {\n"@
}

/// Line 11 of [`unique_ptr_raw_get_text`].
pub open spec fn unique_ptr_raw_get_line11(inner: Seq<char>, name: Seq<char>, prefix: Seq<char>) -> Seq<char> {
    "            #[link_name = \""@ + prefix + "get"@ + "\"]\n"@
}

/// Line 12 of [`unique_ptr_raw_get_text`].
pub open spec fn unique_ptr_raw_get_line12(inner: Seq<char>, name: Seq<char>, prefix: Seq<char>) -> Seq<char> {
    "            fn __get(this: *const *mut ::std::ffi::c_void) -> *const "@ + inner + ";\n"@
}

/// Line 13 of [`unique_ptr_raw_get_text`].
pub open spec fn unique_ptr_raw_get_line13(inner: Seq<char>, name: Seq<char>, prefix: Seq<char>) -> Seq<char> {
    "        }\n"@
}

/// Line 14 of [`unique_ptr_raw_get_text`].
pub open spec fn unique_ptr_raw_get_line14(inner: Seq<char>, name: Seq<char>, prefix: Seq<char>) -> Seq<char> {
    "        __get(&repr)\n"@
}

/// Line 15 of [`unique_ptr_raw_get_text`].
pub open spec fn unique_ptr_raw_get_line15(inner: Seq<char>, name: Seq<char>, prefix: Seq<char>) -> Seq<char> {
    "    }\n"@
}

/// Part 0 of [`unique_ptr_raw_get_text`].
pub open spec fn unique_ptr_raw_get_part0(inner: Seq<char>, name: Seq<char>, prefix: Seq<char>) -> Seq<char> {
    unique_ptr_raw_get_line0(inner, name, prefix) + unique_ptr_raw_get_line1(inner, name, prefix) + unique_ptr_raw_get_line2(inner, name, prefix) + unique_ptr_raw_get_line3(inner, name, prefix) + unique_ptr_raw_get_line4(inner, name, prefix) + unique_ptr_raw_get_line5(inner, name, prefix) + unique_ptr_raw_get_line6(inner, name, prefix) + unique_ptr_raw_get_line7(inner, name, prefix)
}

fn unique_ptr_raw_get_part0_string(inner: &str, name: &str, prefix: &str) -> (r: String)
    ensures
        r@ == unique_ptr_raw_get_part0(inner@, name@, prefix@),
{
    let mut buf = String::new();
    let ghost b0 = buf@;
    buf.append("    unsafe fn __raw(raw: *mut Self) -> *mut ::std::ffi::c_void {\n");
    assert(buf@ =~= unique_ptr_raw_get_line0(inner@, name@, prefix@));
    let ghost b1 = buf@;
    buf.append("        extern \"C\" {\n");
    assert(buf@ =~= b1 + unique_ptr_raw_get_line1(inner@, name@, prefix@));
    let ghost b2 = buf@;
    buf.append("            #[link_name = \"");
    buf.append(prefix);
    buf.append("raw");
    buf.append("\"]\n");
    assert(buf@ =~= b2 + unique_ptr_raw_get_line2(inner@, name@, prefix@));
    let ghost b3 = buf@;
    buf.append("            fn __raw(this: *mut *mut ::std::ffi::c_void, raw: *mut ");
    buf.append(inner);
    buf.append(");\n");
    assert(buf@ =~= b3 + unique_ptr_raw_get_line3(inner@, name@, prefix@));
    let ghost b4 = buf@;
    buf.append("        }\n");
    assert(buf@ =~= b4 + unique_ptr_raw_get_line4(inner@, name@, prefix@));
    let ghost b5 = buf@;
    buf.append("        let mut repr = ::std::ptr::null_mut::<::std::ffi::c_void>();\n");
    assert(buf@ =~= b5 + unique_ptr_raw_get_line5(inner@, name@, prefix@));
    let ghost b6 = buf@;
    buf.append("        __raw(&mut repr, raw);\n");
    assert(buf@ =~= b6 + unique_ptr_raw_get_line6(inner@, name@, prefix@));
    let ghost b7 = buf@;
    buf.append("        repr\n");
    assert(buf@ =~= b7 + unique_ptr_raw_get_line7(inner@, name@, prefix@));
    buf
}

/// Part 1 of [`unique_ptr_raw_get_text`].
pub open spec fn unique_ptr_raw_get_part1(inner: Seq<char>, name: Seq<char>, prefix: Seq<char>) -> Seq<char> {
    unique_ptr_raw_get_line8(inner, name, prefix) + unique_ptr_raw_get_line9(inner, name, prefix) + unique_ptr_raw_get_line10(inner, name, prefix) + unique_ptr_raw_get_line11(inner, name, prefix) + unique_ptr_raw_get_line12(inner, name, prefix) + unique_ptr_raw_get_line13(inner, name, prefix) + unique_ptr_raw_get_line14(inner, name, prefix) + unique_ptr_raw_get_line15(inner, name, prefix)
}

fn unique_ptr_raw_get_part1_string(inner: &str, name: &str, prefix: &str) -> (r: String)
    ensures
        r@ == unique_ptr_raw_get_part1(inner@, name@, prefix@),
{
    let mut buf = String::new();
    let ghost b0 = buf@;
    buf.append("    }\n");
    assert(buf@ =~= unique_ptr_raw_get_line8(inner@, name@, prefix@));
    let ghost b1 = buf@;
    buf.append("    unsafe fn __get(repr: *mut ::std::ffi::c_void) -> *const Self {\n");
    assert(buf@ =~= b1 + unique_ptr_raw_get_line9(inner@, name@, prefix@));
    let ghost b2 = buf@;
    buf.append("        extern \"C\" {\n");
    assert(buf@ =~= b2 + unique_ptr_raw_get_line10(inner@, name@, prefix@));
    let ghost b3 = buf@;
    buf.append("            #[link_name = \"");
    buf.append(prefix);
    buf.append("get");
    buf.append("\"]\n");
    assert(buf@ =~= b3 + unique_ptr_raw_get_line11(inner@, name@, prefix@));
    let ghost b4 = buf@;
    buf.append("            fn __get(this: *const *mut ::std::ffi::c_void) -> *const ");
    buf.append(inner);
    buf.append(";\n");
    assert(buf@ =~= b4 + unique_ptr_raw_get_line12(inner@, name@, prefix@));
    let ghost b5 = buf@;
    buf.append("        }\n");
    assert(buf@ =~= b5 + unique_ptr_raw_get_line13(inner@, name@, prefix@));
    let ghost b6 = buf@;
    buf.append("        __get(&repr)\n");
    assert(buf@ =~= b6 + unique_ptr_raw_get_line14(inner@, name@, prefix@));
    let ghost b7 = buf@;
    buf.append("    }\n");
    assert(buf@ =~= b7 + unique_ptr_raw_get_line15(inner@, name@, prefix@));
    buf
}

/// Adoption of a raw pointer, and access to the pointee.
pub open spec fn unique_ptr_raw_get_text(inner: Seq<char>, name: Seq<char>, prefix: Seq<char>) -> Seq<char> {
    unique_ptr_raw_get_part0(inner, name, prefix) + unique_ptr_raw_get_part1(inner, name, prefix)
}

fn unique_ptr_raw_get_text_string(inner: &str, name: &str, prefix: &str) -> (r: String)
    ensures
        r@ == unique_ptr_raw_get_text(inner@, name@, prefix@),
{
    let mut buf = unique_ptr_raw_get_part0_string(inner, name, prefix);
    let ghost b = buf@;
    let part = unique_ptr_raw_get_part1_string(inner, name, prefix);
    buf.append(part.as_str());
    assert(buf@ == b + unique_ptr_raw_get_part1(inner@, name@, prefix@));
    buf
}

/// Line 0 of [`unique_ptr_tail_text`].
pub open spec fn unique_ptr_tail_line0(inner: Seq<char>, name: Seq<char>, prefix: Seq<char>) -> Seq<char> {
    "    unsafe fn __release(mut repr: *mut ::std::ffi::c_void) -> *mut Self {\n"@
}

/// Line 1 of [`unique_ptr_tail_text`].
pub open spec fn unique_ptr_tail_line1(inner: Seq<char>, name: Seq<char>, prefix: Seq<char>) -> Seq<char> {
    "        extern \"C\" {\n"@
}

/// Line 2 of [`unique_ptr_tail_text`].
pub open spec fn unique_ptr_tail_line2(inner: Seq<char>, name: Seq<char>, prefix: Seq<char>) -> Seq<char> {
    "            #[link_name = \""@ + prefix + "release"@ + "\"]\n"@
}

/// Line 3 of [`unique_ptr_tail_text`].
pub open spec fn unique_ptr_tail_line3(inner: Seq<char>, name: Seq<char>, prefix: Seq<char>) -> Seq<char> {
    "            fn __release(this: *mut *mut ::std::ffi::c_void) -> *mut "@ + inner + ";\n"@
}

/// Line 4 of [`unique_ptr_tail_text`].
pub open spec fn unique_ptr_tail_line4(inner: Seq<char>, name: Seq<char>, prefix: Seq<char>) -> Seq<char> {
    "        }\n"@
}

/// Line 5 of [`unique_ptr_tail_text`].
pub open spec fn unique_ptr_tail_line5(inner: Seq<char>, name: Seq<char>, prefix: Seq<char>) -> Seq<char> {
    "        __release(&mut repr)\n"@
}

/// Line 6 of [`unique_ptr_tail_text`].
pub open spec fn unique_ptr_tail_line6(inner: Seq<char>, name: Seq<char>, prefix: Seq<char>) -> Seq<char> {
    "    }\n"@
}

/// Line 7 of [`unique_ptr_tail_text`].
pub open spec fn unique_ptr_tail_line7(inner: Seq<char>, name: Seq<char>, prefix: Seq<char>) -> Seq<char> {
    "    unsafe fn __drop(mut repr: *mut ::std::ffi::c_void) {\n"@
}

/// Line 8 of [`unique_ptr_tail_text`].
pub open spec fn unique_ptr_tail_line8(inner: Seq<char>, name: Seq<char>, prefix: Seq<char>) -> Seq<char> {
    "        extern \"C\" {\n"@
}

/// Line 9 of [`unique_ptr_tail_text`].
pub open spec fn unique_ptr_tail_line9(inner: Seq<char>, name: Seq<char>, prefix: Seq<char>) -> Seq<char> {
    "            #[link_name = \""@ + prefix + "drop"@ + "\"]\n"@
}

/// Line 10 of [`unique_ptr_tail_text`].
pub open spec fn unique_ptr_tail_line10(inner: Seq<char>, name: Seq<char>, prefix: Seq<char>) -> Seq<char> {
    "            fn __drop(this: *mut *mut ::std::ffi::c_void);\n"@
}

/// Line 11 of [`unique_ptr_tail_text`].
pub open spec fn unique_ptr_tail_line11(inner: Seq<char>, name: Seq<char>, prefix: Seq<char>) -> Seq<char> {
    "        }\n"@
}

/// Line 12 of [`unique_ptr_tail_text`].
pub open spec fn unique_ptr_tail_line12(inner: Seq<char>, name: Seq<char>, prefix: Seq<char>) -> Seq<char> {
    "        __drop(&mut repr);\n"@
}

/// Line 13 of [`unique_ptr_tail_text`].
pub open spec fn unique_ptr_tail_line13(inner: Seq<char>, name: Seq<char>, prefix: Seq<char>) -> Seq<char> {
    "    }\n"@
}

/// Line 14 of [`unique_ptr_tail_text`].
pub open spec fn unique_ptr_tail_line14(inner: Seq<char>, name: Seq<char>, prefix: Seq<char>) -> Seq<char> {
    "}\n"@
}

/// Part 0 of [`unique_ptr_tail_text`].
pub open spec fn unique_ptr_tail_part0(inner: Seq<char>, name: Seq<char>, prefix: Seq<char>) -> Seq<char> {
    unique_ptr_tail_line0(inner, name, prefix) + unique_ptr_tail_line1(inner, name, prefix) + unique_ptr_tail_line2(inner, name, prefix) + unique_ptr_tail_line3(inner, name, prefix) + unique_ptr_tail_line4(inner, name, prefix) + unique_ptr_tail_line5(inner, name, prefix) + unique_ptr_tail_line6(inner, name, prefix) + unique_ptr_tail_line7(inner, name, prefix)
}

fn unique_ptr_tail_part0_string(inner: &str, name: &str, prefix: &str) -> (r: String)
    ensures
        r@ == unique_ptr_tail_part0(inner@, name@, prefix@),
{
    let mut buf = String::new();
    let ghost b0 = buf@;
    buf.append("    unsafe fn __release(mut repr: *mut ::std::ffi::c_void) -> *mut Self {\n");
    assert(buf@ =~= unique_ptr_tail_line0(inner@, name@, prefix@));
    let ghost b1 = buf@;
    buf.append("        extern \"C\" {\n");
    assert(buf@ =~= b1 + unique_ptr_tail_line1(inner@, name@, prefix@));
    let ghost b2 = buf@;
    buf.append("            #[link_name = \"");
    buf.append(prefix);
    buf.append("release");
    buf.append("\"]\n");
    assert(buf@ =~= b2 + unique_ptr_tail_line2(inner@, name@, prefix@));
    let ghost b3 = buf@;
    buf.append("            fn __release(this: *mut *mut ::std::ffi::c_void) -> *mut ");
    buf.append(inner);
    buf.append(";\n");
    assert(buf@ =~= b3 + unique_ptr_tail_line3(inner@, name@, prefix@));
    let ghost b4 = buf@;
    buf.append("        }\n");
    assert(buf@ =~= b4 + unique_ptr_tail_line4(inner@, name@, prefix@));
    let ghost b5 = buf@;
    buf.append("        __release(&mut repr)\n");
    assert(buf@ =~= b5 + unique_ptr_tail_line5(inner@, name@, prefix@));
    let ghost b6 = buf@;
    buf.append("    }\n");
    assert(buf@ =~= b6 + unique_ptr_tail_line6(inner@, name@, prefix@));
    let ghost b7 = buf@;
    buf.append("    unsafe fn __drop(mut repr: *mut ::std::ffi::c_void) {\n");
    assert(buf@ =~= b7 + unique_ptr_tail_line7(inner@, name@, prefix@));
    buf
}

/// Part 1 of [`unique_ptr_tail_text`].
pub open spec fn unique_ptr_tail_part1(inner: Seq<char>, name: Seq<char>, prefix: Seq<char>) -> Seq<char> {
    unique_ptr_tail_line8(inner, name, prefix) + unique_ptr_tail_line9(inner, name, prefix) + unique_ptr_tail_line10(inner, name, prefix) + unique_ptr_tail_line11(inner, name, prefix) + unique_ptr_tail_line12(inner, name, prefix) + unique_ptr_tail_line13(inner, name, prefix) + unique_ptr_tail_line14(inner, name, prefix)
}

fn unique_ptr_tail_part1_string(inner: &str, name: &str, prefix: &str) -> (r: String)
    ensures
        r@ == unique_ptr_tail_part1(inner@, name@, prefix@),
{
    let mut buf = String::new();
    let ghost b0 = buf@;
    buf.append("        extern \"C\" {\n");
    assert(buf@ =~= unique_ptr_tail_line8(inner@, name@, prefix@));
    let ghost b1 = buf@;
    buf.append("            #[link_name = \"");
    buf.append(prefix);
    buf.append("drop");
    buf.append("\"]\n");
    assert(buf@ =~= b1 + unique_ptr_tail_line9(inner@, name@, prefix@));
    let ghost b2 = buf@;
    buf.append("            fn __drop(this: *mut *mut ::std::ffi::c_void);\n");
    assert(buf@ =~= b2 + unique_ptr_tail_line10(inner@, name@, prefix@));
    let ghost b3 = buf@;
    buf.append("        }\n");
    assert(buf@ =~= b3 + unique_ptr_tail_line11(inner@, name@, prefix@));
    let ghost b4 = buf@;
    buf.append("        __drop(&mut repr);\n");
    assert(buf@ =~= b4 + unique_ptr_tail_line12(inner@, name@, prefix@));
    let ghost b5 = buf@;
    buf.append("    }\n");
    assert(buf@ =~= b5 + unique_ptr_tail_line13(inner@, name@, prefix@));
    let ghost b6 = buf@;
    buf.append("}\n");
    assert(buf@ =~= b6 + unique_ptr_tail_line14(inner@, name@, prefix@));
    buf
}

/// Release of ownership and destruction, which end the binding.
pub open spec fn unique_ptr_tail_text(inner: Seq<char>, name: Seq<char>, prefix: Seq<char>) -> Seq<char> {
    unique_ptr_tail_part0(inner, name, prefix) + unique_ptr_tail_part1(inner, name, prefix)
}

fn unique_ptr_tail_text_string(inner: &str, name: &str, prefix: &str) -> (r: String)
    ensures
        r@ == unique_ptr_tail_text(inner@, name@, prefix@),
{
    let mut buf = unique_ptr_tail_part0_string(inner, name, prefix);
    let ghost b = buf@;
    let part = unique_ptr_tail_part1_string(inner, name, prefix);
    buf.append(part.as_str());
    assert(buf@ == b + unique_ptr_tail_part1(inner@, name@, prefix@));
    buf
}

/// Line 0 of [`vector_expansion_text`].
pub open spec fn vector_expansion_line0(inner: Seq<char>, name: Seq<char>, prefix: Seq<char>) -> Seq<char> {
    "impl "@ + "::cxx::private::VectorTarget"@ + "<"@ + inner + "> for "@ + inner + " {\n"@
}

/// Line 1 of [`vector_expansion_text`].
pub open spec fn vector_expansion_line1(inner: Seq<char>, name: Seq<char>, prefix: Seq<char>) -> Seq<char> {
    "    fn get_unchecked(v: &"@ + "::cxx::RealVector"@ + "<"@ + inner + ">, pos: usize) -> &"@ + inner + " {\n"@
}

/// Line 2 of [`vector_expansion_text`].
pub open spec fn vector_expansion_line2(inner: Seq<char>, name: Seq<char>, prefix: Seq<char>) -> Seq<char> {
    "        extern \"C\" {\n"@
}

/// Line 3 of [`vector_expansion_text`].
pub open spec fn vector_expansion_line3(inner: Seq<char>, name: Seq<char>, prefix: Seq<char>) -> Seq<char> {
    "            #[link_name = \""@ + prefix + "get_unchecked"@ + "\"]\n"@
}

/// Line 4 of [`vector_expansion_text`].
pub open spec fn vector_expansion_line4(inner: Seq<char>, name: Seq<char>, prefix: Seq<char>) -> Seq<char> {
    "            fn __get_unchecked(_: &"@ + "::cxx::RealVector"@ + "<"@ + inner + ">, _: usize) -> &"@ + inner + ";\n"@
}

/// Line 5 of [`vector_expansion_text`].
pub open spec fn vector_expansion_line5(inner: Seq<char>, name: Seq<char>, prefix: Seq<char>) -> Seq<char> {
    "        }\n"@
}

/// Line 6 of [`vector_expansion_text`].
pub open spec fn vector_expansion_line6(inner: Seq<char>, name: Seq<char>, prefix: Seq<char>) -> Seq<char> {
    "        unsafe {\n"@
}

/// Line 7 of [`vector_expansion_text`].
pub open spec fn vector_expansion_line7(inner: Seq<char>, name: Seq<char>, prefix: Seq<char>) -> Seq<char> {
    "            __get_unchecked(v, pos)\n"@
}

/// Line 8 of [`vector_expansion_text`].
pub open spec fn vector_expansion_line8(inner: Seq<char>, name: Seq<char>, prefix: Seq<char>) -> Seq<char> {
    "        }\n"@
}

/// Line 9 of [`vector_expansion_text`].
pub open spec fn vector_expansion_line9(inner: Seq<char>, name: Seq<char>, prefix: Seq<char>) -> Seq<char> {
    "    }\n"@
}

/// Line 10 of [`vector_expansion_text`].
pub open spec fn vector_expansion_line10(inner: Seq<char>, name: Seq<char>, prefix: Seq<char>) -> Seq<char> {
    "    fn vector_length(v: &"@ + "::cxx::RealVector"@ + "<"@ + inner + ">) -> usize {\n"@
}

/// Line 11 of [`vector_expansion_text`].
pub open spec fn vector_expansion_line11(inner: Seq<char>, name: Seq<char>, prefix: Seq<char>) -> Seq<char> {
    "        unsafe {\n"@
}

/// Line 12 of [`vector_expansion_text`].
pub open spec fn vector_expansion_line12(inner: Seq<char>, name: Seq<char>, prefix: Seq<char>) -> Seq<char> {
    "            extern \"C\" {\n"@
}

/// Line 13 of [`vector_expansion_text`].
pub open spec fn vector_expansion_line13(inner: Seq<char>, name: Seq<char>, prefix: Seq<char>) -> Seq<char> {
    "                #[link_name = \""@ + prefix + "length"@ + "\"]\n"@
}

/// Line 14 of [`vector_expansion_text`].
pub open spec fn vector_expansion_line14(inner: Seq<char>, name: Seq<char>, prefix: Seq<char>) -> Seq<char> {
    "                fn __vector_length(_: &"@ + "::cxx::RealVector"@ + "<"@ + inner + ">) -> usize;\n"@
}

/// Line 15 of [`vector_expansion_text`].
pub open spec fn vector_expansion_line15(inner: Seq<char>, name: Seq<char>, prefix: Seq<char>) -> Seq<char> {
    "            }\n"@
}

/// Line 16 of [`vector_expansion_text`].
pub open spec fn vector_expansion_line16(inner: Seq<char>, name: Seq<char>, prefix: Seq<char>) -> Seq<char> {
    "            __vector_length(v)\n"@
}

/// Line 17 of [`vector_expansion_text`].
pub open spec fn vector_expansion_line17(inner: Seq<char>, name: Seq<char>, prefix: Seq<char>) -> Seq<char> {
    "        }\n"@
}

/// Line 18 of [`vector_expansion_text`].
pub open spec fn vector_expansion_line18(inner: Seq<char>, name: Seq<char>, prefix: Seq<char>) -> Seq<char> {
    "    }\n"@
}

/// Line 19 of [`vector_expansion_text`].
pub open spec fn vector_expansion_line19(inner: Seq<char>, name: Seq<char>, prefix: Seq<char>) -> Seq<char> {
    "    fn push_back(v: &"@ + "::cxx::RealVector"@ + "<"@ + inner + ">, item: &"@ + inner + ") {\n"@
}

/// Line 20 of [`vector_expansion_text`].
pub open spec fn vector_expansion_line20(inner: Seq<char>, name: Seq<char>, prefix: Seq<char>) -> Seq<char> {
    "        unsafe {\n"@
}

/// Line 21 of [`vector_expansion_text`].
pub open spec fn vector_expansion_line21(inner: Seq<char>, name: Seq<char>, prefix: Seq<char>) -> Seq<char> {
    "            extern \"C\" {\n"@
}

/// Line 22 of [`vector_expansion_text`].
pub open spec fn vector_expansion_line22(inner: Seq<char>, name: Seq<char>, prefix: Seq<char>) -> Seq<char> {
    "                #[link_name = \""@ + prefix + "push_back"@ + "\"]\n"@
}

/// Line 23 of [`vector_expansion_text`].
pub open spec fn vector_expansion_line23(inner: Seq<char>, name: Seq<char>, prefix: Seq<char>) -> Seq<char> {
    "                fn __push_back(_: &"@ + "::cxx::RealVector"@ + "<"@ + inner + ">, _: &"@ + inner + ") -> usize;\n"@
}

/// Line 24 of [`vector_expansion_text`].
pub open spec fn vector_expansion_line24(inner: Seq<char>, name: Seq<char>, prefix: Seq<char>) -> Seq<char> {
    "            }\n"@
}

/// Line 25 of [`vector_expansion_text`].
pub open spec fn vector_expansion_line25(inner: Seq<char>, name: Seq<char>, prefix: Seq<char>) -> Seq<char> {
    "            __push_back(v, item);\n"@
}

/// Line 26 of [`vector_expansion_text`].
pub open spec fn vector_expansion_line26(inner: Seq<char>, name: Seq<char>, prefix: Seq<char>) -> Seq<char> {
    "        }\n"@
}

/// Line 27 of [`vector_expansion_text`].
pub open spec fn vector_expansion_line27(inner: Seq<char>, name: Seq<char>, prefix: Seq<char>) -> Seq<char> {
    "    }\n"@
}

/// Line 28 of [`vector_expansion_text`].
pub open spec fn vector_expansion_line28(inner: Seq<char>, name: Seq<char>, prefix: Seq<char>) -> Seq<char> {
    "}\n"@
}

/// Part 0 of [`vector_expansion_text`].
pub open spec fn vector_expansion_part0(inner: Seq<char>, name: Seq<char>, prefix: Seq<char>) -> Seq<char> {
    vector_expansion_line0(inner, name, prefix) + vector_expansion_line1(inner, name, prefix) + vector_expansion_line2(inner, name, prefix) + vector_expansion_line3(inner, name, prefix) + vector_expansion_line4(inner, name, prefix) + vector_expansion_line5(inner, name, prefix) + vector_expansion_line6(inner, name, prefix) + vector_expansion_line7(inner, name, prefix)
}

fn vector_expansion_part0_string(inner: &str, name: &str, prefix: &str) -> (r: String)
    ensures
        r@ == vector_expansion_part0(inner@, name@, prefix@),
{
    let mut buf = String::new();
    let ghost b0 = buf@;
    buf.append("impl ");
    buf.append("::cxx::private::VectorTarget");
    buf.append("<");
    buf.append(inner);
    buf.append("> for ");
    buf.append(inner);
    buf.append(" {\n");
    assert(buf@ =~= vector_expansion_line0(inner@, name@, prefix@));
    let ghost b1 = buf@;
    buf.append("    fn get_unchecked(v: &");
    buf.append("::cxx::RealVector");
    buf.append("<");
    buf.append(inner);
    buf.append(">, pos: usize) -> &");
    buf.append(inner);
    buf.append(" {\n");
    assert(buf@ =~= b1 + vector_expansion_line1(inner@, name@, prefix@));
    let ghost b2 = buf@;
    buf.append("        extern \"C\" {\n");
    assert(buf@ =~= b2 + vector_expansion_line2(inner@, name@, prefix@));
    let ghost b3 = buf@;
    buf.append("            #[link_name = \"");
    buf.append(prefix);
    buf.append("get_unchecked");
    buf.append("\"]\n");
    assert(buf@ =~= b3 + vector_expansion_line3(inner@, name@, prefix@));
    let ghost b4 = buf@;
    buf.append("            fn __get_unchecked(_: &");
    buf.append("::cxx::RealVector");
    buf.append("<");
    buf.append(inner);
    buf.append(">, _: usize) -> &");
    buf.append(inner);
    buf.append(";\n");
    assert(buf@ =~= b4 + vector_expansion_line4(inner@, name@, prefix@));
    let ghost b5 = buf@;
    buf.append("        }\n");
    assert(buf@ =~= b5 + vector_expansion_line5(inner@, name@, prefix@));
    let ghost b6 = buf@;
    buf.append("        unsafe {\n");
    assert(buf@ =~= b6 + vector_expansion_line6(inner@, name@, prefix@));
    let ghost b7 = buf@;
    buf.append("            __get_unchecked(v, pos)\n");
    assert(buf@ =~= b7 + vector_expansion_line7(inner@, name@, prefix@));
    buf
}

/// Part 1 of [`vector_expansion_text`].
pub open spec fn vector_expansion_part1(inner: Seq<char>, name: Seq<char>, prefix: Seq<char>) -> Seq<char> {
    vector_expansion_line8(inner, name, prefix) + vector_expansion_line9(inner, name, prefix) + vector_expansion_line10(inner, name, prefix) + vector_expansion_line11(inner, name, prefix) + vector_expansion_line12(inner, name, prefix) + vector_expansion_line13(inner, name, prefix) + vector_expansion_line14(inner, name, prefix) + vector_expansion_line15(inner, name, prefix)
}

fn vector_expansion_part1_string(inner: &str, name: &str, prefix: &str) -> (r: String)
    ensures
        r@ == vector_expansion_part1(inner@, name@, prefix@),
{
    let mut buf = String::new();
    let ghost b0 = buf@;
    buf.append("        }\n");
    assert(buf@ =~= vector_expansion_line8(inner@, name@, prefix@));
    let ghost b1 = buf@;
    buf.append("    }\n");
    assert(buf@ =~= b1 + vector_expansion_line9(inner@, name@, prefix@));
    let ghost b2 = buf@;
    buf.append("    fn vector_length(v: &");
    buf.append("::cxx::RealVector");
    buf.append("<");
    buf.append(inner);
    buf.append(">) -> usize {\n");
    assert(buf@ =~= b2 + vector_expansion_line10(inner@, name@, prefix@));
    let ghost b3 = buf@;
    buf.append("        unsafe {\n");
    assert(buf@ =~= b3 + vector_expansion_line11(inner@, name@, prefix@));
    let ghost b4 = buf@;
    buf.append("            extern \"C\" {\n");
    assert(buf@ =~= b4 + vector_expansion_line12(inner@, name@, prefix@));
    let ghost b5 = buf@;
    buf.append("                #[link_name = \"");
    buf.append(prefix);
    buf.append("length");
    buf.append("\"]\n");
    assert(buf@ =~= b5 + vector_expansion_line13(inner@, name@, prefix@));
    let ghost b6 = buf@;
    buf.append("                fn __vector_length(_: &");
    buf.append("::cxx::RealVector");
    buf.append("<");
    buf.append(inner);
    buf.append(">) -> usize;\n");
    assert(buf@ =~= b6 + vector_expansion_line14(inner@, name@, prefix@));
    let ghost b7 = buf@;
    buf.append("            }\n");
    assert(buf@ =~= b7 + vector_expansion_line15(inner@, name@, prefix@));
    buf
}

/// Part 2 of [`vector_expansion_text`].
pub open spec fn vector_expansion_part2(inner: Seq<char>, name: Seq<char>, prefix: Seq<char>) -> Seq<char> {
    vector_expansion_line16(inner, name, prefix) + vector_expansion_line17(inner, name, prefix) + vector_expansion_line18(inner, name, prefix) + vector_expansion_line19(inner, name, prefix) + vector_expansion_line20(inner, name, prefix) + vector_expansion_line21(inner, name, prefix) + vector_expansion_line22(inner, name, prefix) + vector_expansion_line23(inner, name, prefix)
}

fn vector_expansion_part2_string(inner: &str, name: &str, prefix: &str) -> (r: String)
    ensures
        r@ == vector_expansion_part2(inner@, name@, prefix@),
{
    let mut buf = String::new();
    let ghost b0 = buf@;
    buf.append("            __vector_length(v)\n");
    assert(buf@ =~= vector_expansion_line16(inner@, name@, prefix@));
    let ghost b1 = buf@;
    buf.append("        }\n");
    assert(buf@ =~= b1 + vector_expansion_line17(inner@, name@, prefix@));
    let ghost b2 = buf@;
    buf.append("    }\n");
    assert(buf@ =~= b2 + vector_expansion_line18(inner@, name@, prefix@));
    let ghost b3 = buf@;
    buf.append("    fn push_back(v: &");
    buf.append("::cxx::RealVector");
    buf.append("<");
    buf.append(inner);
    buf.append(">, item: &");
    buf.append(inner);
    buf.append(") {\n");
    assert(buf@ =~= b3 + vector_expansion_line19(inner@, name@, prefix@));
    let ghost b4 = buf@;
    buf.append("        unsafe {\n");
    assert(buf@ =~= b4 + vector_expansion_line20(inner@, name@, prefix@));
    let ghost b5 = buf@;
    buf.append("            extern \"C\" {\n");
    assert(buf@ =~= b5 + vector_expansion_line21(inner@, name@, prefix@));
    let ghost b6 = buf@;
    buf.append("                #[link_name = \"");
    buf.append(prefix);
    buf.append("push_back");
    buf.append("\"]\n");
    assert(buf@ =~= b6 + vector_expansion_line22(inner@, name@, prefix@));
    let ghost b7 = buf@;
    buf.append("                fn __push_back(_: &");
    buf.append("::cxx::RealVector");
    buf.append("<");
    buf.append(inner);
    buf.append(">, _: &");
    buf.append(inner);
    buf.append(") -> usize;\n");
    assert(buf@ =~= b7 + vector_expansion_line23(inner@, name@, prefix@));
    buf
}

/// Part 3 of [`vector_expansion_text`].
pub open spec fn vector_expansion_part3(inner: Seq<char>, name: Seq<char>, prefix: Seq<char>) -> Seq<char> {
    vector_expansion_line24(inner, name, prefix) + vector_expansion_line25(inner, name, prefix) + vector_expansion_line26(inner, name, prefix) + vector_expansion_line27(inner, name, prefix) + vector_expansion_line28(inner, name, prefix)
}

fn vector_expansion_part3_string(inner: &str, name: &str, prefix: &str) -> (r: String)
    ensures
        r@ == vector_expansion_part3(inner@, name@, prefix@),
{
    let mut buf = String::new();
    let ghost b0 = buf@;
    buf.append("            }\n");
    assert(buf@ =~= vector_expansion_line24(inner@, name@, prefix@));
    let ghost b1 = buf@;
    buf.append("            __push_back(v, item);\n");
    assert(buf@ =~= b1 + vector_expansion_line25(inner@, name@, prefix@));
    let ghost b2 = buf@;
    buf.append("        }\n");
    assert(buf@ =~= b2 + vector_expansion_line26(inner@, name@, prefix@));
    let ghost b3 = buf@;
    buf.append("    }\n");
    assert(buf@ =~= b3 + vector_expansion_line27(inner@, name@, prefix@));
    let ghost b4 = buf@;
    buf.append("}\n");
    assert(buf@ =~= b4 + vector_expansion_line28(inner@, name@, prefix@));
    buf
}

/// The managed side's binding of a native sequence of `inner`: indexed
/// access, length and append.
pub open spec fn vector_expansion_text(inner: Seq<char>, name: Seq<char>, prefix: Seq<char>) -> Seq<char> {
    vector_expansion_part0(inner, name, prefix) + vector_expansion_part1(inner, name, prefix) + vector_expansion_part2(inner, name, prefix) + vector_expansion_part3(inner, name, prefix)
}

fn vector_expansion_text_string(inner: &str, name: &str, prefix: &str) -> (r: String)
    ensures
        r@ == vector_expansion_text(inner@, name@, prefix@),
{
    let mut buf = vector_expansion_part0_string(inner, name, prefix);
    let ghost b = buf@;
    let part = vector_expansion_part1_string(inner, name, prefix);
    buf.append(part.as_str());
    assert(buf@ == b + vector_expansion_part1(inner@, name@, prefix@));
    let ghost b = buf@;
    let part = vector_expansion_part2_string(inner, name, prefix);
    buf.append(part.as_str());
    assert(buf@ == b + vector_expansion_part2(inner@, name@, prefix@));
    let ghost b = buf@;
    let part = vector_expansion_part3_string(inner, name, prefix);
    buf.append(part.as_str());
    assert(buf@ == b + vector_expansion_part3(inner@, name@, prefix@));
    buf
}

/// Line 0 of [`vector_builtin_expansion_text`].
pub open spec fn vector_builtin_expansion_line0(inner: Seq<char>, name: Seq<char>, prefix: Seq<char>) -> Seq<char> {
    "impl "@ + "VectorTarget"@ + "<"@ + inner + "> for "@ + inner + " {\n"@
}

/// Line 1 of [`vector_builtin_expansion_text`].
pub open spec fn vector_builtin_expansion_line1(inner: Seq<char>, name: Seq<char>, prefix: Seq<char>) -> Seq<char> {
    "    fn get_unchecked(v: &"@ + "RealVector"@ + "<"@ + inner + ">, pos: usize) -> &"@ + inner + " {\n"@
}

/// Line 2 of [`vector_builtin_expansion_text`].
pub open spec fn vector_builtin_expansion_line2(inner: Seq<char>, name: Seq<char>, prefix: Seq<char>) -> Seq<char> {
    "        extern \"C\" {\n"@
}

/// Line 3 of [`vector_builtin_expansion_text`].
pub open spec fn vector_builtin_expansion_line3(inner: Seq<char>, name: Seq<char>, prefix: Seq<char>) -> Seq<char> {
    "            #[link_name = \""@ + prefix + "get_unchecked"@ + "\"]\n"@
}

/// Line 4 of [`vector_builtin_expansion_text`].
pub open spec fn vector_builtin_expansion_line4(inner: Seq<char>, name: Seq<char>, prefix: Seq<char>) -> Seq<char> {
    "            fn __get_unchecked(_: &"@ + "RealVector"@ + "<"@ + inner + ">, _: usize) -> &"@ + inner + ";\n"@
}

/// Line 5 of [`vector_builtin_expansion_text`].
pub open spec fn vector_builtin_expansion_line5(inner: Seq<char>, name: Seq<char>, prefix: Seq<char>) -> Seq<char> {
    "        }\n"@
}

/// Line 6 of [`vector_builtin_expansion_text`].
pub open spec fn vector_builtin_expansion_line6(inner: Seq<char>, name: Seq<char>, prefix: Seq<char>) -> Seq<char> {
    "        unsafe {\n"@
}

/// Line 7 of [`vector_builtin_expansion_text`].
pub open spec fn vector_builtin_expansion_line7(inner: Seq<char>, name: Seq<char>, prefix: Seq<char>) -> Seq<char> {
    "            __get_unchecked(v, pos)\n"@
}

/// Line 8 of [`vector_builtin_expansion_text`].
pub open spec fn vector_builtin_expansion_line8(inner: Seq<char>, name: Seq<char>, prefix: Seq<char>) -> Seq<char> {
    "        }\n"@
}

/// Line 9 of [`vector_builtin_expansion_text`].
pub open spec fn vector_builtin_expansion_line9(inner: Seq<char>, name: Seq<char>, prefix: Seq<char>) -> Seq<char> {
    "    }\n"@
}

/// Line 10 of [`vector_builtin_expansion_text`].
pub open spec fn vector_builtin_expansion_line10(inner: Seq<char>, name: Seq<char>, prefix: Seq<char>) -> Seq<char> {
    "    fn vector_length(v: &"@ + "RealVector"@ + "<"@ + inner + ">) -> usize {\n"@
}

/// Line 11 of [`vector_builtin_expansion_text`].
pub open spec fn vector_builtin_expansion_line11(inner: Seq<char>, name: Seq<char>, prefix: Seq<char>) -> Seq<char> {
    "        unsafe {\n"@
}

/// Line 12 of [`vector_builtin_expansion_text`].
pub open spec fn vector_builtin_expansion_line12(inner: Seq<char>, name: Seq<char>, prefix: Seq<char>) -> Seq<char> {
    "            extern \"C\" {\n"@
}

/// Line 13 of [`vector_builtin_expansion_text`].
pub open spec fn vector_builtin_expansion_line13(inner: Seq<char>, name: Seq<char>, prefix: Seq<char>) -> Seq<char> {
    "                #[link_name = \""@ + prefix + "length"@ + "\"]\n"@
}

/// Line 14 of [`vector_builtin_expansion_text`].
pub open spec fn vector_builtin_expansion_line14(inner: Seq<char>, name: Seq<char>, prefix: Seq<char>) -> Seq<char> {
    "                fn __vector_length(_: &"@ + "RealVector"@ + "<"@ + inner + ">) -> usize;\n"@
}

/// Line 15 of [`vector_builtin_expansion_text`].
pub open spec fn vector_builtin_expansion_line15(inner: Seq<char>, name: Seq<char>, prefix: Seq<char>) -> Seq<char> {
    "            }\n"@
}

/// Line 16 of [`vector_builtin_expansion_text`].
pub open spec fn vector_builtin_expansion_line16(inner: Seq<char>, name: Seq<char>, prefix: Seq<char>) -> Seq<char> {
    "            __vector_length(v)\n"@
}

/// Line 17 of [`vector_builtin_expansion_text`].
pub open spec fn vector_builtin_expansion_line17(inner: Seq<char>, name: Seq<char>, prefix: Seq<char>) -> Seq<char> {
    "        }\n"@
}

/// Line 18 of [`vector_builtin_expansion_text`].
pub open spec fn vector_builtin_expansion_line18(inner: Seq<char>, name: Seq<char>, prefix: Seq<char>) -> Seq<char> {
    "    }\n"@
}

/// Line 19 of [`vector_builtin_expansion_text`].
pub open spec fn vector_builtin_expansion_line19(inner: Seq<char>, name: Seq<char>, prefix: Seq<char>) -> Seq<char> {
    "    fn push_back(v: &"@ + "RealVector"@ + "<"@ + inner + ">, item: &"@ + inner + ") {\n"@
}

/// Line 20 of [`vector_builtin_expansion_text`].
pub open spec fn vector_builtin_expansion_line20(inner: Seq<char>, name: Seq<char>, prefix: Seq<char>) -> Seq<char> {
    "        unsafe {\n"@
}

/// Line 21 of [`vector_builtin_expansion_text`].
pub open spec fn vector_builtin_expansion_line21(inner: Seq<char>, name: Seq<char>, prefix: Seq<char>) -> Seq<char> {
    "            extern \"C\" {\n"@
}

/// Line 22 of [`vector_builtin_expansion_text`].
pub open spec fn vector_builtin_expansion_line22(inner: Seq<char>, name: Seq<char>, prefix: Seq<char>) -> Seq<char> {
    "                #[link_name = \""@ + prefix + "push_back"@ + "\"]\n"@
}

/// Line 23 of [`vector_builtin_expansion_text`].
pub open spec fn vector_builtin_expansion_line23(inner: Seq<char>, name: Seq<char>, prefix: Seq<char>) -> Seq<char> {
    "                fn __push_back(_: &"@ + "RealVector"@ + "<"@ + inner + ">, _: &"@ + inner + ") -> usize;\n"@
}

/// Line 24 of [`vector_builtin_expansion_text`].
pub open spec fn vector_builtin_expansion_line24(inner: Seq<char>, name: Seq<char>, prefix: Seq<char>) -> Seq<char> {
    "            }\n"@
}

/// Line 25 of [`vector_builtin_expansion_text`].
pub open spec fn vector_builtin_expansion_line25(inner: Seq<char>, name: Seq<char>, prefix: Seq<char>) -> Seq<char> {
    "            __push_back(v, item);\n"@
}

/// Line 26 of [`vector_builtin_expansion_text`].
pub open spec fn vector_builtin_expansion_line26(inner: Seq<char>, name: Seq<char>, prefix: Seq<char>) -> Seq<char> {
    "        }\n"@
}

/// Line 27 of [`vector_builtin_expansion_text`].
pub open spec fn vector_builtin_expansion_line27(inner: Seq<char>, name: Seq<char>, prefix: Seq<char>) -> Seq<char> {
    "    }\n"@
}

/// Line 28 of [`vector_builtin_expansion_text`].
pub open spec fn vector_builtin_expansion_line28(inner: Seq<char>, name: Seq<char>, prefix: Seq<char>) -> Seq<char> {
    "}\n"@
}

/// Part 0 of [`vector_builtin_expansion_text`].
pub open spec fn vector_builtin_expansion_part0(inner: Seq<char>, name: Seq<char>, prefix: Seq<char>) -> Seq<char> {
    vector_builtin_expansion_line0(inner, name, prefix) + vector_builtin_expansion_line1(inner, name, prefix) + vector_builtin_expansion_line2(inner, name, prefix) + vector_builtin_expansion_line3(inner, name, prefix) + vector_builtin_expansion_line4(inner, name, prefix) + vector_builtin_expansion_line5(inner, name, prefix) + vector_builtin_expansion_line6(inner, name, prefix) + vector_builtin_expansion_line7(inner, name, prefix)
}

fn vector_builtin_expansion_part0_string(inner: &str, name: &str, prefix: &str) -> (r: String)
    ensures
        r@ == vector_builtin_expansion_part0(inner@, name@, prefix@),
{
    let mut buf = String::new();
    let ghost b0 = buf@;
    buf.append("impl ");
    buf.append("VectorTarget");
    buf.append("<");
    buf.append(inner);
    buf.append("> for ");
    buf.append(inner);
    buf.append(" {\n");
    assert(buf@ =~= vector_builtin_expansion_line0(inner@, name@, prefix@));
    let ghost b1 = buf@;
    buf.append("    fn get_unchecked(v: &");
    buf.append("RealVector");
    buf.append("<");
    buf.append(inner);
    buf.append(">, pos: usize) -> &");
    buf.append(inner);
    buf.append(" {\n");
    assert(buf@ =~= b1 + vector_builtin_expansion_line1(inner@, name@, prefix@));
    let ghost b2 = buf@;
    buf.append("        extern \"C\" {\n");
    assert(buf@ =~= b2 + vector_builtin_expansion_line2(inner@, name@, prefix@));
    let ghost b3 = buf@;
    buf.append("            #[link_name = \"");
    buf.append(prefix);
    buf.append("get_unchecked");
    buf.append("\"]\n");
    assert(buf@ =~= b3 + vector_builtin_expansion_line3(inner@, name@, prefix@));
    let ghost b4 = buf@;
    buf.append("            fn __get_unchecked(_: &");
    buf.append("RealVector");
    buf.append("<");
    buf.append(inner);
    buf.append(">, _: usize) -> &");
    buf.append(inner);
    buf.append(";\n");
    assert(buf@ =~= b4 + vector_builtin_expansion_line4(inner@, name@, prefix@));
    let ghost b5 = buf@;
    buf.append("        }\n");
    assert(buf@ =~= b5 + vector_builtin_expansion_line5(inner@, name@, prefix@));
    let ghost b6 = buf@;
    buf.append("        unsafe {\n");
    assert(buf@ =~= b6 + vector_builtin_expansion_line6(inner@, name@, prefix@));
    let ghost b7 = buf@;
    buf.append("            __get_unchecked(v, pos)\n");
    assert(buf@ =~= b7 + vector_builtin_expansion_line7(inner@, name@, prefix@));
    buf
}

/// Part 1 of [`vector_builtin_expansion_text`].
pub open spec fn vector_builtin_expansion_part1(inner: Seq<char>, name: Seq<char>, prefix: Seq<char>) -> Seq<char> {
    vector_builtin_expansion_line8(inner, name, prefix) + vector_builtin_expansion_line9(inner, name, prefix) + vector_builtin_expansion_line10(inner, name, prefix) + vector_builtin_expansion_line11(inner, name, prefix) + vector_builtin_expansion_line12(inner, name, prefix) + vector_builtin_expansion_line13(inner, name, prefix) + vector_builtin_expansion_line14(inner, name, prefix) + vector_builtin_expansion_line15(inner, name, prefix)
}

fn vector_builtin_expansion_part1_string(inner: &str, name: &str, prefix: &str) -> (r: String)
    ensures
        r@ == vector_builtin_expansion_part1(inner@, name@, prefix@),
{
    let mut buf = String::new();
    let ghost b0 = buf@;
    buf.append("        }\n");
    assert(buf@ =~= vector_builtin_expansion_line8(inner@, name@, prefix@));
    let ghost b1 = buf@;
    buf.append("    }\n");
    assert(buf@ =~= b1 + vector_builtin_expansion_line9(inner@, name@, prefix@));
    let ghost b2 = buf@;
    buf.append("    fn vector_length(v: &");
    buf.append("RealVector");
    buf.append("<");
    buf.append(inner);
    buf.append(">) -> usize {\n");
    assert(buf@ =~= b2 + vector_builtin_expansion_line10(inner@, name@, prefix@));
    let ghost b3 = buf@;
    buf.append("        unsafe {\n");
    assert(buf@ =~= b3 + vector_builtin_expansion_line11(inner@, name@, prefix@));
    let ghost b4 = buf@;
    buf.append("            extern \"C\" {\n");
    assert(buf@ =~= b4 + vector_builtin_expansion_line12(inner@, name@, prefix@));
    let ghost b5 = buf@;
    buf.append("                #[link_name = \"");
    buf.append(prefix);
    buf.append("length");
    buf.append("\"]\n");
    assert(buf@ =~= b5 + vector_builtin_expansion_line13(inner@, name@, prefix@));
    let ghost b6 = buf@;
    buf.append("                fn __vector_length(_: &");
    buf.append("RealVector");
    buf.append("<");
    buf.append(inner);
    buf.append(">) -> usize;\n");
    assert(buf@ =~= b6 + vector_builtin_expansion_line14(inner@, name@, prefix@));
    let ghost b7 = buf@;
    buf.append("            }\n");
    assert(buf@ =~= b7 + vector_builtin_expansion_line15(inner@, name@, prefix@));
    buf
}

/// Part 2 of [`vector_builtin_expansion_text`].
pub open spec fn vector_builtin_expansion_part2(inner: Seq<char>, name: Seq<char>, prefix: Seq<char>) -> Seq<char> {
    vector_builtin_expansion_line16(inner, name, prefix) + vector_builtin_expansion_line17(inner, name, prefix) + vector_builtin_expansion_line18(inner, name, prefix) + vector_builtin_expansion_line19(inner, name, prefix) + vector_builtin_expansion_line20(inner, name, prefix) + vector_builtin_expansion_line21(inner, name, prefix) + vector_builtin_expansion_line22(inner, name, prefix) + vector_builtin_expansion_line23(inner, name, prefix)
}

fn vector_builtin_expansion_part2_string(inner: &str, name: &str, prefix: &str) -> (r: String)
    ensures
        r@ == vector_builtin_expansion_part2(inner@, name@, prefix@),
{
    let mut buf = String::new();
    let ghost b0 = buf@;
    buf.append("            __vector_length(v)\n");
    assert(buf@ =~= vector_builtin_expansion_line16(inner@, name@, prefix@));
    let ghost b1 = buf@;
    buf.append("        }\n");
    assert(buf@ =~= b1 + vector_builtin_expansion_line17(inner@, name@, prefix@));
    let ghost b2 = buf@;
    buf.append("    }\n");
    assert(buf@ =~= b2 + vector_builtin_expansion_line18(inner@, name@, prefix@));
    let ghost b3 = buf@;
    buf.append("    fn push_back(v: &");
    buf.append("RealVector");
    buf.append("<");
    buf.append(inner);
    buf.append(">, item: &");
    buf.append(inner);
    buf.append(") {\n");
    assert(buf@ =~= b3 + vector_builtin_expansion_line19(inner@, name@, prefix@));
    let ghost b4 = buf@;
    buf.append("        unsafe {\n");
    assert(buf@ =~= b4 + vector_builtin_expansion_line20(inner@, name@, prefix@));
    let ghost b5 = buf@;
    buf.append("            extern \"C\" {\n");
    assert(buf@ =~= b5 + vector_builtin_expansion_line21(inner@, name@, prefix@));
    let ghost b6 = buf@;
    buf.append("                #[link_name = \"");
    buf.append(prefix);
    buf.append("push_back");
    buf.append("\"]\n");
    assert(buf@ =~= b6 + vector_builtin_expansion_line22(inner@, name@, prefix@));
    let ghost b7 = buf@;
    buf.append("                fn __push_back(_: &");
    buf.append("RealVector");
    buf.append("<");
    buf.append(inner);
    buf.append(">, _: &");
    buf.append(inner);
    buf.append(") -> usize;\n");
    assert(buf@ =~= b7 + vector_builtin_expansion_line23(inner@, name@, prefix@));
    buf
}

/// Part 3 of [`vector_builtin_expansion_text`].
pub open spec fn vector_builtin_expansion_part3(inner: Seq<char>, name: Seq<char>, prefix: Seq<char>) -> Seq<char> {
    vector_builtin_expansion_line24(inner, name, prefix) + vector_builtin_expansion_line25(inner, name, prefix) + vector_builtin_expansion_line26(inner, name, prefix) + vector_builtin_expansion_line27(inner, name, prefix) + vector_builtin_expansion_line28(inner, name, prefix)
}

fn vector_builtin_expansion_part3_string(inner: &str, name: &str, prefix: &str) -> (r: String)
    ensures
        r@ == vector_builtin_expansion_part3(inner@, name@, prefix@),
{
    let mut buf = String::new();
    let ghost b0 = buf@;
    buf.append("            }\n");
    assert(buf@ =~= vector_builtin_expansion_line24(inner@, name@, prefix@));
    let ghost b1 = buf@;
    buf.append("            __push_back(v, item);\n");
    assert(buf@ =~= b1 + vector_builtin_expansion_line25(inner@, name@, prefix@));
    let ghost b2 = buf@;
    buf.append("        }\n");
    assert(buf@ =~= b2 + vector_builtin_expansion_line26(inner@, name@, prefix@));
    let ghost b3 = buf@;
    buf.append("    }\n");
    assert(buf@ =~= b3 + vector_builtin_expansion_line27(inner@, name@, prefix@));
    let ghost b4 = buf@;
    buf.append("}\n");
    assert(buf@ =~= b4 + vector_builtin_expansion_line28(inner@, name@, prefix@));
    buf
}

/// The runtime's own binding of a native sequence of the primitive `inner`.
pub open spec fn vector_builtin_expansion_text(inner: Seq<char>, name: Seq<char>, prefix: Seq<char>) -> Seq<char> {
    vector_builtin_expansion_part0(inner, name, prefix) + vector_builtin_expansion_part1(inner, name, prefix) + vector_builtin_expansion_part2(inner, name, prefix) + vector_builtin_expansion_part3(inner, name, prefix)
}

fn vector_builtin_expansion_text_string(inner: &str, name: &str, prefix: &str) -> (r: String)
    ensures
        r@ == vector_builtin_expansion_text(inner@, name@, prefix@),
{
    let mut buf = vector_builtin_expansion_part0_string(inner, name, prefix);
    let ghost b = buf@;
    let part = vector_builtin_expansion_part1_string(inner, name, prefix);
    buf.append(part.as_str());
    assert(buf@ == b + vector_builtin_expansion_part1(inner@, name@, prefix@));
    let ghost b = buf@;
    let part = vector_builtin_expansion_part2_string(inner, name, prefix);
    buf.append(part.as_str());
    assert(buf@ == b + vector_builtin_expansion_part2(inner@, name@, prefix@));
    let ghost b = buf@;
    let part = vector_builtin_expansion_part3_string(inner, name, prefix);
    buf.append(part.as_str());
    assert(buf@ == b + vector_builtin_expansion_part3(inner@, name@, prefix@));
    buf
}

/// The managed side's exported functions behind an owned pointer to its
/// type `ident`.
pub fn expand_rust_box(ns: &Vec<String>, ident: &String) -> (r: String)
    ensures
        r@ == box_expansion_text(ident@, ident@, box_link_prefix(name_views(ns@), ident@)),
{
    let prefix = rust_box_link_prefix(ns, ident.as_str());
    box_expansion_text_string(ident.as_str(), ident.as_str(), prefix.as_str())
}

/// The managed side's exported functions behind a managed sequence of `ty`.
pub fn expand_rust_vec(ns: &Vec<String>, ty: &Type) -> (r: String)
    requires
        ty@ is Ident,
    ensures
        r@ == vec_expansion_text(
            rust_type_text(ty@),
            rust_type_text(ty@),
            instance_link_prefix("cxxbridge02$rust_vec$"@, name_views(ns@), ty@),
        ),
{
    let prefix = instance_link_prefix_of("cxxbridge02$rust_vec$", ns, ty);
    let inner = crate::expand::expand_rust_type_name(ty);
    vec_expansion_text_string(inner.as_str(), inner.as_str(), prefix.as_str())
}

/// The managed side's binding of a native owned pointer to `ty`.
pub open spec fn unique_ptr_expansion_text(
    ns: Seq<Seq<char>>,
    t: TypeView,
    structs: Map<Seq<char>, bool>,
) -> Seq<char> {
    let inner = rust_type_text(t);
    let name = typename(ns, t);
    let prefix = instance_link_prefix("cxxbridge02$unique_ptr$"@, ns, t);
    unique_ptr_head_text(inner, name, prefix) + (match t {
        TypeView::Ident(id) => if structs.contains_key(id) {
            unique_ptr_new_text(inner, name, prefix)
        } else {
            Seq::empty()
        },
        _ => Seq::empty(),
    }) + unique_ptr_raw_get_text(inner, name, prefix) + unique_ptr_tail_text(inner, name, prefix)
}

/// The managed side's binding of a native owned pointer to `ty`: value
/// structs also get construction from a value.
#[verifier::rlimit(30)]
pub fn expand_unique_ptr(ns: &Vec<String>, ty: &Type, types: &Types) -> (r: String)
    requires
        unique_ptr_target(ty@),
        types.wf(),
    ensures
        r@ == unique_ptr_expansion_text(name_views(ns@), ty@, types@.structs),
{
    proof {
        reveal_with_fuel(crate::syntax::type_view, 2);
        reveal_with_fuel(crate::mangle::has_typename, 2);
        reveal_with_fuel(crate::mangle::has_mangled, 2);
    }
    let prefix = instance_link_prefix_of("cxxbridge02$unique_ptr$", ns, ty);
    let inner = crate::expand::expand_rust_type_name(ty);
    let name = to_typename(ty, ns);
    let mut r = unique_ptr_head_text_string(inner.as_str(), name.as_str(), prefix.as_str());
    let ghost a = r@;
    match ty {
        Type::Ident(id) => {
            if types.is_struct(id) {
                let part = unique_ptr_new_text_string(inner.as_str(), name.as_str(), prefix.as_str());
                r.append(part.as_str());
            }
        },
        _ => {},
    }
    let ghost b = r@;
    let part = unique_ptr_raw_get_text_string(inner.as_str(), name.as_str(), prefix.as_str());
    r.append(part.as_str());
    let part = unique_ptr_tail_text_string(inner.as_str(), name.as_str(), prefix.as_str());
    r.append(part.as_str());
    assert(r@ =~= unique_ptr_expansion_text(name_views(ns@), ty@, types@.structs));
    r
}

/// The managed side's binding of a native sequence of `ty`.
pub fn expand_vector(ns: &Vec<String>, ty: &Type) -> (r: String)
    requires
        ty@ is Ident,
    ensures
        r@ == vector_expansion_text(
            rust_type_text(ty@),
            rust_type_text(ty@),
            instance_link_prefix("cxxbridge02$std$vector$"@, name_views(ns@), ty@),
        ),
{
    let prefix = instance_link_prefix_of("cxxbridge02$std$vector$", ns, ty);
    let inner = crate::expand::expand_rust_type_name(ty);
    vector_expansion_text_string(inner.as_str(), inner.as_str(), prefix.as_str())
}

/// The runtime's own binding of a native sequence of a primitive type,
/// outside any namespace.
pub fn expand_vector_builtin(ident: String) -> (r: String)
    ensures
        r@ == vector_builtin_expansion_text(
            ident@,
            ident@,
            instance_link_prefix("cxxbridge02$std$vector$"@, Seq::empty(), TypeView::Ident(ident@)),
        ),
{
    let ty = Type::Ident(ident);
    let ns: Vec<String> = Vec::new();
    assert(name_views(ns@) =~= Seq::empty());
    let prefix = instance_link_prefix_of("cxxbridge02$std$vector$", &ns, &ty);
    match &ty {
        Type::Ident(id) => vector_builtin_expansion_text_string(id.as_str(), id.as_str(), prefix.as_str()),
        _ => String::new(),
    }
}

/// What the managed side writes for one observed type.
pub open spec fn managed_instance_text(
    ns: Seq<Seq<char>>,
    t: TypeView,
    structs: Map<Seq<char>, bool>,
) -> Seq<char> {
    match t {
        TypeView::RustBox(i) => match *i {
            TypeView::Ident(id) => if atom_of(id).is_none() {
                box_expansion_text(id, id, box_link_prefix(ns, id))
            } else {
                Seq::empty()
            },
            _ => Seq::empty(),
        },
        TypeView::RustVec(i) => match *i {
            TypeView::Ident(_) => vec_expansion_text(
                rust_type_text(*i),
                rust_type_text(*i),
                instance_link_prefix("cxxbridge02$rust_vec$"@, ns, *i),
            ),
            _ => Seq::empty(),
        },
        TypeView::UniquePtr(i) => if crate::generic::writes_unique_ptr(t) {
            unique_ptr_expansion_text(ns, *i, structs)
        } else {
            Seq::empty()
        },
        TypeView::Vector(i) => match *i {
            TypeView::Ident(id) => if atom_of(id).is_none() {
                vector_expansion_text(
                    rust_type_text(*i),
                    rust_type_text(*i),
                    instance_link_prefix("cxxbridge02$std$vector$"@, ns, *i),
                )
            } else {
                Seq::empty()
            },
            _ => Seq::empty(),
        },
        _ => Seq::empty(),
    }
}

/// What the managed side writes for every observed type, in order: one
/// binding per wrapper kind and concrete type; bindings of primitive
/// sequences come with the runtime.
pub open spec fn managed_instances_text(
    ns: Seq<Seq<char>>,
    all: Seq<TypeView>,
    structs: Map<Seq<char>, bool>,
) -> Seq<char>
    decreases all.len(),
{
    if all.len() == 0 {
        Seq::empty()
    } else {
        managed_instances_text(ns, all.drop_last(), structs) + managed_instance_text(
            ns,
            all.last(),
            structs,
        )
    }
}

#[verifier::rlimit(30)]
fn expand_instance(ns: &Vec<String>, ty: &Type, types: &Types) -> (r: String)
    requires
        types.wf(),
    ensures
        r@ == managed_instance_text(name_views(ns@), ty@, types@.structs),
{
    proof {
        reveal_with_fuel(crate::syntax::type_view, 3);
    }
    match ty {
        Type::RustBox(inner) => match &**inner {
            Type::Ident(id) => {
                assert(inner@ == TypeView::Ident(id@));
                if Atom::from(id.as_str()).is_none() {
                    expand_rust_box(ns, id)
                } else {
                    String::new()
                }
            },
            _ => String::new(),
        },
        Type::RustVec(inner) => match &**inner {
            Type::Ident(id) => {
                assert(inner@ == TypeView::Ident(id@));
                expand_rust_vec(ns, inner)
            },
            _ => String::new(),
        },
        Type::UniquePtr(inner) => match &**inner {
            Type::Ident(id) => {
                assert(inner@ == TypeView::Ident(id@));
                if Atom::from(id.as_str()).is_none() {
                    expand_unique_ptr(ns, inner, types)
                } else {
                    String::new()
                }
            },
            Type::Vector(elem) => match &**elem {
                Type::Ident(id) => {
                    assert(inner@ == TypeView::Vector(Box::new(TypeView::Ident(id@))));
                    expand_unique_ptr(ns, inner, types)
                },
                _ => {
                    assert(!(elem@ is Ident));
                    String::new()
                },
            },
            _ => String::new(),
        },
        Type::Vector(inner) => match &**inner {
            Type::Ident(id) => {
                assert(inner@ == TypeView::Ident(id@));
                if Atom::from(id.as_str()).is_none() {
                    expand_vector(ns, inner)
                } else {
                    String::new()
                }
            },
            _ => String::new(),
        },
        _ => String::new(),
    }
}

/// Writes the managed side's bindings of every generic instantiation that
/// the interface uses.
pub fn expand_instances(ns: &Vec<String>, types: &Types) -> (r: String)
    requires
        types.wf(),
    ensures
        r@ == managed_instances_text(name_views(ns@), types@.all, types@.structs),
{
    let ghost all = types@.all;
    let mut r = String::new();
    let mut i: usize = 0;
    while i < types.all.len()
        invariant
            i <= types.all@.len(),
            types.wf(),
            all == views(types.all@),
            r@ == managed_instances_text(name_views(ns@), all.subrange(0, i as int), types@.structs),
        decreases types.all@.len() - i,
    {
        let part = expand_instance(ns, &types.all[i], types);
        assert(all[i as int] == types.all@[i as int]@);
        r.append(part.as_str());
        assert(all.subrange(0, i + 1).drop_last() =~= all.subrange(0, i as int));
        i = i + 1;
    }
    assert(all.subrange(0, i as int) =~= all);
    r
}

/// Whether the binding of an instantiation goes among the hidden items: the
/// exported functions behind managed owned pointers and sequences.
pub open spec fn instance_hidden(t: TypeView) -> bool {
    t is RustBox || t is RustVec
}

/// The bindings of the observed types that go in the given part.
pub open spec fn instances_part_text(
    ns: Seq<Seq<char>>,
    all: Seq<TypeView>,
    structs: Map<Seq<char>, bool>,
    hidden: bool,
) -> Seq<char>
    decreases all.len(),
{
    if all.len() == 0 {
        Seq::empty()
    } else {
        instances_part_text(ns, all.drop_last(), structs, hidden) + if instance_hidden(all.last())
            == hidden {
            managed_instance_text(ns, all.last(), structs)
        } else {
            Seq::empty()
        }
    }
}

/// Writes the bindings of the observed types that go in the given part.
pub fn expand_instances_part(ns: &Vec<String>, types: &Types, hidden: bool) -> (r: String)
    requires
        types.wf(),
    ensures
        r@ == instances_part_text(name_views(ns@), types@.all, types@.structs, hidden),
{
    let ghost all = types@.all;
    let mut r = String::new();
    let mut i: usize = 0;
    while i < types.all.len()
        invariant
            i <= types.all@.len(),
            types.wf(),
            all == views(types.all@),
            r@ == instances_part_text(name_views(ns@), all.subrange(0, i as int), types@.structs, hidden),
        decreases types.all@.len() - i,
    {
        let ty = &types.all[i];
        assert(all[i as int] == ty@);
        let is_hidden = match ty {
            Type::RustBox(_) | Type::RustVec(_) => true,
            _ => false,
        };
        let ghost before = r@;
        if is_hidden == hidden {
            let part = expand_instance(ns, ty, types);
            r.append(part.as_str());
        } else {
            assert(r@ =~= before + Seq::<char>::empty());
        }
        assert(all.subrange(0, i + 1).drop_last() =~= all.subrange(0, i as int));
        i = i + 1;
    }
    assert(all.subrange(0, i as int) =~= all);
    r
}

} // verus!
