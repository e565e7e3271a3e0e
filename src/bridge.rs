use vstd::prelude::*;
use vstd::string::*;
use crate::expand::{
    cxx_fn_shim_text, cxx_type_text, expand_cxx_function_shim, expand_cxx_type, expand_rust_function_shim,
    expand_rust_type, expand_struct, rust_fn_entry_text, rust_struct_text, rust_type_import_text,
};
use crate::instances::{expand_instances_part, instances_part_text};
use crate::syntax::Api;
use crate::types::{collected, first_error, name_views, struct_classes, Error, Types};

verus! {

/// The parts of the managed module that come from the declarations.
#[derive(Clone, Copy, Debug, PartialEq, Eq, Structural)]
pub enum ApiPart {
    /// Imports of the managed opaque types.
    Imports,
    /// Checks that each managed opaque type has a size.
    SizeChecks,
    /// Value structs, native opaque types and the safe functions that call
    /// native functions.
    Items,
    /// Entry points of managed functions.
    Entries,
}

/// What one declaration puts in the given part.
pub open spec fn api_part_text(
    part: ApiPart,
    ns: Seq<Seq<char>>,
    api: Api,
    structs: Map<Seq<char>, bool>,
) -> Seq<char> {
    match (part, api) {
        (ApiPart::Imports, Api::RustType(e)) => rust_type_import_text(e.ident@),
        (ApiPart::SizeChecks, Api::RustType(e)) => "__assert_sized::<"@ + e.ident@ + ">();\n"@,
        (ApiPart::Items, Api::Struct(s)) => rust_struct_text(&s),
        (ApiPart::Items, Api::CxxType(e)) => cxx_type_text(e.ident@),
        (ApiPart::Items, Api::CxxFunction(f)) => cxx_fn_shim_text(ns, &f, structs),
        (ApiPart::Entries, Api::RustFunction(f)) => rust_fn_entry_text(ns, &f, structs),
        _ => Seq::empty(),
    }
}

/// What every declaration puts in the given part, in order.
pub open spec fn apis_part_text(
    part: ApiPart,
    ns: Seq<Seq<char>>,
    apis: Seq<Api>,
    structs: Map<Seq<char>, bool>,
) -> Seq<char>
    decreases apis.len(),
{
    if apis.len() == 0 {
        Seq::empty()
    } else {
        apis_part_text(part, ns, apis.drop_last(), structs) + api_part_text(
            part,
            ns,
            apis.last(),
            structs,
        )
    }
}

/// Whether the interface declares a managed opaque type.
pub open spec fn has_rust_type(apis: Seq<Api>) -> bool {
    exists|i: int| 0 <= i < apis.len() && #[trigger] apis[i] is RustType
}

/// The items kept out of the module's public face.
pub open spec fn hidden_text(
    ns: Seq<Seq<char>>,
    apis: Seq<Api>,
    all: Seq<crate::syntax::TypeView>,
    structs: Map<Seq<char>, bool>,
) -> Seq<char> {
    (if has_rust_type(apis) {
        "const fn __assert_sized<T>() {}\n"@
    } else {
        Seq::empty()
    }) + apis_part_text(ApiPart::SizeChecks, ns, apis, structs) + apis_part_text(
        ApiPart::Entries,
        ns,
        apis,
        structs,
    ) + instances_part_text(ns, all, structs, true)
}

/// The module's own wrapper of native sequences.
pub open spec fn vector_newtype_text() -> Seq<char> {
    vector_newtype_str()@
}

/// The text of [`vector_newtype_text`].
pub open spec fn vector_newtype_str() -> &'static str {
    "pub struct Vector<T>(pub ::cxx::RealVector<T>);\nimpl<T: cxx::private::VectorTarget<T>> Vector<T> {\n    pub fn size(&self) -> usize {\n        self.0.size()\n    }\n    pub fn get(&self, pos: usize) -> Option<&T> {\n        self.0.get(pos)\n    }\n    pub fn get_unchecked(&self, pos: usize) -> &T {\n        self.0.get_unchecked(pos)\n    }\n    pub fn is_empty(&self) -> bool {\n        self.0.is_empty()\n    }\n    pub fn push_back(&mut self, item: &T) {\n        self.0.push_back(item)\n    }\n}\nimpl<'a, T: cxx::private::VectorTarget<T>> IntoIterator for &'a Vector<T> {\n    type Item = &'a T;\n    type IntoIter = <&'a ::cxx::RealVector<T> as IntoIterator>::IntoIter;\n\n    fn into_iter(self) -> Self::IntoIter {\n        self.0.into_iter()\n    }\n}\nunsafe impl<T> Send for Vector<T> where T: Send + cxx::private::VectorTarget<T> {}\n"
}

/// The opening of the managed module: its doc comment, the lints it keeps,
/// its visibility (empty, or ending in a space) and its name.
pub open spec fn module_head_text(module: Seq<char>, vis: Seq<char>, doc: Seq<String>) -> Seq<char> {
    crate::expand::rust_doc_text(doc) + "#[deny(improper_ctypes)]\n#[allow(non_snake_case)]\n"@ + vis
        + "mod "@ + module + " {\n"@
}

/// The managed module of an interface: the wrapper of native sequences,
/// the imports, the items, the visible bindings of instantiations, and the
/// hidden items in a block of their own where there are any.
pub open spec fn bridge_text(
    module: Seq<char>,
    vis: Seq<char>,
    doc: Seq<String>,
    ns: Seq<Seq<char>>,
    apis: Seq<Api>,
    all: Seq<crate::syntax::TypeView>,
    structs: Map<Seq<char>, bool>,
) -> Seq<char> {
    let hidden = hidden_text(ns, apis, all, structs);
    module_head_text(module, vis, doc) + vector_newtype_text() + apis_part_text(ApiPart::Imports, ns, apis, structs)
        + apis_part_text(ApiPart::Items, ns, apis, structs) + instances_part_text(
        ns,
        all,
        structs,
        false,
    ) + (if hidden.len() > 0 {
        "#[doc(hidden)]\nconst _: () = {\n"@ + hidden + "};\n"@
    } else {
        Seq::empty()
    }) + "}\n"@
}

#[verifier::rlimit(30)]
fn expand_api_part(part: ApiPart, ns: &Vec<String>, api: &Api, types: &Types) -> (r: String)
    requires
        types.wf(),
    ensures
        r@ == api_part_text(part, name_views(ns@), *api, types@.structs),
{
    match (part, api) {
        (ApiPart::Imports, Api::RustType(e)) => expand_rust_type(e),
        (ApiPart::SizeChecks, Api::RustType(e)) => {
            let mut r = String::new();
            r.append("__assert_sized::<");
            r.append(e.ident.as_str());
            r.append(">();\n");
            assert(r@ =~= api_part_text(part, name_views(ns@), *api, types@.structs));
            r
        },
        (ApiPart::Items, Api::Struct(s)) => expand_struct(s),
        (ApiPart::Items, Api::CxxType(e)) => expand_cxx_type(e),
        (ApiPart::Items, Api::CxxFunction(f)) => expand_cxx_function_shim(ns, f, types),
        (ApiPart::Entries, Api::RustFunction(f)) => expand_rust_function_shim(ns, f, types),
        _ => String::new(),
    }
}

/// Writes what every declaration puts in the given part, in order.
pub fn expand_apis_part(part: ApiPart, ns: &Vec<String>, apis: &Vec<Api>, types: &Types) -> (r: String)
    requires
        types.wf(),
    ensures
        r@ == apis_part_text(part, name_views(ns@), apis@, types@.structs),
{
    let mut r = String::new();
    let mut i: usize = 0;
    while i < apis.len()
        invariant
            i <= apis@.len(),
            types.wf(),
            r@ == apis_part_text(part, name_views(ns@), apis@.subrange(0, i as int), types@.structs),
        decreases apis@.len() - i,
    {
        let t = expand_api_part(part, ns, &apis[i], types);
        r.append(t.as_str());
        assert(apis@.subrange(0, i + 1).drop_last() =~= apis@.subrange(0, i as int));
        i = i + 1;
    }
    assert(apis@.subrange(0, i as int) =~= apis@);
    r
}

fn declares_rust_type(apis: &Vec<Api>) -> (r: bool)
    ensures
        r == has_rust_type(apis@),
{
    let mut i: usize = 0;
    while i < apis.len()
        invariant
            i <= apis@.len(),
            forall|l: int| 0 <= l < i ==> !(#[trigger] apis@[l] is RustType),
        decreases apis@.len() - i,
    {
        if let Api::RustType(_) = &apis[i] {
            return true;
        }
        i = i + 1;
    }
    false
}

/// Writes the managed module `module` of an interface whose registry is
/// `types`, with the given visibility (empty, or ending in a space) and doc
/// comment lines.
#[verifier::rlimit(30)]
pub fn expand_module(
    module: &str,
    vis: &str,
    doc: &Vec<String>,
    ns: &Vec<String>,
    apis: &Vec<Api>,
    types: &Types,
) -> (r: String)
    requires
        types.wf(),
    ensures
        r@ == bridge_text(module@, vis@, doc@, name_views(ns@), apis@, types@.all, types@.structs),
{
    let ghost v = name_views(ns@);
    let ghost structs = types@.structs;
    let mut hidden = String::new();
    if declares_rust_type(apis) {
        hidden.append("const fn __assert_sized<T>() {}\n");
    }
    let t = expand_apis_part(ApiPart::SizeChecks, ns, apis, types);
    hidden.append(t.as_str());
    let t = expand_apis_part(ApiPart::Entries, ns, apis, types);
    hidden.append(t.as_str());
    let t = expand_instances_part(ns, types, true);
    hidden.append(t.as_str());
    assert(hidden@ =~= hidden_text(v, apis@, types@.all, structs));
    let mut r = String::new();
    crate::expand::push_rust_doc(&mut r, doc);
    r.append("#[deny(improper_ctypes)]\n#[allow(non_snake_case)]\n");
    r.append(vis);
    r.append("mod ");
    r.append(module);
    r.append(" {\n");
    assert(r@ =~= module_head_text(module@, vis@, doc@));
    r.append(
        "pub struct Vector<T>(pub ::cxx::RealVector<T>);\nimpl<T: cxx::private::VectorTarget<T>> Vector<T> {\n    pub fn size(&self) -> usize {\n        self.0.size()\n    }\n    pub fn get(&self, pos: usize) -> Option<&T> {\n        self.0.get(pos)\n    }\n    pub fn get_unchecked(&self, pos: usize) -> &T {\n        self.0.get_unchecked(pos)\n    }\n    pub fn is_empty(&self) -> bool {\n        self.0.is_empty()\n    }\n    pub fn push_back(&mut self, item: &T) {\n        self.0.push_back(item)\n    }\n}\nimpl<'a, T: cxx::private::VectorTarget<T>> IntoIterator for &'a Vector<T> {\n    type Item = &'a T;\n    type IntoIter = <&'a ::cxx::RealVector<T> as IntoIterator>::IntoIter;\n\n    fn into_iter(self) -> Self::IntoIter {\n        self.0.into_iter()\n    }\n}\nunsafe impl<T> Send for Vector<T> where T: Send + cxx::private::VectorTarget<T> {}\n",
    );
    let t = expand_apis_part(ApiPart::Imports, ns, apis, types);
    r.append(t.as_str());
    let t = expand_apis_part(ApiPart::Items, ns, apis, types);
    r.append(t.as_str());
    let t = expand_instances_part(ns, types, false);
    r.append(t.as_str());
    let ghost before = r@;
    if hidden.as_str().unicode_len() > 0 {
        r.append("#[doc(hidden)]\nconst _: () = {\n");
        r.append(hidden.as_str());
        r.append("};\n");
    }
    r.append("}\n");
    assert(r@ =~= bridge_text(module@, vis@, doc@, v, apis@, types@.all, structs));
    r
}

/// Checks an interface and writes its managed module: rejects the
/// interface at its first bad declaration, else builds its registry and
/// expands the module from it.
pub fn bridge(
    module: &str,
    vis: &str,
    doc: &Vec<String>,
    ns: &Vec<String>,
    apis: &Vec<Api>,
) -> (r: Result<String, Error>)
    ensures
        match r {
            Ok(text) => {
                &&& first_error(apis@) is None
                &&& text@ == bridge_text(
                    module@,
                    vis@,
                    doc@,
                    name_views(ns@),
                    apis@,
                    collected(apis@),
                    struct_classes(apis@),
                )
            },
            Err(e) => first_error(apis@) == Some((e.kind, e.ident@)),
        },
{
    match Types::collect(apis) {
        Ok(types) => Ok(expand_module(module, vis, doc, ns, apis, &types)),
        Err(e) => Err(e),
    }
}

} // verus!
