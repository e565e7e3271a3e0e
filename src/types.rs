use vstd::prelude::*;
use crate::atom::{atom_is_primitive, atom_of, Atom};
use crate::strings::str_eq;
use crate::syntax::{Api, Struct, Type, TypeView, Var};

verus! {

/// Why an interface description is rejected.
#[derive(Clone, Copy, Debug, PartialEq, Eq, Structural)]
pub enum ErrorKind {
    /// A declared type takes the name of an atom or of a wrapper.
    ReservedName,
    /// Two declared types share a name.
    DuplicateName,
    /// A struct without fields.
    EmptyStruct,
    /// A type that no passing strategy covers: a wrapper around what it does
    /// not take, or the unit type inside another type.
    UnsupportedType,
}

/// A rejection, with the name of the declaration it is anchored to.
#[derive(Debug)]
pub struct Error {
    pub kind: ErrorKind,
    pub ident: String,
}

/// Whether a name is taken by an atom or a wrapper.
pub open spec fn is_reserved(id: Seq<char>) -> bool {
    id == "Box"@ || id == "UniquePtr"@ || id == "Vector"@ || id == "Vec"@ || atom_of(id).is_some()
}

/// What a native-side sequence may hold: bytes or a user type.
pub open spec fn vector_elem_ok(t: TypeView) -> bool {
    match t {
        TypeView::Ident(id) => id == "u8"@ || atom_of(id).is_none(),
        _ => false,
    }
}

/// Whether a type has a passing strategy.
pub open spec fn type_supported(t: TypeView) -> bool
    decreases t,
{
    match t {
        TypeView::Ident(_) => true,
        TypeView::Str => true,
        TypeView::Void => false,
        TypeView::RustBox(i) => match *i {
            TypeView::Ident(id) => atom_of(id).is_none(),
            _ => false,
        },
        TypeView::RustVec(i) => match *i {
            TypeView::Ident(_) => true,
            _ => false,
        },
        TypeView::UniquePtr(i) => match *i {
            TypeView::Ident(id) => atom_of(id).is_none(),
            TypeView::Vector(j) => vector_elem_ok(*j),
            _ => false,
        },
        TypeView::Vector(i) => vector_elem_ok(*i),
        TypeView::Ref(i, _) => type_supported(*i),
    }
}

/// Whether every variable of `vars` has a supported type.
pub open spec fn vars_supported(vars: Seq<Var>) -> bool {
    forall|i: int| 0 <= i < vars.len() ==> type_supported(#[trigger] vars[i].ty@)
}

/// The names of the types that `apis` declare, in order.
pub open spec fn names_of(apis: Seq<Api>) -> Seq<Seq<char>>
    decreases apis.len(),
{
    if apis.len() == 0 {
        Seq::empty()
    } else {
        let n = names_of(apis.drop_last());
        match apis.last() {
            Api::Struct(s) => n.push(s.ident@),
            Api::CxxType(e) => n.push(e.ident@),
            Api::RustType(e) => n.push(e.ident@),
            _ => n,
        }
    }
}

/// The rejection of a declared type name, given the names declared before.
pub open spec fn name_error(id: Seq<char>, seen: Seq<Seq<char>>) -> Option<ErrorKind> {
    if is_reserved(id) {
        Some(ErrorKind::ReservedName)
    } else if seen.contains(id) {
        Some(ErrorKind::DuplicateName)
    } else {
        None
    }
}

/// The rejection of one declaration, given the names declared before it.
pub open spec fn api_error(api: Api, seen: Seq<Seq<char>>) -> Option<(ErrorKind, Seq<char>)> {
    match api {
        Api::Include(_) => None,
        Api::Struct(s) => match name_error(s.ident@, seen) {
            Some(k) => Some((k, s.ident@)),
            None => if s.fields@.len() == 0 {
                Some((ErrorKind::EmptyStruct, s.ident@))
            } else if !vars_supported(s.fields@) {
                Some((ErrorKind::UnsupportedType, s.ident@))
            } else {
                None
            },
        },
        Api::CxxType(e) => match name_error(e.ident@, seen) {
            Some(k) => Some((k, e.ident@)),
            None => None,
        },
        Api::RustType(e) => match name_error(e.ident@, seen) {
            Some(k) => Some((k, e.ident@)),
            None => None,
        },
        Api::CxxFunction(f) => if fn_supported(f.args@, f.ret) {
            None
        } else {
            Some((ErrorKind::UnsupportedType, f.ident@))
        },
        Api::RustFunction(f) => if fn_supported(f.args@, f.ret) {
            None
        } else {
            Some((ErrorKind::UnsupportedType, f.ident@))
        },
    }
}

/// Whether every type of a signature is supported.
pub open spec fn fn_supported(args: Seq<Var>, ret: Option<Type>) -> bool {
    &&& vars_supported(args)
    &&& match ret {
        Some(t) => type_supported(t@),
        None => true,
    }
}

/// The first rejection in `apis`, if any.
pub open spec fn first_error(apis: Seq<Api>) -> Option<(ErrorKind, Seq<char>)>
    decreases apis.len(),
{
    if apis.len() == 0 {
        None
    } else {
        match first_error(apis.drop_last()) {
            Some(e) => Some(e),
            None => api_error(apis.last(), names_of(apis.drop_last())),
        }
    }
}

/// `acc` with `t` at its end, unless it holds `t` already.
pub open spec fn insert_type(acc: Seq<TypeView>, t: TypeView) -> Seq<TypeView> {
    if acc.contains(t) {
        acc
    } else {
        acc.push(t)
    }
}

/// `acc` with `t` and every type inside it, outermost first.
pub open spec fn visit(acc: Seq<TypeView>, t: TypeView) -> Seq<TypeView>
    decreases t,
{
    let a = insert_type(acc, t);
    match t {
        TypeView::RustBox(i) => visit(a, *i),
        TypeView::RustVec(i) => visit(a, *i),
        TypeView::UniquePtr(i) => visit(a, *i),
        TypeView::Vector(i) => visit(a, *i),
        TypeView::Ref(i, _) => visit(a, *i),
        _ => a,
    }
}

/// `acc` with the types of `vars`, in order.
pub open spec fn visit_vars(acc: Seq<TypeView>, vars: Seq<Var>) -> Seq<TypeView>
    decreases vars.len(),
{
    if vars.len() == 0 {
        acc
    } else {
        visit(visit_vars(acc, vars.drop_last()), vars.last().ty@)
    }
}

/// `acc` with the types that one declaration uses.
pub open spec fn visit_api(acc: Seq<TypeView>, api: Api) -> Seq<TypeView> {
    match api {
        Api::Struct(s) => visit_vars(acc, s.fields@),
        Api::CxxFunction(f) => visit_ret(visit_vars(acc, f.args@), f.ret),
        Api::RustFunction(f) => visit_ret(visit_vars(acc, f.args@), f.ret),
        _ => acc,
    }
}

/// `acc` with the types of a return type, if any.
pub open spec fn visit_ret(acc: Seq<TypeView>, ret: Option<Type>) -> Seq<TypeView> {
    match ret {
        Some(t) => visit(acc, t@),
        None => acc,
    }
}

/// Every distinct type that `apis` use, in order of first use.
pub open spec fn collected(apis: Seq<Api>) -> Seq<TypeView>
    decreases apis.len(),
{
    if apis.len() == 0 {
        Seq::empty()
    } else {
        visit_api(collected(apis.drop_last()), apis.last())
    }
}

/// Whether a value struct crosses the boundary by bitwise copy: each of its
/// fields is a number or `bool`.
pub open spec fn struct_is_direct(s: Struct) -> bool {
    forall|i: int| 0 <= i < s.fields@.len() ==> is_primitive(#[trigger] s.fields@[i].ty@)
}

/// Whether a type is a number or `bool`.
pub open spec fn is_primitive(t: TypeView) -> bool {
    match t {
        TypeView::Ident(id) => match atom_of(id) {
            Some(a) => atom_is_primitive(a),
            None => false,
        },
        _ => false,
    }
}

/// For each struct that `apis` declare, whether it passes directly.
pub open spec fn struct_classes(apis: Seq<Api>) -> Map<Seq<char>, bool>
    decreases apis.len(),
{
    if apis.len() == 0 {
        Map::empty()
    } else {
        let m = struct_classes(apis.drop_last());
        match apis.last() {
            Api::Struct(s) => m.insert(s.ident@, struct_is_direct(s)),
            _ => m,
        }
    }
}

/// The map that parallel name and class lists stand for.
pub open spec fn classes_of(names: Seq<String>, direct: Seq<bool>) -> Map<Seq<char>, bool>
    decreases names.len(),
{
    if names.len() == 0 || direct.len() == 0 {
        Map::empty()
    } else {
        classes_of(names.drop_last(), direct.drop_last()).insert(names.last()@, direct.last())
    }
}

/// Whether a type needs caller-allocated storage to cross the boundary: the
/// managed-side owned string, a managed-side sequence, and a value struct
/// that does not pass directly.
pub open spec fn indirect(structs: Map<Seq<char>, bool>, t: TypeView) -> bool {
    match t {
        TypeView::Ident(id) => if structs.contains_key(id) {
            !structs[id]
        } else {
            id == "String"@
        },
        TypeView::RustVec(_) => true,
        _ => false,
    }
}

/// The registry of an interface: every distinct type it uses, and the
/// passing class of each value struct, computed once.
#[derive(Debug)]
pub struct Types {
    pub all: Vec<Type>,
    pub struct_names: Vec<String>,
    pub struct_direct: Vec<bool>,
}

/// The mathematical value of a registry.
pub struct TypesView {
    pub all: Seq<TypeView>,
    pub structs: Map<Seq<char>, bool>,
}

impl View for Types {
    type V = TypesView;

    open spec fn view(&self) -> TypesView {
        TypesView {
            all: self.all@.map_values(|t: Type| t@),
            structs: classes_of(self.struct_names@, self.struct_direct@),
        }
    }
}

} // verus!

verus! {

/// The views of a list of types.
pub open spec fn views(s: Seq<Type>) -> Seq<TypeView> {
    s.map_values(|t: Type| t@)
}

/// The views of a list of names.
pub open spec fn name_views(s: Seq<String>) -> Seq<Seq<char>> {
    s.map_values(|t: String| t@)
}

/// A name that no entry holds is not a key of the map.
pub proof fn lemma_classes_absent(names: Seq<String>, direct: Seq<bool>, k: Seq<char>)
    requires
        names.len() == direct.len(),
        forall|l: int| 0 <= l < names.len() ==> names[l]@ != k,
    ensures
        !classes_of(names, direct).contains_key(k),
    decreases names.len(),
{
    if names.len() > 0 {
        lemma_classes_absent(names.drop_last(), direct.drop_last(), k);
    }
}

/// The last entry that holds a name gives its value.
pub proof fn lemma_classes_found(names: Seq<String>, direct: Seq<bool>, k: Seq<char>, j: int)
    requires
        names.len() == direct.len(),
        0 <= j < names.len(),
        names[j]@ == k,
        forall|l: int| j < l < names.len() ==> names[l]@ != k,
    ensures
        classes_of(names, direct).contains_key(k),
        classes_of(names, direct)[k] == direct[j],
    decreases names.len(),
{
    if j < names.len() - 1 {
        lemma_classes_found(names.drop_last(), direct.drop_last(), k, j);
    }
}

impl Types {
    /// Whether the class list holds one entry per struct name.
    pub open spec fn wf(&self) -> bool {
        self.struct_names@.len() == self.struct_direct@.len()
    }

    /// Whether `id` names a value struct of the interface.
    pub fn is_struct(&self, id: &String) -> (r: bool)
        requires
            self.wf(),
        ensures
            r == self@.structs.contains_key(id@),
    {
        let mut i = self.struct_names.len();
        while i > 0
            invariant
                i <= self.struct_names@.len(),
                self.wf(),
                forall|l: int| i <= l < self.struct_names@.len() ==> self.struct_names@[l]@ != id@,
            decreases i,
        {
            i = i - 1;
            if str_eq(self.struct_names[i].as_str(), id.as_str()) {
                proof {
                    lemma_classes_found(self.struct_names@, self.struct_direct@, id@, i as int);
                }
                return true;
            }
        }
        proof {
            lemma_classes_absent(self.struct_names@, self.struct_direct@, id@);
        }
        false
    }

    /// Whether values of `ty` cross the boundary through caller-allocated
    /// storage rather than by value.
    pub fn needs_indirect_abi(&self, ty: &Type) -> (r: bool)
        requires
            self.struct_names@.len() == self.struct_direct@.len(),
        ensures
            r == indirect(self@.structs, ty@),
    {
        proof {
            reveal_with_fuel(crate::syntax::type_view, 2);
        }
        match ty {
            Type::Ident(id) => {
                let mut i = self.struct_names.len();
                while i > 0
                    invariant
                        i <= self.struct_names@.len(),
                        self.struct_names@.len() == self.struct_direct@.len(),
                        ty@ == TypeView::Ident(id@),
                        forall|l: int|
                            i <= l < self.struct_names@.len() ==> self.struct_names@[l]@ != id@,
                    decreases i,
                {
                    i = i - 1;
                    if str_eq(self.struct_names[i].as_str(), id.as_str()) {
                        proof {
                            lemma_classes_found(
                                self.struct_names@,
                                self.struct_direct@,
                                id@,
                                i as int,
                            );
                        }
                        return !self.struct_direct[i];
                    }
                }
                proof {
                    lemma_classes_absent(self.struct_names@, self.struct_direct@, id@);
                }
                ty.is_rust_string()
            },
            Type::RustVec(_) => true,
            _ => false,
        }
    }
}

/// Adds `ty` and the types inside it to `all`, skipping those it holds.
#[verifier::rlimit(30)]
fn visit_type(all: &mut Vec<Type>, ty: &Type)
    ensures
        views(final(all)@) == visit(views(old(all)@), ty@),
    decreases ty,
{
    let mut found = false;
    let mut j: usize = 0;
    while j < all.len()
        invariant
            j <= all@.len(),
            found == exists|l: int| 0 <= l < j && all@[l]@ == ty@,
        decreases all@.len() - j,
    {
        if all[j].same(ty) {
            found = true;
        }
        j = j + 1;
    }
    proof {
        if found {
            let l = choose|l: int| 0 <= l < j && all@[l]@ == ty@;
            assert(views(all@)[l] == ty@);
        } else {
            assert forall|l: int| 0 <= l < views(all@).len() implies views(all@)[l] != ty@ by {
                assert(all@[l]@ == views(all@)[l]);
            }
        }
    }
    if !found {
        let c = ty.copy();
        all.push(c);
        assert(views(all@) =~= views(old(all)@).push(ty@));
    }
    match ty {
        Type::RustBox(i) => visit_type(all, i),
        Type::RustVec(i) => visit_type(all, i),
        Type::UniquePtr(i) => visit_type(all, i),
        Type::Vector(i) => visit_type(all, i),
        Type::Ref(i, _) => visit_type(all, i),
        _ => {},
    }
}

/// Adds the types of `vars` to `all`, in order.
fn visit_var_types(all: &mut Vec<Type>, vars: &Vec<Var>)
    ensures
        views(final(all)@) == visit_vars(views(old(all)@), vars@),
{
    let mut i: usize = 0;
    while i < vars.len()
        invariant
            i <= vars@.len(),
            views(all@) == visit_vars(views(old(all)@), vars@.subrange(0, i as int)),
        decreases vars@.len() - i,
    {
        visit_type(all, &vars[i].ty);
        assert(vars@.subrange(0, i + 1).drop_last() =~= vars@.subrange(0, i as int));
        i = i + 1;
    }
    assert(vars@.subrange(0, i as int) =~= vars@);
}

/// Whether `id` is taken by an atom or a wrapper, so that no declared type
/// may use it.
pub fn is_reserved_name(id: &str) -> (r: bool)
    ensures
        r == is_reserved(id@),
{
    str_eq(id, "Box") || str_eq(id, "UniquePtr") || str_eq(id, "Vector") || str_eq(id, "Vec")
        || Atom::from(
        id,
    ).is_some()
}

fn name_check(id: &String, seen: &Vec<String>) -> (r: Option<ErrorKind>)
    ensures
        r == name_error(id@, name_views(seen@)),
{
    if is_reserved_name(id.as_str()) {
        return Some(ErrorKind::ReservedName);
    }
    assert(!is_reserved(id@));
    let mut j: usize = 0;
    while j < seen.len()
        invariant
            j <= seen@.len(),
            forall|l: int| 0 <= l < j ==> seen@[l]@ != id@,
            !is_reserved(id@),
        decreases seen@.len() - j,
    {
        if str_eq(seen[j].as_str(), id.as_str()) {
            assert(name_views(seen@)[j as int] == id@);
            assert(name_views(seen@).contains(id@));
            return Some(ErrorKind::DuplicateName);
        }
        j = j + 1;
    }
    assert(!name_views(seen@).contains(id@)) by {
        assert forall|l: int| 0 <= l < name_views(seen@).len() implies name_views(seen@)[l]
            != id@ by {
            assert(name_views(seen@)[l] == seen@[l]@);
        }
    }
    None
}

fn vector_elem_supported(t: &Type) -> (r: bool)
    ensures
        r == vector_elem_ok(t@),
{
    match t {
        Type::Ident(id) => str_eq(id.as_str(), "u8") || Atom::from(id.as_str()).is_none(),
        _ => false,
    }
}

/// Whether `ty` has a passing strategy.
pub fn is_supported(ty: &Type) -> (r: bool)
    ensures
        r == type_supported(ty@),
    decreases ty,
{
    proof {
        reveal_with_fuel(crate::syntax::type_view, 2);
    }
    match ty {
        Type::Ident(_) => true,
        Type::Str => true,
        Type::Void => false,
        Type::RustBox(i) => match &**i {
            Type::Ident(id) => Atom::from(id.as_str()).is_none(),
            _ => false,
        },
        Type::RustVec(i) => match &**i {
            Type::Ident(_) => true,
            _ => false,
        },
        Type::UniquePtr(i) => match &**i {
            Type::Ident(id) => Atom::from(id.as_str()).is_none(),
            Type::Vector(j) => vector_elem_supported(j),
            _ => false,
        },
        Type::Vector(i) => vector_elem_supported(i),
        Type::Ref(i, _) => is_supported(i),
    }
}

fn vars_check(vars: &Vec<Var>) -> (r: bool)
    ensures
        r == vars_supported(vars@),
{
    let mut i: usize = 0;
    while i < vars.len()
        invariant
            i <= vars@.len(),
            forall|l: int| 0 <= l < i ==> type_supported(#[trigger] vars@[l].ty@),
        decreases vars@.len() - i,
    {
        if !is_supported(&vars[i].ty) {
            return false;
        }
        i = i + 1;
    }
    true
}

fn signature_check(args: &Vec<Var>, ret: &Option<Type>) -> (r: bool)
    ensures
        r == fn_supported(args@, *ret),
{
    if !vars_check(args) {
        return false;
    }
    match ret {
        Some(t) => is_supported(t),
        None => true,
    }
}

fn primitive_check(t: &Type) -> (r: bool)
    ensures
        r == is_primitive(t@),
{
    match t {
        Type::Ident(id) => match Atom::from(id.as_str()) {
            Some(a) => !matches!(a, Atom::CxxString | Atom::RustString),
            None => false,
        },
        _ => false,
    }
}

/// Whether a value struct passes directly: every field a number or `bool`.
pub fn is_direct_struct(s: &Struct) -> (r: bool)
    ensures
        r == struct_is_direct(*s),
{
    let mut i: usize = 0;
    while i < s.fields.len()
        invariant
            i <= s.fields@.len(),
            forall|l: int| 0 <= l < i ==> is_primitive(#[trigger] s.fields@[l].ty@),
        decreases s.fields@.len() - i,
    {
        if !primitive_check(&s.fields[i].ty) {
            return false;
        }
        i = i + 1;
    }
    true
}

} // verus!

verus! {

/// Once a prefix of the declarations is rejected, so is the whole list, at
/// the same place.
pub proof fn lemma_first_error_prefix(apis: Seq<Api>, n: int)
    requires
        0 <= n <= apis.len(),
        first_error(apis.subrange(0, n)) is Some,
    ensures
        first_error(apis) == first_error(apis.subrange(0, n)),
    decreases apis.len() - n,
{
    if n < apis.len() {
        assert(apis.subrange(0, n + 1).drop_last() =~= apis.subrange(0, n));
        lemma_first_error_prefix(apis, n + 1);
    } else {
        assert(apis.subrange(0, n) =~= apis);
    }
}

impl Types {
    /// Scans an interface description once: rejects it at its first bad
    /// declaration, or gives every distinct type that it uses, in order of
    /// first use, and the passing class of each value struct.
    #[verifier::rlimit(30)]
    pub fn collect(apis: &Vec<Api>) -> (r: Result<Types, Error>)
        ensures
            match r {
                Ok(t) => {
                    &&& first_error(apis@) is None
                    &&& t@.all == collected(apis@)
                    &&& t@.structs == struct_classes(apis@)
                    &&& t.struct_names@.len() == t.struct_direct@.len()
                },
                Err(e) => first_error(apis@) == Some((e.kind, e.ident@)),
            },
    {
        let mut all: Vec<Type> = Vec::new();
        let mut seen: Vec<String> = Vec::new();
        let mut struct_names: Vec<String> = Vec::new();
        let mut struct_direct: Vec<bool> = Vec::new();
        let mut i: usize = 0;
        assert(views(all@) =~= Seq::empty());
        assert(name_views(seen@) =~= Seq::empty());
        while i < apis.len()
            invariant
                i <= apis@.len(),
                first_error(apis@.subrange(0, i as int)) is None,
                name_views(seen@) == names_of(apis@.subrange(0, i as int)),
                views(all@) == collected(apis@.subrange(0, i as int)),
                struct_names@.len() == struct_direct@.len(),
                classes_of(struct_names@, struct_direct@) == struct_classes(
                    apis@.subrange(0, i as int),
                ),
            decreases apis@.len() - i,
        {
            let ghost pre = apis@.subrange(0, i as int);
            let ghost next = apis@.subrange(0, i + 1);
            assert(next.drop_last() =~= pre);
            assert(next.last() == apis@[i as int]);
            match &apis[i] {
                Api::Include(_) => {},
                Api::Struct(s) => {
                    match name_check(&s.ident, &seen) {
                        Some(k) => {
                            proof {
                                lemma_first_error_prefix(apis@, i + 1);
                            }
                            return Err(Error { kind: k, ident: s.ident.clone() });
                        },
                        None => {},
                    }
                    if s.fields.len() == 0 {
                        proof {
                            lemma_first_error_prefix(apis@, i + 1);
                        }
                        return Err(Error { kind: ErrorKind::EmptyStruct, ident: s.ident.clone() });
                    }
                    if !vars_check(&s.fields) {
                        proof {
                            lemma_first_error_prefix(apis@, i + 1);
                        }
                        return Err(
                            Error { kind: ErrorKind::UnsupportedType, ident: s.ident.clone() },
                        );
                    }
                    let ghost old_seen = seen@;
                    seen.push(s.ident.clone());
                    assert(name_views(seen@) =~= name_views(old_seen).push(s.ident@));
                    let direct = is_direct_struct(s);
                    let ghost old_names = struct_names@;
                    let ghost old_direct = struct_direct@;
                    struct_names.push(s.ident.clone());
                    struct_direct.push(direct);
                    assert(struct_names@.drop_last() =~= old_names);
                    assert(struct_direct@.drop_last() =~= old_direct);
                    visit_var_types(&mut all, &s.fields);
                },
                Api::CxxType(e) | Api::RustType(e) => {
                    match name_check(&e.ident, &seen) {
                        Some(k) => {
                            proof {
                                lemma_first_error_prefix(apis@, i + 1);
                            }
                            return Err(Error { kind: k, ident: e.ident.clone() });
                        },
                        None => {},
                    }
                    let ghost old_seen = seen@;
                    seen.push(e.ident.clone());
                    assert(name_views(seen@) =~= name_views(old_seen).push(e.ident@));
                },
                Api::CxxFunction(f) | Api::RustFunction(f) => {
                    if !signature_check(&f.args, &f.ret) {
                        proof {
                            lemma_first_error_prefix(apis@, i + 1);
                        }
                        return Err(Error { kind: ErrorKind::UnsupportedType, ident: f.ident.clone() });
                    }
                    visit_var_types(&mut all, &f.args);
                    match &f.ret {
                        Some(t) => visit_type(&mut all, t),
                        None => {},
                    }
                },
            }
            i = i + 1;
        }
        assert(apis@.subrange(0, i as int) =~= apis@);
        Ok(Types { all, struct_names, struct_direct })
    }
}

} // verus!
