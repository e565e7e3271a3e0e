use vstd::prelude::*;

verus! {


/// A type as written in an interface description.
#[derive(Debug)]
pub enum Type {
    /// A primitive atom, a value struct or an opaque handle, by name.
    Ident(String),
    /// An owned pointer to a managed-side value.
    RustBox(Box<Type>),
    /// A managed-side growable sequence.
    RustVec(Box<Type>),
    /// An owned pointer to a native-side value.
    UniquePtr(Box<Type>),
    /// A native-side growable sequence.
    Vector(Box<Type>),
    /// A borrow; the flag tells an exclusive one from a shared one.
    Ref(Box<Type>, bool),
    /// A borrowed string slice.
    Str,
    /// The unit type.
    Void,
}

/// The mathematical value of a [`Type`]: the same shape, names as character
/// sequences.
pub enum TypeView {
    Ident(Seq<char>),
    RustBox(Box<TypeView>),
    RustVec(Box<TypeView>),
    UniquePtr(Box<TypeView>),
    Vector(Box<TypeView>),
    Ref(Box<TypeView>, bool),
    Str,
    Void,
}

pub open spec fn type_view(t: &Type) -> TypeView
    decreases t,
{
    match t {
        Type::Ident(s) => TypeView::Ident(s@),
        Type::RustBox(i) => TypeView::RustBox(Box::new(type_view(i))),
        Type::RustVec(i) => TypeView::RustVec(Box::new(type_view(i))),
        Type::UniquePtr(i) => TypeView::UniquePtr(Box::new(type_view(i))),
        Type::Vector(i) => TypeView::Vector(Box::new(type_view(i))),
        Type::Ref(i, m) => TypeView::Ref(Box::new(type_view(i)), *m),
        Type::Str => TypeView::Str,
        Type::Void => TypeView::Void,
    }
}

impl View for Type {
    type V = TypeView;

    open spec fn view(&self) -> TypeView {
        type_view(self)
    }
}

/// Whether the unit type occurs nowhere in `t`: it stands only for a missing
/// return type, never in an argument, a field or a type argument.
pub open spec fn no_void(t: TypeView) -> bool
    decreases t,
{
    match t {
        TypeView::Void => false,
        TypeView::RustBox(i) => no_void(*i),
        TypeView::RustVec(i) => no_void(*i),
        TypeView::UniquePtr(i) => no_void(*i),
        TypeView::Vector(i) => no_void(*i),
        TypeView::Ref(i, _) => no_void(*i),
        _ => true,
    }
}

/// Whether `t` is the managed-side owned string.
pub open spec fn is_rust_string(t: TypeView) -> bool {
    t == TypeView::Ident("String"@)
}

/// A named value: a function argument or a struct field.
#[derive(Debug)]
pub struct Var {
    pub ident: String,
    pub ty: Type,
}

/// A value struct: its fields in layout order.
#[derive(Debug)]
pub struct Struct {
    pub doc: Vec<String>,
    /// The traits that the managed-side definition derives.
    pub derives: Vec<String>,
    pub ident: String,
    pub fields: Vec<Var>,
}

/// An opaque type, owned by the side whose block declares it.
#[derive(Debug)]
pub struct ExternType {
    pub ident: String,
}

/// The receiver of a method: the type it is called on, and whether the
/// borrow is exclusive.
#[derive(Debug)]
pub struct Receiver {
    pub ident: String,
    pub mutable: bool,
}

/// A boundary function.
#[derive(Debug)]
pub struct ExternFn {
    pub doc: Vec<String>,
    pub ident: String,
    /// The receiver of a method; none for a free function.
    pub receiver: Option<Receiver>,
    pub args: Vec<Var>,
    pub ret: Option<Type>,
    pub throws: bool,
}

/// One declaration of an interface description.
#[derive(Debug)]
pub enum Api {
    Include(String),
    Struct(Struct),
    CxxType(ExternType),
    RustType(ExternType),
    CxxFunction(ExternFn),
    RustFunction(ExternFn),
}

/// The return type of a signature as a view.
pub open spec fn ret_view(ret: Option<Type>) -> Option<TypeView> {
    match ret {
        Some(t) => Some(t@),
        None => None,
    }
}

/// Whether the types of `vars` are free of the unit type.
pub open spec fn vars_no_void(vars: Seq<Var>) -> bool {
    forall|i: int| 0 <= i < vars.len() ==> no_void(#[trigger] vars[i].ty@)
}

/// Whether a function has any parameter before its out-parameter: a
/// receiver or an argument.
pub open spec fn has_params(efn: &ExternFn) -> bool {
    efn.args@.len() > 0 || efn.receiver is Some
}

/// Whether every type that a function names is free of the unit type.
pub open spec fn fn_types_ok(efn: &ExternFn) -> bool {
    &&& vars_no_void(efn.args@)
    &&& match efn.ret {
        Some(t) => no_void(t@),
        None => true,
    }
}

/// Whether every field type of a struct is free of the unit type.
pub open spec fn struct_types_ok(s: &Struct) -> bool {
    vars_no_void(s.fields@)
}


impl Type {
    /// A copy of this type, node for node.
    pub fn copy(&self) -> (r: Type)
        ensures
            r@ == self@,
        decreases self,
    {
        match self {
            Type::Ident(s) => Type::Ident(s.clone()),
            Type::RustBox(i) => Type::RustBox(Box::new(i.copy())),
            Type::RustVec(i) => Type::RustVec(Box::new(i.copy())),
            Type::UniquePtr(i) => Type::UniquePtr(Box::new(i.copy())),
            Type::Vector(i) => Type::Vector(Box::new(i.copy())),
            Type::Ref(i, m) => Type::Ref(Box::new(i.copy()), *m),
            Type::Str => Type::Str,
            Type::Void => Type::Void,
        }
    }

    /// Whether two types are the same, node for node.
    pub fn same(&self, other: &Type) -> (r: bool)
        ensures
            r == (self@ == other@),
        decreases self,
    {
        match (self, other) {
            (Type::Ident(a), Type::Ident(b)) => crate::strings::str_eq(a.as_str(), b.as_str()),
            (Type::RustBox(a), Type::RustBox(b)) => a.same(b),
            (Type::RustVec(a), Type::RustVec(b)) => a.same(b),
            (Type::UniquePtr(a), Type::UniquePtr(b)) => a.same(b),
            (Type::Vector(a), Type::Vector(b)) => a.same(b),
            (Type::Ref(a, m), Type::Ref(b, n)) => *m == *n && a.same(b),
            (Type::Str, Type::Str) => true,
            (Type::Void, Type::Void) => true,
            _ => false,
        }
    }

    /// Whether this is the managed-side owned string.
    pub fn is_rust_string(&self) -> (r: bool)
        ensures
            r == is_rust_string(self@),
    {
        match self {
            Type::Ident(s) => crate::strings::str_eq(s.as_str(), "String"),
            _ => false,
        }
    }
}

} // verus!
