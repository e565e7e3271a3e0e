use vstd::prelude::*;
use crate::strings::str_eq;

verus! {

/// The primitive types that both sides know by name.
#[derive(Clone, Copy, Debug, PartialEq, Eq, Structural)]
pub enum Atom {
    Bool,
    U8,
    U16,
    U32,
    U64,
    Usize,
    I8,
    I16,
    I32,
    I64,
    Isize,
    F32,
    F64,
    CxxString,
    RustString,
}

/// The identifier under which an atom is written in an interface description.
pub open spec fn atom_name(a: Atom) -> Seq<char> {
    match a {
        Atom::Bool => "bool"@,
        Atom::U8 => "u8"@,
        Atom::U16 => "u16"@,
        Atom::U32 => "u32"@,
        Atom::U64 => "u64"@,
        Atom::Usize => "usize"@,
        Atom::I8 => "i8"@,
        Atom::I16 => "i16"@,
        Atom::I32 => "i32"@,
        Atom::I64 => "i64"@,
        Atom::Isize => "isize"@,
        Atom::F32 => "f32"@,
        Atom::F64 => "f64"@,
        Atom::CxxString => "CxxString"@,
        Atom::RustString => "String"@,
    }
}

/// The atom that an identifier names, if any.
pub open spec fn atom_of(s: Seq<char>) -> Option<Atom> {
    if s == "bool"@ {
        Some(Atom::Bool)
    } else if s == "u8"@ {
        Some(Atom::U8)
    } else if s == "u16"@ {
        Some(Atom::U16)
    } else if s == "u32"@ {
        Some(Atom::U32)
    } else if s == "u64"@ {
        Some(Atom::U64)
    } else if s == "usize"@ {
        Some(Atom::Usize)
    } else if s == "i8"@ {
        Some(Atom::I8)
    } else if s == "i16"@ {
        Some(Atom::I16)
    } else if s == "i32"@ {
        Some(Atom::I32)
    } else if s == "i64"@ {
        Some(Atom::I64)
    } else if s == "isize"@ {
        Some(Atom::Isize)
    } else if s == "f32"@ {
        Some(Atom::F32)
    } else if s == "f64"@ {
        Some(Atom::F64)
    } else if s == "CxxString"@ {
        Some(Atom::CxxString)
    } else if s == "String"@ {
        Some(Atom::RustString)
    } else {
        None
    }
}

/// The native spelling of an atom.
pub open spec fn atom_cxx(a: Atom) -> Seq<char> {
    match a {
        Atom::Bool => "bool"@,
        Atom::U8 => "uint8_t"@,
        Atom::U16 => "uint16_t"@,
        Atom::U32 => "uint32_t"@,
        Atom::U64 => "uint64_t"@,
        Atom::Usize => "size_t"@,
        Atom::I8 => "int8_t"@,
        Atom::I16 => "int16_t"@,
        Atom::I32 => "int32_t"@,
        Atom::I64 => "int64_t"@,
        Atom::Isize => "::rust::isize"@,
        Atom::F32 => "float"@,
        Atom::F64 => "double"@,
        Atom::CxxString => "::std::string"@,
        Atom::RustString => "::rust::String"@,
    }
}

/// Whether an atom is a plain number or `bool`: a value that crosses the
/// boundary by bitwise copy.
pub open spec fn atom_is_primitive(a: Atom) -> bool {
    a != Atom::CxxString && a != Atom::RustString
}

impl Atom {
    /// The atom that `ident` names, if any.
    pub fn from(ident: &str) -> (r: Option<Atom>)
        ensures
            r == atom_of(ident@),
    {
        if str_eq(ident, "bool") {
            Some(Atom::Bool)
        } else if str_eq(ident, "u8") {
            Some(Atom::U8)
        } else if str_eq(ident, "u16") {
            Some(Atom::U16)
        } else if str_eq(ident, "u32") {
            Some(Atom::U32)
        } else if str_eq(ident, "u64") {
            Some(Atom::U64)
        } else if str_eq(ident, "usize") {
            Some(Atom::Usize)
        } else if str_eq(ident, "i8") {
            Some(Atom::I8)
        } else if str_eq(ident, "i16") {
            Some(Atom::I16)
        } else if str_eq(ident, "i32") {
            Some(Atom::I32)
        } else if str_eq(ident, "i64") {
            Some(Atom::I64)
        } else if str_eq(ident, "isize") {
            Some(Atom::Isize)
        } else if str_eq(ident, "f32") {
            Some(Atom::F32)
        } else if str_eq(ident, "f64") {
            Some(Atom::F64)
        } else if str_eq(ident, "CxxString") {
            Some(Atom::CxxString)
        } else if str_eq(ident, "String") {
            Some(Atom::RustString)
        } else {
            None
        }
    }

    /// The native spelling of this atom.
    pub fn to_cxx(&self) -> (r: &'static str)
        ensures
            r@ == atom_cxx(*self),
    {
        match self {
            Atom::Bool => "bool",
            Atom::U8 => "uint8_t",
            Atom::U16 => "uint16_t",
            Atom::U32 => "uint32_t",
            Atom::U64 => "uint64_t",
            Atom::Usize => "size_t",
            Atom::I8 => "int8_t",
            Atom::I16 => "int16_t",
            Atom::I32 => "int32_t",
            Atom::I64 => "int64_t",
            Atom::Isize => "::rust::isize",
            Atom::F32 => "float",
            Atom::F64 => "double",
            Atom::CxxString => "::std::string",
            Atom::RustString => "::rust::String",
        }
    }
}

} // verus!
