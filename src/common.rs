//! Opaque identifiers and small shared enumerations.
use vstd::prelude::*;
use vstd::string::*;

verus! {

/// Identifies an item for the length of one pass. Equality compares the
/// numeric identity only.
#[derive(Clone, Copy, Debug, PartialEq, Eq, Structural, Hash)]
pub struct ItemId {
    pub raw: u64,
}

/// Identifies an interned symbol; its text is resolved through the context.
#[derive(Clone, Copy, Debug, PartialEq, Eq, Structural, Hash)]
pub struct SymbolId {
    pub raw: u64,
}

/// Identifies a source span; the span itself is resolved through the context.
#[derive(Clone, Copy, Debug, PartialEq, Eq, Structural, Hash)]
pub struct SpanId {
    pub raw: u64,
}

/// Identifies a user defined type definition (struct, enum, union, ...).
#[derive(Clone, Copy, Debug, PartialEq, Eq, Structural, Hash)]
pub struct TyDefId {
    pub raw: u64,
}

/// Identifies a generic parameter.
#[derive(Clone, Copy, Debug, PartialEq, Eq, Structural, Hash)]
pub struct GenericId {
    pub raw: u64,
}

/// Identifies a body (the executable part of a function or constant).
#[derive(Clone, Copy, Debug, PartialEq, Eq, Structural, Hash)]
pub struct BodyId {
    pub raw: u64,
}

/// Identifies a field of a struct or union, or of an enum variant.
#[derive(Clone, Copy, Debug, PartialEq, Eq, Structural, Hash)]
pub struct FieldId {
    pub raw: u64,
}

/// Identifies an enum variant.
#[derive(Clone, Copy, Debug, PartialEq, Eq, Structural, Hash)]
pub struct VariantId {
    pub raw: u64,
}

/// Identifies a statement.
#[derive(Clone, Copy, Debug, PartialEq, Eq, Structural, Hash)]
pub struct StmtId {
    pub raw: u64,
}

/// Identifies an expression.
#[derive(Clone, Copy, Debug, PartialEq, Eq, Structural, Hash)]
pub struct ExprId {
    pub raw: u64,
}

/// The calling convention named in an `extern` qualifier.
#[derive(Clone, Copy, Debug, PartialEq, Eq, Structural, Hash)]
#[non_exhaustive]
pub enum Abi {
    /// No ABI was written, the language default applies.
    Default,
    /// `extern "C"`, or a bare `extern`.
    C,
    /// Any other ABI, which is not modelled yet.
    Other,
}

/// Whether an item is declared `unsafe`.
#[derive(Clone, Copy, Debug, PartialEq, Eq, Structural, Hash)]
pub enum Safety {
    Safe,
    Unsafe,
}

/// Whether a reference or pointer allows mutation.
#[derive(Clone, Copy, Debug, PartialEq, Eq, Structural, Hash)]
pub enum Mutability {
    Unmut,
    Mut,
}

/// The kinds of numeric primitive types.
#[derive(Clone, Copy, Debug, PartialEq, Eq, Structural, Hash)]
#[non_exhaustive]
pub enum NumKind {
    Isize,
    I8,
    I16,
    I32,
    I64,
    I128,
    Usize,
    U8,
    U16,
    U32,
    U64,
    U128,
    F32,
    F64,
}

impl NumKind {
    /// The name of the kind as written in its variant, like `U8`.
    pub open spec fn spec_name(self) -> Seq<char> {
        match self {
            NumKind::Isize => "Isize"@,
            NumKind::I8 => "I8"@,
            NumKind::I16 => "I16"@,
            NumKind::I32 => "I32"@,
            NumKind::I64 => "I64"@,
            NumKind::I128 => "I128"@,
            NumKind::Usize => "Usize"@,
            NumKind::U8 => "U8"@,
            NumKind::U16 => "U16"@,
            NumKind::U32 => "U32"@,
            NumKind::U64 => "U64"@,
            NumKind::U128 => "U128"@,
            NumKind::F32 => "F32"@,
            NumKind::F64 => "F64"@,
        }
    }

    /// The name of the kind, like `U8`.
    pub fn to_string(&self) -> (r: String)
        ensures
            r@ == self.spec_name(),
    {
        match self {
            NumKind::Isize => String::from_str("Isize"),
            NumKind::I8 => String::from_str("I8"),
            NumKind::I16 => String::from_str("I16"),
            NumKind::I32 => String::from_str("I32"),
            NumKind::I64 => String::from_str("I64"),
            NumKind::I128 => String::from_str("I128"),
            NumKind::Usize => String::from_str("Usize"),
            NumKind::U8 => String::from_str("U8"),
            NumKind::U16 => String::from_str("U16"),
            NumKind::U32 => String::from_str("U32"),
            NumKind::U64 => String::from_str("U64"),
            NumKind::U128 => String::from_str("U128"),
            NumKind::F32 => String::from_str("F32"),
            NumKind::F64 => String::from_str("F64"),
        }
    }

    /// The signed integer kinds.
    pub open spec fn spec_is_signed(self) -> bool {
        matches!(self, NumKind::Isize | NumKind::I8 | NumKind::I16 | NumKind::I32 | NumKind::I64 | NumKind::I128)
    }

    /// The unsigned integer kinds.
    pub open spec fn spec_is_unsigned(self) -> bool {
        matches!(self, NumKind::Usize | NumKind::U8 | NumKind::U16 | NumKind::U32 | NumKind::U64 | NumKind::U128)
    }

    /// The floating point kinds.
    pub open spec fn spec_is_float(self) -> bool {
        matches!(self, NumKind::F32 | NumKind::F64)
    }

    pub fn is_signed(&self) -> (r: bool)
        ensures
            r == self.spec_is_signed(),
    {
        match self {
            NumKind::Isize | NumKind::I8 | NumKind::I16 | NumKind::I32 | NumKind::I64 | NumKind::I128 => true,
            _ => false,
        }
    }

    pub fn is_unsigned(&self) -> (r: bool)
        ensures
            r == self.spec_is_unsigned(),
    {
        match self {
            NumKind::Usize | NumKind::U8 | NumKind::U16 | NumKind::U32 | NumKind::U64 | NumKind::U128 => true,
            _ => false,
        }
    }

    pub fn is_float(&self) -> (r: bool)
        ensures
            r == self.spec_is_float(),
    {
        match self {
            NumKind::F32 | NumKind::F64 => true,
            _ => false,
        }
    }

    /// Every numeric kind that is not a floating point kind is an integer kind.
    pub fn is_integer(&self) -> (r: bool)
        ensures
            r == !self.spec_is_float(),
    {
        !self.is_float()
    }
}

/// The kinds of textual primitive types.
#[derive(Clone, Copy, Debug, PartialEq, Eq, Structural, Hash)]
#[non_exhaustive]
pub enum TextKind {
    Char,
    Str,
}

impl TextKind {
    /// The name of the kind as written in its variant.
    pub open spec fn spec_name(self) -> Seq<char> {
        match self {
            TextKind::Char => "Char"@,
            TextKind::Str => "Str"@,
        }
    }

    /// The name of the kind, `Char` or `Str`.
    pub fn to_string(&self) -> (r: String)
        ensures
            r@ == self.spec_name(),
    {
        match self {
            TextKind::Char => String::from_str("Char"),
            TextKind::Str => String::from_str("Str"),
        }
    }
}

} // verus!
