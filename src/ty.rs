//! The semantic representation of types, as the host resolved them.
use vstd::prelude::*;
use vstd::string::*;

use crate::common::{GenericId, ItemId, Mutability, NumKind, SpanId, TextKind, TyDefId};

verus! {

/// The `bool` type.
#[derive(Debug)]
pub struct BoolTy {}

impl BoolTy {
    pub fn new() -> (r: BoolTy) {
        BoolTy {}
    }

    /// The text of the type: `bool`.
    pub fn to_string(&self) -> (r: String)
        ensures
            r@ == "bool"@,
    {
        String::from_str("bool")
    }
}

/// A numeric type like `u32`, `i32` or `f64`.
#[derive(Debug)]
pub struct NumTy {
    numeric_kind: NumKind,
}

impl NumTy {
    pub closed spec fn spec_kind(&self) -> NumKind {
        self.numeric_kind
    }

    pub fn new(numeric_kind: NumKind) -> (r: NumTy)
        ensures
            r.spec_kind() == numeric_kind,
    {
        NumTy { numeric_kind }
    }

    pub fn numeric_kind(&self) -> (r: NumKind)
        ensures
            r == self.spec_kind(),
    {
        self.numeric_kind
    }

    pub fn is_signed(&self) -> (r: bool)
        ensures
            r == self.spec_kind().spec_is_signed(),
    {
        self.numeric_kind.is_signed()
    }

    pub fn is_unsigned(&self) -> (r: bool)
        ensures
            r == self.spec_kind().spec_is_unsigned(),
    {
        self.numeric_kind.is_unsigned()
    }

    pub fn is_float(&self) -> (r: bool)
        ensures
            r == self.spec_kind().spec_is_float(),
    {
        self.numeric_kind.is_float()
    }

    pub fn is_integer(&self) -> (r: bool)
        ensures
            r == !self.spec_kind().spec_is_float(),
    {
        self.numeric_kind.is_integer()
    }

    /// The text of the type: the name of its kind, like `U8`.
    pub fn to_string(&self) -> (r: String)
        ensures
            r@ == self.spec_kind().spec_name(),
    {
        self.numeric_kind.to_string()
    }
}

/// A numeric type is exactly one of signed, unsigned or floating point, and it
/// is an integer type exactly when it is not floating point.
pub proof fn lemma_num_classification(t: NumTy)
    ensures
        t.spec_kind().spec_is_signed() as int + t.spec_kind().spec_is_unsigned() as int
            + t.spec_kind().spec_is_float() as int == 1,
        !t.spec_kind().spec_is_float() <==> (t.spec_kind().spec_is_signed()
            || t.spec_kind().spec_is_unsigned()),
{
}

/// A textual type, `char` or `str`.
#[derive(Debug)]
pub struct TextTy {
    textual_kind: TextKind,
}

impl TextTy {
    pub closed spec fn spec_kind(&self) -> TextKind {
        self.textual_kind
    }

    pub fn new(textual_kind: TextKind) -> (r: TextTy)
        ensures
            r.spec_kind() == textual_kind,
    {
        TextTy { textual_kind }
    }

    pub fn textual_kind(&self) -> (r: TextKind)
        ensures
            r == self.spec_kind(),
    {
        self.textual_kind
    }

    pub fn is_str(&self) -> (r: bool)
        ensures
            r == (self.spec_kind() == TextKind::Str),
    {
        matches!(self.textual_kind, TextKind::Str)
    }

    pub fn is_char(&self) -> (r: bool)
        ensures
            r == (self.spec_kind() == TextKind::Char),
    {
        matches!(self.textual_kind, TextKind::Char)
    }

    /// The text of the type: the name of its kind, `Char` or `Str`.
    pub fn to_string(&self) -> (r: String)
        ensures
            r@ == self.spec_kind().spec_name(),
    {
        self.textual_kind.to_string()
    }
}

/// The never type `!`.
#[derive(Debug)]
pub struct NeverTy {}

impl NeverTy {
    pub fn new() -> (r: NeverTy) {
        NeverTy {}
    }

    /// The text of the type: `!`.
    pub fn to_string(&self) -> (r: String)
        ensures
            r@ == "!"@,
    {
        String::from_str("!")
    }
}

/// A tuple type like `()` or `(T, U)`.
#[derive(Debug)]
pub struct TupleTy {
    pub types: Vec<TyKind>,
}

/// An array with a known size, like `[T; N]`.
#[derive(Debug)]
pub struct ArrayTy {
    pub inner: Box<TyKind>,
}

/// A slice like `[T]`.
#[derive(Debug)]
pub struct SliceTy {
    pub inner: Box<TyKind>,
}

/// The type of one function item.
#[derive(Debug)]
pub struct FnTy {
    pub fn_id: ItemId,
}

/// The type of one closure.
#[derive(Debug)]
pub struct ClosureTy {
    pub closure_id: ItemId,
}

/// A reference like `&T` or `&mut T`.
#[derive(Debug)]
pub struct RefTy {
    inner: Box<TyKind>,
    mutability: Mutability,
}

impl RefTy {
    pub closed spec fn spec_inner(&self) -> TyKind {
        *self.inner
    }

    pub closed spec fn spec_mutability(&self) -> Mutability {
        self.mutability
    }

    pub fn new(inner: TyKind, mutability: Mutability) -> (r: RefTy)
        ensures
            r.spec_inner() == inner,
            r.spec_mutability() == mutability,
    {
        RefTy { inner: Box::new(inner), mutability }
    }

    pub fn inner_ty(&self) -> (r: &TyKind)
        ensures
            *r == self.spec_inner(),
    {
        &self.inner
    }

    pub fn mutability(&self) -> (r: Mutability)
        ensures
            r == self.spec_mutability(),
    {
        self.mutability
    }

    /// Gives up the reference and returns the referenced type.
    pub fn into_inner(self) -> (r: TyKind)
        ensures
            r == self.spec_inner(),
    {
        *self.inner
    }
}

/// A raw pointer like `*const T` or `*mut T`.
#[derive(Debug)]
pub struct RawPtrTy {
    pub inner: Box<TyKind>,
    pub mutability: Mutability,
}

/// A function pointer like `fn(T) -> U`.
#[derive(Debug)]
pub struct FnPtrTy {
    pub is_unsafe: bool,
    pub params: Vec<TyKind>,
    pub return_ty: Box<TyKind>,
}

/// A trait object like `dyn Trait`.
#[derive(Debug)]
pub struct TraitObjTy {
    pub trait_ids: Vec<TyDefId>,
}

/// A user defined data type.
#[derive(Debug)]
pub struct AdtTy {
    pub def_id: TyDefId,
}

/// A type named by a generic parameter.
#[derive(Debug)]
pub struct GenericTy {
    pub generic_id: GenericId,
}

/// A type alias whose concrete type is not known yet, as in traits.
#[derive(Debug)]
pub struct AliasTy {
    pub alias_item: ItemId,
}

/// A type that the model does not represent yet.
#[derive(Debug)]
pub struct UnstableTy {
    pub span: SpanId,
}

/// The semantic representation of a type.
#[derive(Debug)]
#[non_exhaustive]
pub enum TyKind {
    Bool(BoolTy),
    Num(NumTy),
    Text(TextTy),
    Never(NeverTy),
    Tuple(TupleTy),
    Array(ArrayTy),
    Slice(SliceTy),
    FnTy(FnTy),
    ClosureTy(ClosureTy),
    Ref(RefTy),
    RawPtr(RawPtrTy),
    FnPtr(FnPtrTy),
    TraitObj(TraitObjTy),
    Adt(AdtTy),
    Generic(GenericTy),
    Alias(AliasTy),
    Unstable(UnstableTy),
}

impl TyKind {
    /// The type with every outer reference taken off.
    pub open spec fn spec_peel_refs(self) -> TyKind
        decreases self,
    {
        match self {
            TyKind::Ref(r) => r.spec_inner().spec_peel_refs(),
            _ => self,
        }
    }

    pub fn is_ref(&self) -> (r: bool)
        ensures
            r == self is Ref,
    {
        matches!(self, TyKind::Ref(_))
    }

    /// Peels off all reference types until none is left:
    /// `u8` stays `u8`, `&&u8` becomes `u8`, `&*const &u8` becomes `*const &u8`.
    pub fn peel_refs(self) -> (r: TyKind)
        ensures
            r == self.spec_peel_refs(),
            !(r is Ref),
        decreases self,
    {
        proof {
            lemma_peel_refs_idempotent(self);
        }
        match self {
            TyKind::Ref(r) => r.into_inner().peel_refs(),
            other => other,
        }
    }
}

/// Peeling references twice gives what peeling once gives, and what is left is
/// never a reference.
pub proof fn lemma_peel_refs_idempotent(t: TyKind)
    ensures
        t.spec_peel_refs().spec_peel_refs() == t.spec_peel_refs(),
        !(t.spec_peel_refs() is Ref),
    decreases t,
{
    match t {
        TyKind::Ref(r) => lemma_peel_refs_idempotent(r.spec_inner()),
        _ => {},
    }
}

} // verus!
