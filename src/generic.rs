//! Generic parameters of items and generic arguments of paths.
use vstd::prelude::*;

use crate::common::{GenericId, SpanId, SymbolId};
use crate::ffi::{FfiOption, FfiSlice};
use crate::ty::TyKind;

verus! {

/// A lifetime written in a generic argument list; `'_` and elided ones have no
/// name.
#[derive(Debug)]
pub struct Lifetime {
    pub name: Option<SymbolId>,
    pub span: Option<SpanId>,
}

/// One generic argument.
#[derive(Debug)]
#[non_exhaustive]
pub enum GenericArg {
    Lifetime(Lifetime),
    Type(TyKind),
}

/// The generic arguments of a path, like `<u8>` in `generic_item::<u8>(32)`.
#[derive(Debug)]
pub struct GenericArgs {
    args: FfiSlice<GenericArg>,
}

impl GenericArgs {
    pub closed spec fn spec_args(&self) -> Seq<GenericArg> {
        self.args@
    }

    pub fn new(args: FfiSlice<GenericArg>) -> (r: GenericArgs)
        ensures
            r.spec_args() == args@,
    {
        GenericArgs { args }
    }

    pub fn args(&self) -> (r: &[GenericArg])
        ensures
            r@ == self.spec_args(),
    {
        self.args.get()
    }
}

/// What every generic parameter offers.
pub trait GenericParamData {
    spec fn spec_span(&self) -> Option<SpanId>;

    fn span(&self) -> (r: Option<SpanId>)
        ensures
            r == self.spec_span(),
    ;
}

/// A lifetime parameter like `'a` in `fn f<'a>()`.
#[derive(Debug)]
pub struct LifetimeParam {
    pub id: GenericId,
    pub name: SymbolId,
    pub span: FfiOption<SpanId>,
}

/// A type parameter like `T` in `fn f<T: Copy>()`.
#[derive(Debug)]
pub struct TypeParam {
    pub id: GenericId,
    pub name: SymbolId,
    pub span: FfiOption<SpanId>,
}

impl GenericParamData for LifetimeParam {
    open spec fn spec_span(&self) -> Option<SpanId> {
        self.span.view_opt()
    }

    fn span(&self) -> (r: Option<SpanId>) {
        match self.span.get() {
            Some(s) => Some(*s),
            None => None,
        }
    }
}

impl GenericParamData for TypeParam {
    open spec fn spec_span(&self) -> Option<SpanId> {
        self.span.view_opt()
    }

    fn span(&self) -> (r: Option<SpanId>) {
        match self.span.get() {
            Some(s) => Some(*s),
            None => None,
        }
    }
}

/// One generic parameter.
#[derive(Debug)]
#[non_exhaustive]
pub enum GenericParamKind {
    Lifetime(LifetimeParam),
    Type(TypeParam),
}

impl GenericParamKind {
    /// The span of whichever parameter this is.
    pub open spec fn spec_span(&self) -> Option<SpanId> {
        match self {
            GenericParamKind::Lifetime(p) => p.spec_span(),
            GenericParamKind::Type(p) => p.spec_span(),
        }
    }

    pub fn span(&self) -> (r: Option<SpanId>)
        ensures
            r == self.spec_span(),
    {
        match self {
            GenericParamKind::Lifetime(p) => p.span(),
            GenericParamKind::Type(p) => p.span(),
        }
    }
}

/// The generic parameters of an item, like `<T: Copy>` in `fn f<T: Copy>()`.
#[derive(Debug)]
pub struct GenericParams {
    params: FfiSlice<GenericParamKind>,
}

impl GenericParams {
    pub closed spec fn spec_params(&self) -> Seq<GenericParamKind> {
        self.params@
    }

    pub fn new(params: FfiSlice<GenericParamKind>) -> (r: GenericParams)
        ensures
            r.spec_params() == params@,
    {
        GenericParams { params }
    }

    pub fn params(&self) -> (r: &[GenericParamKind])
        ensures
            r@ == self.spec_params(),
    {
        self.params.get()
    }
}

} // verus!
