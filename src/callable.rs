//! The callable capability: what free functions, methods and other callable
//! nodes share.
use vstd::prelude::*;

use crate::common::{Abi, SpanId, SymbolId};
use crate::ffi::{FfiOption, FfiSlice};
use crate::ty::TyKind;

verus! {

/// One parameter of a callable. A receiver may have no name.
#[derive(Debug)]
pub struct Parameter {
    name: FfiOption<SymbolId>,
    ty: FfiOption<TyKind>,
    span: FfiOption<SpanId>,
}

impl Parameter {
    pub closed spec fn spec_name(&self) -> Option<SymbolId> {
        self.name.view_opt()
    }

    pub closed spec fn spec_ty(&self) -> Option<TyKind> {
        self.ty.view_opt()
    }

    pub closed spec fn spec_span(&self) -> Option<SpanId> {
        self.span.view_opt()
    }

    pub fn new(name: Option<SymbolId>, ty: Option<TyKind>, span: Option<SpanId>) -> (r: Parameter)
        ensures
            r.spec_name() == name,
            r.spec_ty() == ty,
            r.spec_span() == span,
    {
        Parameter { name: FfiOption::new(name), ty: FfiOption::new(ty), span: FfiOption::new(span) }
    }

    /// The name of the parameter; functions bind patterns, of which a name is
    /// the simple case.
    pub fn name(&self) -> (r: Option<SymbolId>)
        ensures
            r == self.spec_name(),
    {
        match self.name.get() {
            Some(n) => Some(*n),
            None => None,
        }
    }

    pub fn ty(&self) -> (r: Option<&TyKind>)
        ensures
            r == match self.spec_ty() {
                Some(t) => Some(&t),
                None => None::<&TyKind>,
            },
    {
        self.ty.get()
    }

    pub fn span(&self) -> (r: Option<SpanId>)
        ensures
            r == self.spec_span(),
    {
        match self.span.get() {
            Some(s) => Some(*s),
            None => None,
        }
    }
}

/// The properties every callable node carries. Where `has_self` holds, the
/// receiver is the first parameter.
#[derive(Debug)]
pub struct CallableData {
    pub is_const: bool,
    pub is_async: bool,
    pub is_unsafe: bool,
    pub is_extern: bool,
    pub abi: FfiOption<Abi>,
    pub has_self: bool,
    pub params: FfiSlice<Parameter>,
    pub return_ty: FfiOption<TyKind>,
}

impl CallableData {
    /// A receiver needs a parameter slot to stand in.
    pub open spec fn wf(&self) -> bool {
        self.has_self ==> self.params@.len() >= 1
    }

    /// Whether the parameter at `idx` is the receiver.
    pub open spec fn spec_is_receiver(&self, idx: int) -> bool {
        self.has_self && idx == 0 && idx < self.params@.len()
    }
}

/// Read-only access to the callable properties of a node. Properties that a
/// node kind cannot have read as `false` or `None`.
pub trait Callable {
    spec fn callable_view(&self) -> &CallableData;

    fn callable_data(&self) -> (r: &CallableData)
        ensures
            r == self.callable_view(),
    ;

    fn is_const(&self) -> (r: bool)
        ensures
            r == self.callable_view().is_const,
    {
        self.callable_data().is_const
    }

    fn is_async(&self) -> (r: bool)
        ensures
            r == self.callable_view().is_async,
    {
        self.callable_data().is_async
    }

    /// Extern functions read `false` unless they are marked `unsafe`.
    fn is_unsafe(&self) -> (r: bool)
        ensures
            r == self.callable_view().is_unsafe,
    {
        self.callable_data().is_unsafe
    }

    fn is_extern(&self) -> (r: bool)
        ensures
            r == self.callable_view().is_extern,
    {
        self.callable_data().is_extern
    }

    fn abi(&self) -> (r: Option<Abi>)
        ensures
            r == self.callable_view().abi.view_opt(),
    {
        match self.callable_data().abi.get() {
            Some(a) => Some(*a),
            None => None,
        }
    }

    /// Whether the first parameter is a `self` receiver.
    fn has_self(&self) -> (r: bool)
        ensures
            r == self.callable_view().has_self,
    {
        self.callable_data().has_self
    }

    /// The parameters, the receiver first where there is one.
    fn params(&self) -> (r: &[Parameter])
        ensures
            r@ == self.callable_view().params@,
    {
        self.callable_data().params.get()
    }

    /// The receiver parameter, where there is one.
    fn receiver(&self) -> (r: Option<&Parameter>)
        ensures
            r == if self.callable_view().has_self && self.callable_view().params@.len() > 0 {
                Some(&self.callable_view().params@[0])
            } else {
                None::<&Parameter>
            },
    {
        let data = self.callable_data();
        let ps = data.params.get();
        if data.has_self && ps.len() > 0 {
            Some(&ps[0])
        } else {
            None
        }
    }

    fn return_ty(&self) -> (r: Option<&TyKind>)
        ensures
            r == match self.callable_view().return_ty.view_opt() {
                Some(t) => Some(&t),
                None => None::<&TyKind>,
            },
    {
        self.callable_data().return_ty.get()
    }
}

/// With a receiver, the parameter at index 0 is the receiver and no other is;
/// without one, no index is a receiver. A receiver may have no name.
pub proof fn lemma_receiver_position(c: &CallableData, idx: int)
    requires
        c.wf(),
        0 <= idx < c.params@.len(),
    ensures
        c.has_self ==> (c.spec_is_receiver(idx) <==> idx == 0),
        !c.has_self ==> !c.spec_is_receiver(idx),
{
}

} // verus!
