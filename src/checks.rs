//! A check that resolves the trait of every trait impl back through the
//! context.
use vstd::prelude::*;

use crate::context::{AstContext, DriverContext};
use crate::item::{ItemData, ItemKind};
use crate::lint_pass::{LintPass, Visit};

verus! {

/// Whether the span behind `id` is known to come from a macro expansion.
pub open spec fn spec_from_expansion<D: DriverContext>(cx: &AstContext<D>, id: crate::common::SpanId) -> bool {
    match cx.spec_span(id) {
        Some(s) => s.from_expansion,
        None => false,
    }
}

/// The trait item that a trait impl written in the source names, as the
/// context resolves it.
pub open spec fn spec_check_item<D: DriverContext>(cx: &AstContext<D>, item: &ItemKind) -> Option<ItemKind> {
    match item {
        ItemKind::Impl(i) => {
            if spec_from_expansion(cx, i.common().spec_span()) {
                None
            } else {
                match i.trait_ref.view_opt() {
                    Some(t) => cx.spec_item(t.trait_id),
                    None => None,
                }
            }
        },
        _ => None,
    }
}

/// For a trait impl that was not produced by a macro expansion, resolves the
/// implemented trait's id through the context. The item found carries the id
/// it was looked up by.
pub fn check_item<'a, D: DriverContext>(cx: &'a AstContext<D>, item: &ItemKind) -> (r: Option<&'a ItemKind>)
    ensures
        r == match spec_check_item(cx, item) {
            Some(it) => Some(&it),
            None => None::<&ItemKind>,
        },
        r is Some ==> item is Impl && item->Impl_0.trait_ref.view_opt() is Some
            && r->0.common().spec_id() == item->Impl_0.trait_ref.view_opt()->0.trait_id,
{
    let impl_ = match item {
        ItemKind::Impl(i) => i,
        _ => return None,
    };
    match cx.span(impl_.span()) {
        Some(s) => {
            if s.is_from_expansion() {
                return None;
            }
        },
        None => {},
    }
    let trait_ref = match impl_.trait_ref() {
        Some(t) => t,
        None => return None,
    };
    cx.item(trait_ref.trait_id())
}

/// Counts the trait impls whose trait resolves through the context.
pub struct TraitRefCheck {
    resolved: u64,
    seen: Ghost<Seq<Visit>>,
}

impl TraitRefCheck {
    pub closed spec fn spec_resolved(&self) -> u64 {
        self.resolved
    }

    pub fn new() -> (r: TraitRefCheck)
        ensures
            r.spec_resolved() == 0,
            r.seen() == Seq::<Visit>::empty(),
    {
        TraitRefCheck { resolved: 0, seen: Ghost(Seq::empty()) }
    }

    /// How many trait impls resolved so far.
    pub fn resolved(&self) -> (r: u64)
        ensures
            r == self.spec_resolved(),
    {
        self.resolved
    }

    /// Counts `item` where it is a trait impl whose trait resolves, as long as
    /// the count has room; otherwise leaves the count as it is.
    pub fn count_item<D: DriverContext>(&mut self, cx: &AstContext<D>, item: &ItemKind)
        ensures
            final(self).spec_resolved() == if spec_check_item(cx, item) is Some && old(self).spec_resolved() < u64::MAX {
                (old(self).spec_resolved() + 1) as u64
            } else {
                old(self).spec_resolved()
            },
            final(self).seen() == old(self).seen(),
    {
        if check_item(cx, item).is_some() && self.resolved < u64::MAX {
            self.resolved = self.resolved + 1;
        }
    }
}

impl LintPass for TraitRefCheck {
    closed spec fn seen(&self) -> Seq<Visit> {
        self.seen@
    }

    fn note(&mut self, v: Visit) {
        self.seen = Ghost(self.seen@.push(v));
    }

    fn check_item<D: DriverContext>(&mut self, cx: &mut AstContext<D>, item: &ItemKind) {
        self.count_item(cx, item);
        self.note(Visit::Item(item.id()));
    }
}

} // verus!
