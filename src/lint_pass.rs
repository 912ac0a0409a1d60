//! The hooks a check offers, and the walk by which the host drives a check over
//! one compilation unit: hooks are called in the structural order of the tree,
//! outer nodes before the nodes they contain, declarations in order.
use vstd::prelude::*;

use crate::body::{Body, ExprKind, StmtKind};
use crate::common::{BodyId, ExprId, FieldId, ItemId, StmtId, VariantId};
use crate::context::{same_answers, AstContext, DriverContext, Lint};
use crate::item::{AssocItemKind, EnumVariant, FnItem, ItemField, ItemKind};

verus! {

/// The whole compilation unit, with its top level items in declaration order.
#[derive(Debug)]
pub struct Crate {
    pub id: ItemId,
    pub items: Vec<ItemKind>,
}

/// What a hook may do to the context: emit diagnostics after those already
/// emitted, and nothing else.
pub open spec fn pass_effect<D: DriverContext>(before: AstContext<D>, after: AstContext<D>) -> bool {
    &&& same_answers(&before.host(), &after.host())
    &&& before.spec_emitted().len() <= after.spec_emitted().len()
    &&& forall|i: int| 0 <= i < before.spec_emitted().len()
        ==> #[trigger] after.spec_emitted()[i] == before.spec_emitted()[i]
}

/// A check: the host calls its hooks on every node of the tree, in the order
/// of `walk_order`. Every hook adds the node it was given to the check's
/// record of what it has seen. A hook that a check does not override does
/// nothing else.
pub trait LintPass {
    /// The nodes this check's hooks have been called on, oldest first.
    spec fn seen(&self) -> Seq<Visit>;

    /// Adds a node to the record of what the check has seen.
    fn note(&mut self, v: Visit)
        ensures
            final(self).seen() == old(self).seen().push(v),
    ;

    fn check_crate<D: DriverContext>(&mut self, cx: &mut AstContext<D>, krate: &Crate)
        ensures
            pass_effect(*old(cx), *final(cx)),
            final(self).seen() == old(self).seen().push(Visit::Crate),
        default_ensures
            *final(cx) == *old(cx),
    {
        self.note(Visit::Crate);
    }

    fn check_item<D: DriverContext>(&mut self, cx: &mut AstContext<D>, item: &ItemKind)
        ensures
            pass_effect(*old(cx), *final(cx)),
            final(self).seen() == old(self).seen().push(Visit::Item(item.common().spec_id())),
        default_ensures
            *final(cx) == *old(cx),
    {
        self.note(Visit::Item(item.id()));
    }

    fn check_field<D: DriverContext>(&mut self, cx: &mut AstContext<D>, field: &ItemField)
        ensures
            pass_effect(*old(cx), *final(cx)),
            final(self).seen() == old(self).seen().push(Visit::Field(field.id)),
        default_ensures
            *final(cx) == *old(cx),
    {
        self.note(Visit::Field(field.id));
    }

    fn check_variant<D: DriverContext>(&mut self, cx: &mut AstContext<D>, variant: &EnumVariant)
        ensures
            pass_effect(*old(cx), *final(cx)),
            final(self).seen() == old(self).seen().push(Visit::Variant(variant.id)),
        default_ensures
            *final(cx) == *old(cx),
    {
        self.note(Visit::Variant(variant.id));
    }

    fn check_body<D: DriverContext>(&mut self, cx: &mut AstContext<D>, body: &Body)
        ensures
            pass_effect(*old(cx), *final(cx)),
            final(self).seen() == old(self).seen().push(Visit::Body(body.id)),
        default_ensures
            *final(cx) == *old(cx),
    {
        self.note(Visit::Body(body.id));
    }

    fn check_stmt<D: DriverContext>(&mut self, cx: &mut AstContext<D>, stmt: &StmtKind)
        ensures
            pass_effect(*old(cx), *final(cx)),
            final(self).seen() == old(self).seen().push(Visit::Stmt(stmt.spec_id())),
        default_ensures
            *final(cx) == *old(cx),
    {
        self.note(Visit::Stmt(stmt.id()));
    }

    fn check_expr<D: DriverContext>(&mut self, cx: &mut AstContext<D>, expr: &ExprKind)
        ensures
            pass_effect(*old(cx), *final(cx)),
            final(self).seen() == old(self).seen().push(Visit::Expr(expr.spec_id())),
        default_ensures
            *final(cx) == *old(cx),
    {
        self.note(Visit::Expr(expr.id()));
    }
}

/// The lints a check declares.
#[derive(Debug)]
pub struct LintPassInfo {
    pub lints: Vec<Lint>,
}

/// How the host creates a check and learns which lints it declares.
pub trait LintPassBase {
    fn new<D: DriverContext>(cx: &AstContext<D>) -> Self where Self: Sized;

    fn info(&self) -> LintPassInfo;
}

/// A check that overrides no hook.
pub struct NoopPass {
    seen: Ghost<Seq<Visit>>,
}

impl NoopPass {
    pub fn new() -> (r: NoopPass)
        ensures
            r.seen() == Seq::<Visit>::empty(),
    {
        NoopPass { seen: Ghost(Seq::empty()) }
    }
}

impl LintPass for NoopPass {
    closed spec fn seen(&self) -> Seq<Visit> {
        self.seen@
    }

    fn note(&mut self, v: Visit) {
        self.seen = Ghost(self.seen@.push(v));
    }
}

/// One hook call, named by the node it was given.
#[derive(Clone, Copy, Debug, PartialEq, Eq, Structural)]
pub enum Visit {
    Crate,
    Item(ItemId),
    Field(FieldId),
    Variant(VariantId),
    Body(BodyId),
    Stmt(StmtId),
    Expr(ExprId),
}

pub open spec fn expr_order(e: ExprKind) -> Seq<Visit> {
    seq![Visit::Expr(e.spec_id())]
}

/// The hook calls for a statement: the statement first, then its
/// expression, or the item it declares.
pub open spec fn stmt_order(s: StmtKind) -> Seq<Visit>
    decreases s,
{
    seq![Visit::Stmt(s.spec_id())] + match s {
        StmtKind::Let(l) => match l.init {
            Some(e) => expr_order(e),
            None => Seq::empty(),
        },
        StmtKind::Expr(e) => expr_order(e.expr),
        StmtKind::Item(i) => item_order(i.item),
    }
}

pub open spec fn stmts_order(ss: Seq<StmtKind>) -> Seq<Visit>
    decreases ss,
{
    if ss.len() == 0 {
        Seq::empty()
    } else {
        stmts_order(ss.subrange(0, ss.len() - 1)) + stmt_order(ss[ss.len() - 1])
    }
}

pub open spec fn body_order(b: Body) -> Seq<Visit>
    decreases b,
{
    seq![Visit::Body(b.id)] + stmts_order(b.stmts@)
}

pub open spec fn fields_order(fs: Seq<ItemField>) -> Seq<Visit>
    decreases fs.len(),
{
    if fs.len() == 0 {
        Seq::empty()
    } else {
        fields_order(fs.drop_last()) + seq![Visit::Field(fs.last().id)]
    }
}

pub open spec fn variant_order(v: EnumVariant) -> Seq<Visit> {
    seq![Visit::Variant(v.id)] + fields_order(v.fields@)
}

pub open spec fn variants_order(vs: Seq<EnumVariant>) -> Seq<Visit>
    decreases vs.len(),
{
    if vs.len() == 0 {
        Seq::empty()
    } else {
        variants_order(vs.drop_last()) + variant_order(vs.last())
    }
}

/// A function's body, where it has one.
pub open spec fn fn_body_order(f: FnItem) -> Seq<Visit>
    decreases f,
{
    match f.body {
        Some(b) => body_order(b),
        None => Seq::empty(),
    }
}

/// Associated items reach the hooks through the bodies of their functions.
pub open spec fn assoc_order(a: AssocItemKind) -> Seq<Visit>
    decreases a,
{
    match a {
        AssocItemKind::Fn(f) => fn_body_order(f),
        _ => Seq::empty(),
    }
}

pub open spec fn assocs_order(s: Seq<AssocItemKind>) -> Seq<Visit>
    decreases s,
{
    if s.len() == 0 {
        Seq::empty()
    } else {
        assocs_order(s.subrange(0, s.len() - 1)) + assoc_order(s[s.len() - 1])
    }
}

/// The hook calls for one item: the item first, then what it contains.
pub open spec fn item_order(it: ItemKind) -> Seq<Visit>
    decreases it,
{
    seq![Visit::Item(it.common().spec_id())] + match it {
        ItemKind::Mod(m) => items_order(m.items@),
        ItemKind::Struct(s) => fields_order(s.fields@),
        ItemKind::Union(u) => fields_order(u.fields@),
        ItemKind::Enum(e) => variants_order(e.variants@),
        ItemKind::Fn(f) => fn_body_order(f),
        ItemKind::Trait(t) => assocs_order(t.items@),
        ItemKind::Impl(i) => assocs_order(i.items@),
        _ => Seq::empty(),
    }
}

/// The hook calls for items of one scope, in declaration order.
pub open spec fn items_order(s: Seq<ItemKind>) -> Seq<Visit>
    decreases s,
{
    if s.len() == 0 {
        Seq::empty()
    } else {
        items_order(s.subrange(0, s.len() - 1)) + item_order(s[s.len() - 1])
    }
}

/// The hook calls of one pass over a compilation unit, in order.
pub open spec fn walk_order(k: Crate) -> Seq<Visit> {
    seq![Visit::Crate] + items_order(k.items@)
}

fn walk_expr<P: LintPass, D: DriverContext>(pass: &mut P, cx: &mut AstContext<D>, e: &ExprKind, out: &mut Vec<Visit>)
    ensures
        final(out)@ == old(out)@ + expr_order(*e),
        final(pass).seen() == old(pass).seen() + expr_order(*e),
        pass_effect(*old(cx), *final(cx)),
{
    pass.check_expr(cx, e);
    out.push(Visit::Expr(e.id()));
    assert(pass.seen() =~= old(pass).seen() + expr_order(*e));
}

fn walk_stmt<P: LintPass, D: DriverContext>(pass: &mut P, cx: &mut AstContext<D>, s: &StmtKind, out: &mut Vec<Visit>)
    ensures
        final(out)@ == old(out)@ + stmt_order(*s),
        final(pass).seen() == old(pass).seen() + stmt_order(*s),
        pass_effect(*old(cx), *final(cx)),
    decreases s,
{
    pass.check_stmt(cx, s);
    out.push(Visit::Stmt(s.id()));
    match s {
        StmtKind::Let(l) => {
            match &l.init {
                Some(e) => walk_expr(pass, cx, e, out),
                None => {},
            }
        },
        StmtKind::Expr(e) => walk_expr(pass, cx, &e.expr, out),
        StmtKind::Item(i) => walk_item(pass, cx, &i.item, out),
    }
    assert(out@ =~= old(out)@ + stmt_order(*s));
    assert(pass.seen() =~= old(pass).seen() + stmt_order(*s));
}

fn walk_stmts<P: LintPass, D: DriverContext>(pass: &mut P, cx: &mut AstContext<D>, s: &Vec<StmtKind>, out: &mut Vec<Visit>)
    ensures
        final(out)@ == old(out)@ + stmts_order(s@),
        final(pass).seen() == old(pass).seen() + stmts_order(s@),
        pass_effect(*old(cx), *final(cx)),
    decreases s,
{
    let mut i: usize = 0;
    while i < s.len()
        invariant
            i <= s@.len(),
            out@ == old(out)@ + stmts_order(s@.subrange(0, i as int)),
            pass.seen() == old(pass).seen() + stmts_order(s@.subrange(0, i as int)),
            pass_effect(*old(cx), *cx),
        decreases s@.len() - i,
    {
        let ghost out_before = out@;
        let ghost seen_before = pass.seen();
        walk_stmt(pass, cx, &s[i], out);
        proof {
            let next = s@.subrange(0, i + 1);
            assert(next.subrange(0, i as int) =~= s@.subrange(0, i as int));
            assert(next[i as int] == s@[i as int]);
            assert(out@ =~= old(out)@ + stmts_order(next));
            assert(pass.seen() =~= old(pass).seen() + stmts_order(next));
        }
        i = i + 1;
    }
    assert(s@.subrange(0, s@.len() as int) =~= s@);
}

fn walk_body<P: LintPass, D: DriverContext>(pass: &mut P, cx: &mut AstContext<D>, b: &Body, out: &mut Vec<Visit>)
    ensures
        final(out)@ == old(out)@ + body_order(*b),
        final(pass).seen() == old(pass).seen() + body_order(*b),
        pass_effect(*old(cx), *final(cx)),
    decreases b,
{
    pass.check_body(cx, b);
    out.push(Visit::Body(b.id));
    walk_stmts(pass, cx, &b.stmts, out);
    assert(out@ =~= old(out)@ + body_order(*b));
    assert(pass.seen() =~= old(pass).seen() + body_order(*b));
}

fn walk_fields<P: LintPass, D: DriverContext>(pass: &mut P, cx: &mut AstContext<D>, fs: &Vec<ItemField>, out: &mut Vec<Visit>)
    ensures
        final(out)@ == old(out)@ + fields_order(fs@),
        final(pass).seen() == old(pass).seen() + fields_order(fs@),
        pass_effect(*old(cx), *final(cx)),
{
    let mut i: usize = 0;
    while i < fs.len()
        invariant
            i <= fs@.len(),
            out@ == old(out)@ + fields_order(fs@.subrange(0, i as int)),
            pass.seen() == old(pass).seen() + fields_order(fs@.subrange(0, i as int)),
            pass_effect(*old(cx), *cx),
        decreases fs@.len() - i,
    {
        pass.check_field(cx, &fs[i]);
        out.push(Visit::Field(fs[i].id));
        proof {
            let next = fs@.subrange(0, i + 1);
            assert(next.drop_last() =~= fs@.subrange(0, i as int));
            assert(out@ =~= old(out)@ + fields_order(next));
            assert(pass.seen() =~= old(pass).seen() + fields_order(next));
        }
        i = i + 1;
    }
    assert(fs@.subrange(0, fs@.len() as int) =~= fs@);
}

fn walk_variants<P: LintPass, D: DriverContext>(pass: &mut P, cx: &mut AstContext<D>, vs: &Vec<EnumVariant>, out: &mut Vec<Visit>)
    ensures
        final(out)@ == old(out)@ + variants_order(vs@),
        final(pass).seen() == old(pass).seen() + variants_order(vs@),
        pass_effect(*old(cx), *final(cx)),
{
    let mut i: usize = 0;
    while i < vs.len()
        invariant
            i <= vs@.len(),
            out@ == old(out)@ + variants_order(vs@.subrange(0, i as int)),
            pass.seen() == old(pass).seen() + variants_order(vs@.subrange(0, i as int)),
            pass_effect(*old(cx), *cx),
        decreases vs@.len() - i,
    {
        let ghost out_before = out@;
        let ghost seen_before = pass.seen();
        pass.check_variant(cx, &vs[i]);
        out.push(Visit::Variant(vs[i].id));
        walk_fields(pass, cx, &vs[i].fields, out);
        proof {
            let next = vs@.subrange(0, i + 1);
            assert(next.drop_last() =~= vs@.subrange(0, i as int));
            assert(out@ =~= out_before + variant_order(vs@[i as int]));
            assert(pass.seen() =~= seen_before + variant_order(vs@[i as int]));
            assert(out@ =~= old(out)@ + variants_order(next));
            assert(pass.seen() =~= old(pass).seen() + variants_order(next));
        }
        i = i + 1;
    }
    assert(vs@.subrange(0, vs@.len() as int) =~= vs@);
}

fn walk_fn_body<P: LintPass, D: DriverContext>(pass: &mut P, cx: &mut AstContext<D>, f: &FnItem, out: &mut Vec<Visit>)
    ensures
        final(out)@ == old(out)@ + fn_body_order(*f),
        final(pass).seen() == old(pass).seen() + fn_body_order(*f),
        pass_effect(*old(cx), *final(cx)),
    decreases f,
{
    match &f.body {
        Some(b) => walk_body(pass, cx, b, out),
        None => {
            assert(out@ =~= old(out)@ + fn_body_order(*f));
            assert(pass.seen() =~= old(pass).seen() + fn_body_order(*f));
        },
    }
}

fn walk_assoc<P: LintPass, D: DriverContext>(pass: &mut P, cx: &mut AstContext<D>, a: &AssocItemKind, out: &mut Vec<Visit>)
    ensures
        final(out)@ == old(out)@ + assoc_order(*a),
        final(pass).seen() == old(pass).seen() + assoc_order(*a),
        pass_effect(*old(cx), *final(cx)),
    decreases a,
{
    match a {
        AssocItemKind::Fn(f) => walk_fn_body(pass, cx, f, out),
        _ => {
            assert(out@ =~= old(out)@ + assoc_order(*a));
            assert(pass.seen() =~= old(pass).seen() + assoc_order(*a));
        },
    }
}

fn walk_assocs<P: LintPass, D: DriverContext>(pass: &mut P, cx: &mut AstContext<D>, s: &Vec<AssocItemKind>, out: &mut Vec<Visit>)
    ensures
        final(out)@ == old(out)@ + assocs_order(s@),
        final(pass).seen() == old(pass).seen() + assocs_order(s@),
        pass_effect(*old(cx), *final(cx)),
    decreases s,
{
    let mut i: usize = 0;
    while i < s.len()
        invariant
            i <= s@.len(),
            out@ == old(out)@ + assocs_order(s@.subrange(0, i as int)),
            pass.seen() == old(pass).seen() + assocs_order(s@.subrange(0, i as int)),
            pass_effect(*old(cx), *cx),
        decreases s@.len() - i,
    {
        let ghost out_before = out@;
        let ghost seen_before = pass.seen();
        walk_assoc(pass, cx, &s[i], out);
        proof {
            let next = s@.subrange(0, i + 1);
            assert(next.subrange(0, i as int) =~= s@.subrange(0, i as int));
            assert(next[i as int] == s@[i as int]);
            assert(out@ =~= old(out)@ + assocs_order(next));
            assert(pass.seen() =~= old(pass).seen() + assocs_order(next));
        }
        i = i + 1;
    }
    assert(s@.subrange(0, s@.len() as int) =~= s@);
}

fn walk_item<P: LintPass, D: DriverContext>(pass: &mut P, cx: &mut AstContext<D>, it: &ItemKind, out: &mut Vec<Visit>)
    ensures
        final(out)@ == old(out)@ + item_order(*it),
        final(pass).seen() == old(pass).seen() + item_order(*it),
        pass_effect(*old(cx), *final(cx)),
    decreases it,
{
    pass.check_item(cx, it);
    out.push(Visit::Item(it.id()));
    match it {
        ItemKind::Mod(m) => walk_items(pass, cx, &m.items, out),
        ItemKind::Struct(s) => walk_fields(pass, cx, &s.fields, out),
        ItemKind::Union(u) => walk_fields(pass, cx, &u.fields, out),
        ItemKind::Enum(e) => walk_variants(pass, cx, &e.variants, out),
        ItemKind::Fn(f) => walk_fn_body(pass, cx, f, out),
        ItemKind::Trait(t) => walk_assocs(pass, cx, &t.items, out),
        ItemKind::Impl(i) => walk_assocs(pass, cx, &i.items, out),
        _ => {},
    }
    assert(out@ =~= old(out)@ + item_order(*it));
    assert(pass.seen() =~= old(pass).seen() + item_order(*it));
}

fn walk_items<P: LintPass, D: DriverContext>(pass: &mut P, cx: &mut AstContext<D>, s: &Vec<ItemKind>, out: &mut Vec<Visit>)
    ensures
        final(out)@ == old(out)@ + items_order(s@),
        final(pass).seen() == old(pass).seen() + items_order(s@),
        pass_effect(*old(cx), *final(cx)),
    decreases s,
{
    let mut i: usize = 0;
    while i < s.len()
        invariant
            i <= s@.len(),
            out@ == old(out)@ + items_order(s@.subrange(0, i as int)),
            pass.seen() == old(pass).seen() + items_order(s@.subrange(0, i as int)),
            pass_effect(*old(cx), *cx),
        decreases s@.len() - i,
    {
        let ghost out_before = out@;
        let ghost seen_before = pass.seen();
        walk_item(pass, cx, &s[i], out);
        proof {
            let next = s@.subrange(0, i + 1);
            assert(next.subrange(0, i as int) =~= s@.subrange(0, i as int));
            assert(next[i as int] == s@[i as int]);
            assert(out@ =~= old(out)@ + items_order(next));
            assert(pass.seen() =~= old(pass).seen() + items_order(next));
        }
        i = i + 1;
    }
    assert(s@.subrange(0, s@.len() as int) =~= s@);
}

/// Drives `pass` over the compilation unit: `check_crate` first, then each
/// item and what it contains, outer nodes before the nodes nested in them and
/// declarations in order. The check receives exactly the hook calls of
/// `walk_order`, which depend on the tree alone; it can change the context only
/// by emitting diagnostics. Returns the nodes the walk visits, in order.
pub fn run_pass<P: LintPass, D: DriverContext>(pass: &mut P, cx: &mut AstContext<D>, krate: &Crate) -> (r: Vec<Visit>)
    ensures
        r@ == walk_order(*krate),
        final(pass).seen() == old(pass).seen() + walk_order(*krate),
        pass_effect(*old(cx), *final(cx)),
{
    let mut out: Vec<Visit> = Vec::new();
    pass.check_crate(cx, krate);
    out.push(Visit::Crate);
    walk_items(pass, cx, &krate.items, &mut out);
    assert(out@ =~= walk_order(*krate));
    assert(pass.seen() =~= old(pass).seen() + walk_order(*krate));
    out
}

/// Two passes over the same unmodified compilation unit receive the same hook
/// calls, on the same nodes, in the same order, whatever the checks and
/// contexts.
pub proof fn lemma_walk_is_stable(k: Crate, first: Seq<Visit>, second: Seq<Visit>)
    requires
        first == walk_order(k),
        second == walk_order(k),
    ensures
        first == second,
{
}

} // verus!
