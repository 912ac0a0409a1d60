//! The context a check receives with every hook. It owns no data of the host:
//! every query and every diagnostic goes through the host's callbacks.
use vstd::prelude::*;

use crate::common::{ItemId, SpanId, SymbolId};
use crate::item::ItemKind;

verus! {

/// A region of source text.
#[derive(Clone, Copy, Debug)]
pub struct Span {
    pub lo: u32,
    pub hi: u32,
    /// Whether the text was produced by a macro expansion.
    pub from_expansion: bool,
}

impl Span {
    pub fn is_from_expansion(&self) -> (r: bool)
        ensures
            r == self.from_expansion,
    {
        self.from_expansion
    }
}

/// The level a lint is reported at unless configured otherwise.
#[derive(Clone, Copy, Debug, PartialEq, Eq, Structural)]
pub enum Level {
    Allow,
    Warn,
    Deny,
}

/// The description of a lint: created once when a check is loaded and never
/// changed afterwards.
#[derive(Clone, Copy, Debug)]
pub struct Lint {
    pub name: &'static str,
    pub default_level: Level,
}

/// A diagnostic in the host's record of what it was handed.
pub struct EmittedLint {
    pub lint: Lint,
    pub msg: Seq<char>,
    pub span: SpanId,
}

impl EmittedLint {
    /// Whether this record reports `lint` with message `msg` at `span`.
    pub open spec fn is_for(&self, lint: Lint, msg: Seq<char>, span: SpanId) -> bool {
        &&& self.lint == lint
        &&& self.msg == msg
        &&& self.span == span
    }
}

/// Whether an owned text agrees with the text the host holds, absence included.
pub open spec fn text_agrees(r: Option<String>, s: Option<Seq<char>>) -> bool {
    match r {
        Some(t) => s == Some(t@),
        None => s is None,
    }
}

/// The host's side of the bridge: the calls by which it answers queries and
/// receives diagnostics. The host implements it on its own driver context; the
/// library only ever calls it.
pub trait DriverContext {
    /// The text the host holds for a symbol; `None` for one it generated
    /// without a name.
    spec fn host_symbol(&self, sym: SymbolId) -> Option<Seq<char>>;

    /// The span the host holds for an id.
    spec fn host_span(&self, id: SpanId) -> Option<Span>;

    /// The item the host holds for an id.
    spec fn host_item(&self, id: ItemId) -> Option<ItemKind>;

    /// The diagnostics the host was handed, in the order it received them.
    spec fn host_emitted(&self) -> Seq<EmittedLint>;

    fn symbol_str(&self, sym: SymbolId) -> (r: Option<String>)
        ensures
            text_agrees(r, self.host_symbol(sym)),
    ;

    fn get_span(&self, id: SpanId) -> (r: Option<Span>)
        ensures
            r == self.host_span(id),
    ;

    /// An item found by its id carries that id.
    fn item(&self, id: ItemId) -> (r: Option<&ItemKind>)
        ensures
            r == match self.host_item(id) {
                Some(it) => Some(&it),
                None => None::<&ItemKind>,
            },
            self.host_item(id) is Some ==> self.host_item(id)->0.common().spec_id() == id,
    ;

    /// Receives one diagnostic, after those received before; the answers to
    /// queries stay as they were.
    fn emit_lint(&mut self, lint: &Lint, msg: &str, span: SpanId)
        ensures
            forall|s: SymbolId| #[trigger] final(self).host_symbol(s) == old(self).host_symbol(s),
            forall|s: SpanId| #[trigger] final(self).host_span(s) == old(self).host_span(s),
            forall|i: ItemId| #[trigger] final(self).host_item(i) == old(self).host_item(i),
            final(self).host_emitted().len() == old(self).host_emitted().len() + 1,
            final(self).host_emitted().drop_last() == old(self).host_emitted(),
            final(self).host_emitted().last().is_for(*lint, msg@, span),
    ;
}

/// Whether two states of the host answer every query alike.
pub open spec fn same_answers<D: DriverContext>(a: &D, b: &D) -> bool {
    &&& forall|s: SymbolId| #[trigger] b.host_symbol(s) == a.host_symbol(s)
    &&& forall|s: SpanId| #[trigger] b.host_span(s) == a.host_span(s)
    &&& forall|i: ItemId| #[trigger] b.host_item(i) == a.host_item(i)
}

/// The table of calls into the host, with the host's driver context that each
/// call is handed first.
pub struct DriverCallbacks<D: DriverContext> {
    driver_context: D,
}

impl<D: DriverContext> DriverCallbacks<D> {
    pub closed spec fn spec_driver_context(&self) -> D {
        self.driver_context
    }

    pub fn new(driver_context: D) -> (r: DriverCallbacks<D>)
        ensures
            r.spec_driver_context() == driver_context,
    {
        DriverCallbacks { driver_context }
    }

    pub fn call_symbol_str(&self, sym: SymbolId) -> (r: Option<String>)
        ensures
            text_agrees(r, self.spec_driver_context().host_symbol(sym)),
    {
        self.driver_context.symbol_str(sym)
    }

    pub fn call_get_span(&self, id: SpanId) -> (r: Option<Span>)
        ensures
            r == self.spec_driver_context().host_span(id),
    {
        self.driver_context.get_span(id)
    }

    pub fn call_item(&self, id: ItemId) -> (r: Option<&ItemKind>)
        ensures
            r == match self.spec_driver_context().host_item(id) {
                Some(it) => Some(&it),
                None => None::<&ItemKind>,
            },
            self.spec_driver_context().host_item(id) is Some
                ==> self.spec_driver_context().host_item(id)->0.common().spec_id() == id,
    {
        self.driver_context.item(id)
    }

    pub fn call_emit_lint(&mut self, lint: &Lint, msg: &str, span: SpanId)
        ensures
            same_answers(&old(self).spec_driver_context(), &final(self).spec_driver_context()),
            final(self).spec_driver_context().host_emitted().len()
                == old(self).spec_driver_context().host_emitted().len() + 1,
            final(self).spec_driver_context().host_emitted().drop_last()
                == old(self).spec_driver_context().host_emitted(),
            final(self).spec_driver_context().host_emitted().last().is_for(*lint, msg@, span),
    {
        self.driver_context.emit_lint(lint, msg, span);
    }

    /// Gives the host its driver context back.
    pub fn into_driver_context(self) -> (r: D)
        ensures
            r == self.spec_driver_context(),
    {
        self.driver_context
    }
}

/// The context passed to every hook of a check. Every query goes to the
/// matching call of the host's callbacks.
pub struct AstContext<D: DriverContext> {
    driver: DriverCallbacks<D>,
}

impl<D: DriverContext> AstContext<D> {
    /// The host's driver context behind this context.
    pub closed spec fn host(&self) -> D {
        self.driver.spec_driver_context()
    }

    pub open spec fn spec_symbol_str(&self, sym: SymbolId) -> Option<Seq<char>> {
        self.host().host_symbol(sym)
    }

    pub open spec fn spec_span(&self, id: SpanId) -> Option<Span> {
        self.host().host_span(id)
    }

    pub open spec fn spec_item(&self, id: ItemId) -> Option<ItemKind> {
        self.host().host_item(id)
    }

    pub open spec fn spec_emitted(&self) -> Seq<EmittedLint> {
        self.host().host_emitted()
    }

    pub fn new(driver: DriverCallbacks<D>) -> (r: AstContext<D>)
        ensures
            r.host() == driver.spec_driver_context(),
    {
        AstContext { driver }
    }

    /// Gives the host its callbacks back at the end of a pass.
    pub fn into_driver(self) -> (r: DriverCallbacks<D>)
        ensures
            r.spec_driver_context() == self.host(),
    {
        self.driver
    }

    /// Emits a lint with the given message at the given span.
    pub fn emit_lint(&mut self, lint: &Lint, msg: &str, span: SpanId)
        ensures
            same_answers(&old(self).host(), &final(self).host()),
            final(self).spec_emitted().len() == old(self).spec_emitted().len() + 1,
            final(self).spec_emitted().drop_last() == old(self).spec_emitted(),
            final(self).spec_emitted().last().is_for(*lint, msg@, span),
    {
        self.driver.call_emit_lint(lint, msg, span);
    }

    /// The text of a symbol.
    pub fn symbol_str(&self, sym: SymbolId) -> (r: Option<String>)
        ensures
            text_agrees(r, self.spec_symbol_str(sym)),
    {
        self.driver.call_symbol_str(sym)
    }

    /// The span behind an id.
    pub fn span(&self, id: SpanId) -> (r: Option<Span>)
        ensures
            r == self.spec_span(id),
    {
        self.driver.call_get_span(id)
    }

    /// The item with the given id; it carries that id.
    pub fn item(&self, id: ItemId) -> (r: Option<&ItemKind>)
        ensures
            r == match self.spec_item(id) {
                Some(it) => Some(&it),
                None => None::<&ItemKind>,
            },
            r is Some ==> r->0.common().spec_id() == id,
    {
        self.driver.call_item(id)
    }
}

/// Two lints emitted one after the other both reach the host, in the order
/// they were emitted, after those emitted before.
pub proof fn lemma_emit_order<D: DriverContext>(
    c0: &AstContext<D>,
    c1: &AstContext<D>,
    c2: &AstContext<D>,
    la: Lint,
    ma: Seq<char>,
    sa: SpanId,
    lb: Lint,
    mb: Seq<char>,
    sb: SpanId,
)
    requires
        c1.spec_emitted().len() == c0.spec_emitted().len() + 1,
        c1.spec_emitted().drop_last() == c0.spec_emitted(),
        c1.spec_emitted().last().is_for(la, ma, sa),
        c2.spec_emitted().len() == c1.spec_emitted().len() + 1,
        c2.spec_emitted().drop_last() == c1.spec_emitted(),
        c2.spec_emitted().last().is_for(lb, mb, sb),
    ensures
        c2.spec_emitted().len() == c0.spec_emitted().len() + 2,
        c2.spec_emitted().subrange(0, c0.spec_emitted().len() as int) == c0.spec_emitted(),
        c2.spec_emitted()[c0.spec_emitted().len() as int].is_for(la, ma, sa),
        c2.spec_emitted()[c0.spec_emitted().len() + 1int].is_for(lb, mb, sb),
{
    let n = c0.spec_emitted().len() as int;
    assert(c2.spec_emitted()[n] == c1.spec_emitted()[n]);
    assert(c2.spec_emitted().subrange(0, n) =~= c0.spec_emitted());
}

} // verus!
