//! A host that answers queries from tables it was handed and records the
//! diagnostics it receives, for drivers that build their view up front.
use vstd::prelude::*;
use vstd::string::*;

use crate::common::{ItemId, SpanId, SymbolId};
use crate::context::{DriverContext, EmittedLint, Lint, Span};
use crate::item::ItemKind;

verus! {

/// The index of the first entry whose key is `k`, where there is one.
pub open spec fn first_index<K>(keys: Seq<K>, k: K) -> Option<int> {
    if exists|i: int| is_first_index(keys, k, i) {
        Some(choose|i: int| is_first_index(keys, k, i))
    } else {
        None
    }
}

pub open spec fn is_first_index<K>(keys: Seq<K>, k: K, i: int) -> bool {
    &&& 0 <= i < keys.len()
    &&& keys[i] == k
    &&& forall|j: int| 0 <= j < i ==> keys[j] != k
}

proof fn lemma_first_index_at<K>(keys: Seq<K>, k: K, i: int)
    requires
        is_first_index(keys, k, i),
    ensures
        first_index(keys, k) == Some(i),
{
    let c = choose|c: int| is_first_index(keys, k, c);
    assert(is_first_index(keys, k, c));
    if c < i {
        assert(keys[c] != k);
    } else if c > i {
        assert(keys[i] != k);
    }
}

proof fn lemma_first_index_none<K>(keys: Seq<K>, k: K)
    requires
        forall|j: int| 0 <= j < keys.len() ==> keys[j] != k,
    ensures
        first_index(keys, k) == None::<int>,
{
    if exists|i: int| is_first_index(keys, k, i) {
        let c = choose|c: int| is_first_index(keys, k, c);
        assert(keys[c] == k);
    }
}

proof fn lemma_first_index_key<K>(keys: Seq<K>, k: K)
    ensures
        first_index(keys, k) is Some ==> keys[first_index(keys, k)->0] == k
            && 0 <= first_index(keys, k)->0 < keys.len(),
{
    if exists|i: int| is_first_index(keys, k, i) {
        let c = choose|c: int| is_first_index(keys, k, c);
        assert(is_first_index(keys, k, c));
    }
}

/// A host answering from tables; where a table holds an id twice, the first
/// entry answers.
pub struct TableHost {
    symbols: Vec<(SymbolId, String)>,
    spans: Vec<(SpanId, Span)>,
    items: Vec<ItemKind>,
    emitted: Vec<(Lint, String, SpanId)>,
}

impl TableHost {
    pub closed spec fn spec_symbols(&self) -> Seq<(SymbolId, String)> {
        self.symbols@
    }

    pub closed spec fn spec_spans(&self) -> Seq<(SpanId, Span)> {
        self.spans@
    }

    pub closed spec fn spec_items(&self) -> Seq<ItemKind> {
        self.items@
    }

    pub open spec fn symbol_keys(&self) -> Seq<SymbolId> {
        Seq::new(self.spec_symbols().len(), |i: int| self.spec_symbols()[i].0)
    }

    pub open spec fn span_keys(&self) -> Seq<SpanId> {
        Seq::new(self.spec_spans().len(), |i: int| self.spec_spans()[i].0)
    }

    pub open spec fn item_keys(&self) -> Seq<ItemId> {
        Seq::new(self.spec_items().len(), |i: int| self.spec_items()[i].common().spec_id())
    }

    pub fn new(symbols: Vec<(SymbolId, String)>, spans: Vec<(SpanId, Span)>, items: Vec<ItemKind>) -> (r: TableHost)
        ensures
            r.spec_symbols() == symbols@,
            r.spec_spans() == spans@,
            r.spec_items() == items@,
            r.host_emitted() == Seq::<EmittedLint>::empty(),
    {
        let r = TableHost { symbols, spans, items, emitted: Vec::new() };
        assert(r.host_emitted() =~= Seq::<EmittedLint>::empty());
        r
    }

    /// The diagnostics received so far, oldest first.
    pub fn emitted(&self) -> (r: &[(Lint, String, SpanId)])
        ensures
            r@.len() == self.host_emitted().len(),
            forall|i: int| 0 <= i < r@.len() ==> (#[trigger] self.host_emitted()[i]).is_for(r@[i].0, r@[i].1@, r@[i].2),
    {
        self.emitted.as_slice()
    }
}

impl DriverContext for TableHost {
    open spec fn host_symbol(&self, sym: SymbolId) -> Option<Seq<char>> {
        match first_index(self.symbol_keys(), sym) {
            Some(i) => Some(self.spec_symbols()[i].1@),
            None => None,
        }
    }

    open spec fn host_span(&self, id: SpanId) -> Option<Span> {
        match first_index(self.span_keys(), id) {
            Some(i) => Some(self.spec_spans()[i].1),
            None => None,
        }
    }

    open spec fn host_item(&self, id: ItemId) -> Option<ItemKind> {
        match first_index(self.item_keys(), id) {
            Some(i) => Some(self.spec_items()[i]),
            None => None,
        }
    }

    closed spec fn host_emitted(&self) -> Seq<EmittedLint> {
        Seq::new(
            self.emitted@.len(),
            |i: int| EmittedLint { lint: self.emitted@[i].0, msg: self.emitted@[i].1@, span: self.emitted@[i].2 },
        )
    }

    fn symbol_str(&self, sym: SymbolId) -> (r: Option<String>) {
        let mut i: usize = 0;
        while i < self.symbols.len()
            invariant
                i <= self.symbols@.len(),
                forall|j: int| 0 <= j < i ==> self.symbol_keys()[j] != sym,
            decreases self.symbols@.len() - i,
        {
            if self.symbols[i].0 == sym {
                proof {
                    lemma_first_index_at(self.symbol_keys(), sym, i as int);
                }
                return Some(self.symbols[i].1.clone());
            }
            i = i + 1;
        }
        proof {
            lemma_first_index_none(self.symbol_keys(), sym);
        }
        None
    }

    fn get_span(&self, id: SpanId) -> (r: Option<Span>) {
        let mut i: usize = 0;
        while i < self.spans.len()
            invariant
                i <= self.spans@.len(),
                forall|j: int| 0 <= j < i ==> self.span_keys()[j] != id,
            decreases self.spans@.len() - i,
        {
            if self.spans[i].0 == id {
                proof {
                    lemma_first_index_at(self.span_keys(), id, i as int);
                }
                return Some(self.spans[i].1);
            }
            i = i + 1;
        }
        proof {
            lemma_first_index_none(self.span_keys(), id);
        }
        None
    }

    fn item(&self, id: ItemId) -> (r: Option<&ItemKind>) {
        proof {
            lemma_first_index_key(self.item_keys(), id);
        }
        let mut i: usize = 0;
        while i < self.items.len()
            invariant
                i <= self.items@.len(),
                forall|j: int| 0 <= j < i ==> self.item_keys()[j] != id,
            decreases self.items@.len() - i,
        {
            if self.items[i].id() == id {
                proof {
                    lemma_first_index_at(self.item_keys(), id, i as int);
                }
                return Some(&self.items[i]);
            }
            i = i + 1;
        }
        proof {
            lemma_first_index_none(self.item_keys(), id);
        }
        None
    }

    fn emit_lint(&mut self, lint: &Lint, msg: &str, span: SpanId) {
        self.emitted.push((*lint, String::from_str(msg), span));
        proof {
            assert(self.host_emitted().drop_last() =~= old(self).host_emitted());
        }
    }
}

} // verus!
