use marker_api::body::{Body, ExprKind, ExprStmt, ItemStmt, LetStmt, LitExpr, PathExpr, StmtKind};
use marker_api::callable::CallableData;
use marker_api::checks::{check_item, TraitRefCheck};
use marker_api::common::{BodyId, ExprId, FieldId, ItemId, Safety, SpanId, StmtId, SymbolId, VariantId};
use marker_api::context::{AstContext, DriverCallbacks, Level, Lint, Span};
use marker_api::table_host::TableHost;
use marker_api::ffi::{FfiOption, FfiSlice};
use marker_api::generic::{GenericArgs, GenericParams};
use marker_api::item::{
    CommonItemData, EnumItem, EnumVariant, FnItem, ImplItem, ImplPolarity, ItemField, ItemKind, ModItem,
    StructItem, TraitItem, TraitRef, Visibility,
};
use marker_api::lint_pass::{run_pass, Crate, NoopPass, Visit};
use marker_api::ty::{AdtTy, TyKind};

fn common(id: u64, span: u64) -> CommonItemData {
    CommonItemData::new(ItemId { raw: id }, SpanId { raw: span }, Visibility::new(ItemId { raw: id }), SymbolId { raw: id })
}

fn no_generics() -> GenericParams {
    GenericParams::new(FfiSlice::new(0, Vec::new()))
}

fn adt(id: u64) -> TyKind {
    TyKind::Adt(AdtTy { def_id: marker_api::common::TyDefId { raw: id } })
}

fn trait_item(id: u64) -> ItemKind {
    ItemKind::Trait(TraitItem { data: common(id, 100), generics: no_generics(), is_unsafe: false, items: Vec::new() })
}

fn impl_item(id: u64, span: u64, trait_id: Option<u64>) -> ItemKind {
    let trait_ref = trait_id.map(|t| TraitRef { trait_id: ItemId { raw: t }, generics: GenericArgs::new(FfiSlice::new(0, Vec::new())) });
    ItemKind::Impl(ImplItem {
        data: common(id, span),
        safety: Safety::Safe,
        polarity: ImplPolarity::Positive,
        trait_ref: FfiOption::new(trait_ref),
        ty: adt(1),
        generics: no_generics(),
        items: Vec::new(),
    })
}

fn spans() -> Vec<(SpanId, Span)> {
    vec![
        (SpanId { raw: 100 }, Span { lo: 0, hi: 10, from_expansion: false }),
        (SpanId { raw: 200 }, Span { lo: 10, hi: 20, from_expansion: true }),
    ]
}

fn context(items: Vec<ItemKind>) -> AstContext<TableHost> {
    let symbols = vec![
        (SymbolId { raw: 1 }, "Display".to_string()),
        (SymbolId { raw: 1 }, "shadowed".to_string()),
        (SymbolId { raw: 2 }, "main".to_string()),
    ];
    let host = TableHost::new(symbols, spans(), items);
    AstContext::new(DriverCallbacks::new(host))
}

fn emitted(cx: AstContext<TableHost>) -> Vec<(&'static str, String, SpanId)> {
    let host = cx.into_driver().into_driver_context();
    host.emitted().iter().map(|(l, m, s)| (l.name, m.clone(), *s)).collect()
}

#[test]
fn symbols_resolve_to_their_first_entry() {
    let cx = context(Vec::new());
    assert_eq!(cx.symbol_str(SymbolId { raw: 1 }), Some("Display".to_string()));
    assert_eq!(cx.symbol_str(SymbolId { raw: 2 }), Some("main".to_string()));
    assert_eq!(cx.symbol_str(SymbolId { raw: 3 }), None);
}

#[test]
fn spans_resolve_through_the_context() {
    let cx = context(Vec::new());
    let s = cx.span(SpanId { raw: 200 }).unwrap();
    assert!(s.is_from_expansion());
    assert_eq!((s.lo, s.hi), (10, 20));
    assert!(cx.span(SpanId { raw: 300 }).is_none());
}

#[test]
fn item_names_resolve_through_the_context() {
    let cx = context(Vec::new());
    let t = trait_item(1);
    assert_eq!(t.name(&cx), Some("Display".to_string()));
    let unnamed = trait_item(9);
    assert_eq!(unnamed.name(&cx), None);
}

#[test]
fn trait_ref_resolves_back_to_the_same_id() {
    let cx = context(vec![trait_item(1), impl_item(2, 100, Some(1))]);
    let imp = impl_item(2, 100, Some(1));
    let found = check_item(&cx, &imp).expect("trait resolves");
    assert_eq!(found.id(), ItemId { raw: 1 });
    assert!(matches!(found, ItemKind::Trait(_)));
}

#[test]
fn trait_ref_of_unknown_trait_resolves_to_nothing() {
    let cx = context(vec![trait_item(1)]);
    assert!(check_item(&cx, &impl_item(2, 100, Some(77))).is_none());
}

#[test]
fn inherent_impl_and_expanded_impl_are_skipped() {
    let cx = context(vec![trait_item(1)]);
    assert!(check_item(&cx, &impl_item(2, 100, None)).is_none());
    assert!(check_item(&cx, &impl_item(3, 200, Some(1))).is_none());
    assert!(check_item(&cx, &trait_item(1)).is_none());
}

const TALKING_DUCK: Lint = Lint { name: "talking_duck", default_level: Level::Warn };

#[test]
fn two_emits_reach_the_host_in_order() {
    let mut cx = context(Vec::new());
    cx.emit_lint(&TALKING_DUCK, "first", SpanId { raw: 100 });
    cx.emit_lint(&TALKING_DUCK, "second", SpanId { raw: 200 });
    let d = emitted(cx);
    assert_eq!(d.len(), 2);
    assert_eq!(d[0], ("talking_duck", "first".to_string(), SpanId { raw: 100 }));
    assert_eq!(d[1], ("talking_duck", "second".to_string(), SpanId { raw: 200 }));
}

fn field(id: u64) -> ItemField {
    ItemField { id: FieldId { raw: id }, vis: Visibility::new(ItemId { raw: 0 }), name: SymbolId { raw: id }, ty: adt(3), span: SpanId { raw: 100 } }
}

fn sample_crate() -> Crate {
    let strukt = ItemKind::Struct(StructItem { data: common(10, 100), generics: no_generics(), fields: vec![field(1), field(2)] });
    let enm = ItemKind::Enum(EnumItem {
        data: common(11, 100),
        generics: no_generics(),
        variants: vec![
            EnumVariant { id: VariantId { raw: 1 }, name: SymbolId { raw: 1 }, span: SpanId { raw: 100 }, fields: vec![field(3)] },
            EnumVariant { id: VariantId { raw: 2 }, name: SymbolId { raw: 2 }, span: SpanId { raw: 100 }, fields: Vec::new() },
        ],
    });
    let body = Body {
        id: BodyId { raw: 1 },
        owner: ItemId { raw: 12 },
        stmts: vec![
            StmtKind::Let(LetStmt { id: StmtId { raw: 1 }, span: SpanId { raw: 100 }, init: Some(ExprKind::Lit(LitExpr { id: ExprId { raw: 1 }, span: SpanId { raw: 100 } })) }),
            StmtKind::Let(LetStmt { id: StmtId { raw: 2 }, span: SpanId { raw: 100 }, init: None }),
            StmtKind::Expr(ExprStmt { id: StmtId { raw: 3 }, span: SpanId { raw: 100 }, expr: ExprKind::Path(PathExpr { id: ExprId { raw: 2 }, span: SpanId { raw: 100 }, target: None }) }),
        ],
    };
    let callable = CallableData {
        is_const: false,
        is_async: false,
        is_unsafe: false,
        is_extern: false,
        abi: FfiOption::new(None),
        has_self: false,
        params: FfiSlice::new(0, Vec::new()),
        return_ty: FfiOption::new(None),
    };
    let func = ItemKind::Fn(FnItem { data: common(12, 100), generics: no_generics(), callable_data: callable, body: Some(body) });
    Crate { id: ItemId { raw: 0 }, items: vec![trait_item(1), strukt, enm, func, impl_item(2, 100, Some(1))] }
}

fn expected_order() -> Vec<Visit> {
    vec![
        Visit::Crate,
        Visit::Item(ItemId { raw: 1 }),
        Visit::Item(ItemId { raw: 10 }),
        Visit::Field(FieldId { raw: 1 }),
        Visit::Field(FieldId { raw: 2 }),
        Visit::Item(ItemId { raw: 11 }),
        Visit::Variant(VariantId { raw: 1 }),
        Visit::Field(FieldId { raw: 3 }),
        Visit::Variant(VariantId { raw: 2 }),
        Visit::Item(ItemId { raw: 12 }),
        Visit::Body(BodyId { raw: 1 }),
        Visit::Stmt(StmtId { raw: 1 }),
        Visit::Expr(ExprId { raw: 1 }),
        Visit::Stmt(StmtId { raw: 2 }),
        Visit::Stmt(StmtId { raw: 3 }),
        Visit::Expr(ExprId { raw: 2 }),
        Visit::Item(ItemId { raw: 2 }),
    ]
}

#[test]
fn walk_visits_outer_nodes_first_in_declaration_order() {
    let krate = sample_crate();
    let mut cx = context(Vec::new());
    let order = run_pass(&mut NoopPass::new(), &mut cx, &krate);
    assert_eq!(order, expected_order());
}

#[test]
fn walk_is_stable_across_runs() {
    let krate = sample_crate();
    let mut cx = context(Vec::new());
    let first = run_pass(&mut NoopPass::new(), &mut cx, &krate);
    let mut check = TraitRefCheck::new();
    let second = run_pass(&mut check, &mut cx, &krate);
    assert_eq!(first, second);
}

#[test]
fn empty_crate_visits_the_crate_only() {
    let krate = Crate { id: ItemId { raw: 0 }, items: Vec::new() };
    let mut cx = context(Vec::new());
    assert_eq!(run_pass(&mut NoopPass::new(), &mut cx, &krate), vec![Visit::Crate]);
}

#[test]
fn check_overriding_only_check_item_resolves_trait_refs() {
    let krate = sample_crate();
    let mut cx = context(vec![trait_item(1), impl_item(2, 100, Some(1))]);
    let mut check = TraitRefCheck::new();
    run_pass(&mut check, &mut cx, &krate);
    assert_eq!(check.resolved(), 1);
}

fn module(id: u64, items: Vec<ItemKind>) -> ItemKind {
    ItemKind::Mod(ModItem { data: common(id, 100), items })
}

#[test]
fn walk_enters_nested_modules_in_declaration_order() {
    let inner = module(21, vec![trait_item(22)]);
    let outer = module(20, vec![trait_item(23), inner, trait_item(24)]);
    let krate = Crate { id: ItemId { raw: 0 }, items: vec![outer, trait_item(25)] };
    let mut cx = context(Vec::new());
    let order = run_pass(&mut NoopPass::new(), &mut cx, &krate);
    let ids: Vec<Visit> = [20u64, 23, 21, 22, 24, 25].iter().map(|i| Visit::Item(ItemId { raw: *i })).collect();
    let mut expected = vec![Visit::Crate];
    expected.extend(ids);
    assert_eq!(order, expected);
}

#[test]
fn walk_enters_items_declared_in_bodies() {
    let body = Body {
        id: BodyId { raw: 7 },
        owner: ItemId { raw: 30 },
        stmts: vec![StmtKind::Item(ItemStmt { id: StmtId { raw: 1 }, span: SpanId { raw: 100 }, item: trait_item(31) })],
    };
    let callable = CallableData {
        is_const: false,
        is_async: false,
        is_unsafe: false,
        is_extern: false,
        abi: FfiOption::new(None),
        has_self: false,
        params: FfiSlice::new(0, Vec::new()),
        return_ty: FfiOption::new(None),
    };
    let func = ItemKind::Fn(FnItem { data: common(30, 100), generics: no_generics(), callable_data: callable, body: Some(body) });
    let krate = Crate { id: ItemId { raw: 0 }, items: vec![func] };
    let mut cx = context(Vec::new());
    let order = run_pass(&mut NoopPass::new(), &mut cx, &krate);
    assert_eq!(
        order,
        vec![
            Visit::Crate,
            Visit::Item(ItemId { raw: 30 }),
            Visit::Body(BodyId { raw: 7 }),
            Visit::Stmt(StmtId { raw: 1 }),
            Visit::Item(ItemId { raw: 31 }),
        ]
    );
}

#[test]
fn trait_impls_in_modules_are_checked_too() {
    let krate = Crate { id: ItemId { raw: 0 }, items: vec![module(40, vec![impl_item(2, 100, Some(1))])] };
    let mut cx = context(vec![trait_item(1)]);
    let mut check = TraitRefCheck::new();
    run_pass(&mut check, &mut cx, &krate);
    assert_eq!(check.resolved(), 1);
}
