use marker_api::callable::{Callable, CallableData, Parameter};
use marker_api::common::{Abi, ItemId, Mutability, NumKind, SpanId, SymbolId, TextKind, TyDefId};
use marker_api::ffi::{FfiOption, FfiSlice};
use marker_api::generic::{GenericParamKind, GenericParams, LifetimeParam, TypeParam};
use marker_api::item::{
    AssocItemKind, CommonItemData, ConstItem, FnItem, ItemData, ItemKind, Visibility,
};
use marker_api::ty::{AdtTy, BoolTy, NeverTy, NumTy, RawPtrTy, RefTy, TextTy, TyKind};
use marker_api::{versions_compatible, CtorBlocker, MARKER_API_VERSION};

fn u8_ty() -> TyKind {
    TyKind::Num(NumTy::new(NumKind::U8))
}

fn common(id: u64) -> CommonItemData {
    CommonItemData::new(
        ItemId { raw: id },
        SpanId { raw: id },
        Visibility::new(ItemId { raw: id }),
        SymbolId { raw: id },
    )
}

fn no_generics() -> GenericParams {
    GenericParams::new(FfiSlice::new(0, Vec::new()))
}

fn callable(has_self: bool, params: Vec<Parameter>) -> CallableData {
    CallableData {
        is_const: false,
        is_async: true,
        is_unsafe: false,
        is_extern: false,
        abi: FfiOption::new(Some(Abi::C)),
        has_self,
        params: FfiSlice::new(0x1000, params),
        return_ty: FfiOption::new(Some(u8_ty())),
    }
}

#[test]
fn peel_refs_keeps_a_plain_type() {
    let t = u8_ty().peel_refs();
    assert!(matches!(t, TyKind::Num(ref n) if n.numeric_kind() == NumKind::U8));
}

#[test]
fn peel_refs_takes_off_nested_references() {
    let t = TyKind::Ref(RefTy::new(TyKind::Ref(RefTy::new(u8_ty(), Mutability::Unmut)), Mutability::Mut));
    let p = t.peel_refs();
    assert!(matches!(p, TyKind::Num(ref n) if n.numeric_kind() == NumKind::U8));
    assert!(!p.is_ref());
}

#[test]
fn peel_refs_stops_at_a_raw_pointer() {
    let inner = TyKind::Ref(RefTy::new(u8_ty(), Mutability::Unmut));
    let ptr = TyKind::RawPtr(RawPtrTy { inner: Box::new(inner), mutability: Mutability::Unmut });
    let t = TyKind::Ref(RefTy::new(ptr, Mutability::Unmut));
    match t.peel_refs() {
        TyKind::RawPtr(p) => assert!(p.inner.is_ref()),
        other => panic!("unexpected {:?}", other),
    }
}

#[test]
fn peel_refs_twice_equals_once() {
    let t = TyKind::Ref(RefTy::new(TyKind::Adt(AdtTy { def_id: TyDefId { raw: 7 } }), Mutability::Unmut));
    let once = t.peel_refs();
    let once_dbg = format!("{:?}", once);
    let twice = once.peel_refs();
    assert_eq!(format!("{:?}", twice), once_dbg);
}

#[test]
fn numeric_kinds_classify_exactly_once() {
    let all = [
        NumKind::Isize, NumKind::I8, NumKind::I16, NumKind::I32, NumKind::I64, NumKind::I128,
        NumKind::Usize, NumKind::U8, NumKind::U16, NumKind::U32, NumKind::U64, NumKind::U128,
        NumKind::F32, NumKind::F64,
    ];
    for k in all {
        let t = NumTy::new(k);
        let n = t.is_signed() as u8 + t.is_unsigned() as u8 + t.is_float() as u8;
        assert_eq!(n, 1);
        assert_eq!(t.is_integer(), !t.is_float());
    }
    assert!(NumTy::new(NumKind::I32).is_signed());
    assert!(NumTy::new(NumKind::U64).is_unsigned());
    assert!(NumTy::new(NumKind::F64).is_float());
    assert!(!NumTy::new(NumKind::F32).is_integer());
    assert!(NumTy::new(NumKind::Usize).is_integer());
}

#[test]
fn textual_kinds() {
    let s = TextTy::new(TextKind::Str);
    assert!(s.is_str());
    assert!(!s.is_char());
    assert_eq!(s.textual_kind(), TextKind::Str);
    let c = TextTy::new(TextKind::Char);
    assert!(c.is_char());
    assert!(!c.is_str());
}

#[test]
fn empty_slice_with_an_address_yields_nothing() {
    let s: FfiSlice<u32> = FfiSlice::new(0xdead_beef, Vec::new());
    assert_eq!(s.len(), 0);
    assert_eq!(s.addr(), 0xdead_beef);
    let mut n = 0;
    for _ in s.get() {
        n += 1;
    }
    assert_eq!(n, 0);
}

#[test]
fn slice_yields_exactly_its_elements() {
    let s = FfiSlice::new(8, vec![3u32, 1, 2]);
    assert_eq!(s.get(), &[3, 1, 2]);
    assert_eq!(s.len(), 3);
}

#[test]
fn absent_option_yields_no_payload() {
    let o: FfiOption<u32> = FfiOption::new(None);
    assert!(o.get().is_none());
    assert!(!o.is_some());
    let p = FfiOption::new(Some(5u32));
    assert_eq!(p.get(), Some(&5));
}

#[test]
fn parameter_accessors() {
    let p = Parameter::new(Some(SymbolId { raw: 3 }), Some(u8_ty()), None);
    assert_eq!(p.name(), Some(SymbolId { raw: 3 }));
    assert!(p.ty().is_some());
    assert_eq!(p.span(), None);
}

fn method(id: u64, has_self: bool) -> FnItem {
    let recv = Parameter::new(None, Some(u8_ty()), Some(SpanId { raw: 1 }));
    let arg = Parameter::new(Some(SymbolId { raw: 9 }), Some(u8_ty()), None);
    FnItem { data: common(id), generics: no_generics(), callable_data: callable(has_self, vec![recv, arg]), body: None }
}

#[test]
fn receiver_is_the_first_parameter() {
    let f = method(1, true);
    assert!(f.has_self());
    assert_eq!(f.params().len(), 2);
    let r = f.receiver().unwrap();
    assert_eq!(r.name(), None);
    assert_eq!(r.span(), Some(SpanId { raw: 1 }));
}

#[test]
fn without_self_no_parameter_is_a_receiver() {
    let f = method(1, false);
    assert!(!f.has_self());
    assert!(f.receiver().is_none());
    assert_eq!(f.params().len(), 2);
}

#[test]
fn callable_properties_read_through() {
    let f = method(1, false);
    assert!(!f.is_const());
    assert!(f.is_async());
    assert!(!f.is_unsafe());
    assert!(!f.is_extern());
    assert_eq!(f.abi(), Some(Abi::C));
    assert!(f.return_ty().is_some());
}

#[test]
fn item_dispatch_forwards_to_the_variant() {
    let f = method(42, false);
    let (id, span, vis) = (f.id(), f.span(), f.visibility());
    let k = ItemKind::Fn(f);
    assert_eq!(k.id(), id);
    assert_eq!(k.span(), span);
    assert_eq!(k.visibility(), vis);
    assert_eq!(id, ItemId { raw: 42 });
}

#[test]
fn assoc_dispatch_forwards_to_the_variant() {
    let c = ConstItem { data: common(5), ty: u8_ty() };
    let id = c.id();
    let k = AssocItemKind::Const(c);
    assert_eq!(k.id(), id);
    assert_eq!(k.span(), SpanId { raw: 5 });
}

#[test]
fn generic_param_span_dispatch() {
    let lt = LifetimeParam { id: marker_api::common::GenericId { raw: 1 }, name: SymbolId { raw: 2 }, span: FfiOption::new(Some(SpanId { raw: 3 })) };
    let ty = TypeParam { id: marker_api::common::GenericId { raw: 4 }, name: SymbolId { raw: 5 }, span: FfiOption::new(None) };
    let g = GenericParams::new(FfiSlice::new(16, vec![GenericParamKind::Lifetime(lt), GenericParamKind::Type(ty)]));
    let ps = g.params();
    assert_eq!(ps[0].span(), Some(SpanId { raw: 3 }));
    assert_eq!(ps[1].span(), None);
}

#[test]
fn visibility_compares_by_item() {
    assert_eq!(Visibility::new(ItemId { raw: 1 }), Visibility::new(ItemId { raw: 1 }));
    assert_ne!(Visibility::new(ItemId { raw: 1 }), Visibility::new(ItemId { raw: 2 }));
}

#[test]
fn version_strings_must_match_exactly() {
    assert!(versions_compatible(MARKER_API_VERSION, MARKER_API_VERSION));
    assert!(!versions_compatible("0.1.0", "0.1.1"));
    assert!(!versions_compatible("0.1.0", "0.1"));
    let _ = CtorBlocker::new();
}

#[test]
fn primitive_types_print_their_names() {
    assert_eq!(BoolTy::new().to_string(), "bool");
    assert_eq!(NeverTy::new().to_string(), "!");
    assert_eq!(NumTy::new(NumKind::U8).to_string(), "U8");
    assert_eq!(NumTy::new(NumKind::I128).to_string(), "I128");
    assert_eq!(NumTy::new(NumKind::F64).to_string(), "F64");
    assert_eq!(TextTy::new(TextKind::Str).to_string(), "Str");
    assert_eq!(TextTy::new(TextKind::Char).to_string(), "Char");
    assert_eq!(CtorBlocker::new().to_string(), "..");
}

#[test]
fn assoc_item_becomes_an_item_with_the_same_data() {
    let c = ConstItem { data: common(6), ty: u8_ty() };
    let k = AssocItemKind::Const(c).into_item();
    assert!(matches!(k, ItemKind::Const(_)));
    assert_eq!(k.id(), ItemId { raw: 6 });
}
