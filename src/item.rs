//! Items: the declarations of a compilation unit, their shared data, and the
//! dispatch of shared accessors over the item families.
use vstd::prelude::*;

use crate::body::{Body, ExprKind};
use crate::callable::{Callable, CallableData};
use crate::common::{Abi, FieldId, ItemId, Mutability, Safety, SpanId, SymbolId, VariantId};
use crate::context::{text_agrees, AstContext, DriverContext};
use crate::ffi::FfiOption;
use crate::generic::{GenericArgs, GenericParams};
use crate::ty::TyKind;

verus! {

/// The visibility of an item. It is opaque to checks and resolved through the
/// context only.
#[derive(Clone, Copy, Debug, PartialEq, Eq, Structural, Hash)]
pub struct Visibility {
    item_id: ItemId,
}

impl Visibility {
    pub closed spec fn spec_item_id(&self) -> ItemId {
        self.item_id
    }

    pub fn new(item_id: ItemId) -> (r: Visibility)
        ensures
            r.spec_item_id() == item_id,
    {
        Visibility { item_id }
    }
}

/// Two visibilities are equal exactly when they belong to the same item.
pub proof fn lemma_visibility_by_item(v: Visibility, w: Visibility)
    ensures
        v.spec_item_id() == w.spec_item_id() <==> v == w,
{
}

/// The fields every item carries, whatever its kind.
#[derive(Clone, Copy, Debug)]
pub struct CommonItemData {
    id: ItemId,
    span: SpanId,
    vis: Visibility,
    name: SymbolId,
}

impl CommonItemData {
    pub closed spec fn spec_id(&self) -> ItemId {
        self.id
    }

    pub closed spec fn spec_span(&self) -> SpanId {
        self.span
    }

    pub closed spec fn spec_vis(&self) -> Visibility {
        self.vis
    }

    pub closed spec fn spec_name(&self) -> SymbolId {
        self.name
    }

    pub fn new(id: ItemId, span: SpanId, vis: Visibility, name: SymbolId) -> (r: CommonItemData)
        ensures
            r.spec_id() == id,
            r.spec_span() == span,
            r.spec_vis() == vis,
            r.spec_name() == name,
    {
        CommonItemData { id, span, vis, name }
    }
}

/// Read-only access to the data that every item shares.
pub trait ItemData {
    spec fn common(&self) -> CommonItemData;

    fn data(&self) -> (r: &CommonItemData)
        ensures
            *r == self.common(),
    ;

    /// The id by which the item is compared and requested from the context.
    fn id(&self) -> (r: ItemId)
        ensures
            r == self.common().spec_id(),
    {
        self.data().id
    }

    /// The span of the whole item, for item related diagnostics.
    fn span(&self) -> (r: SpanId)
        ensures
            r == self.common().spec_span(),
    {
        self.data().span
    }

    fn visibility(&self) -> (r: Visibility)
        ensures
            r == self.common().spec_vis(),
    {
        self.data().vis
    }

    /// The name of the item; `None` for an item the host generated without a
    /// name of its own.
    fn name<D: DriverContext>(&self, cx: &AstContext<D>) -> (r: Option<String>)
        ensures
            text_agrees(r, cx.spec_symbol_str(self.common().spec_name())),
    {
        cx.symbol_str(self.data().name)
    }
}

/// A module, with the items declared in it in declaration order.
#[derive(Debug)]
pub struct ModItem {
    pub data: CommonItemData,
    pub items: Vec<ItemKind>,
}

/// An `extern crate` item.
#[derive(Debug)]
pub struct ExternCrateItem {
    pub data: CommonItemData,
    pub crate_name: SymbolId,
}

/// A `use` declaration, with the segments of its path.
#[derive(Debug)]
pub struct UseDeclItem {
    pub data: CommonItemData,
    pub path: Vec<SymbolId>,
}

/// A `static` item.
#[derive(Debug)]
pub struct StaticItem {
    pub data: CommonItemData,
    pub mutability: Mutability,
    pub ty: TyKind,
}

/// A `const` item.
#[derive(Debug)]
pub struct ConstItem {
    pub data: CommonItemData,
    pub ty: TyKind,
}

/// A function or method, with its body where it has one.
#[derive(Debug)]
pub struct FnItem {
    pub data: CommonItemData,
    pub generics: GenericParams,
    pub callable_data: CallableData,
    pub body: Option<Body>,
}

/// A type alias; an associated type in a trait may have no aliased type.
#[derive(Debug)]
pub struct TyAliasItem {
    pub data: CommonItemData,
    pub generics: GenericParams,
    pub aliased_ty: FfiOption<TyKind>,
}

/// A field of a struct, a union or an enum variant.
#[derive(Debug)]
pub struct ItemField {
    pub id: FieldId,
    pub vis: Visibility,
    pub name: SymbolId,
    pub ty: TyKind,
    pub span: SpanId,
}

/// A variant of an enum.
#[derive(Debug)]
pub struct EnumVariant {
    pub id: VariantId,
    pub name: SymbolId,
    pub span: SpanId,
    pub fields: Vec<ItemField>,
}

/// A struct.
#[derive(Debug)]
pub struct StructItem {
    pub data: CommonItemData,
    pub generics: GenericParams,
    pub fields: Vec<ItemField>,
}

/// An enum.
#[derive(Debug)]
pub struct EnumItem {
    pub data: CommonItemData,
    pub generics: GenericParams,
    pub variants: Vec<EnumVariant>,
}

/// A union.
#[derive(Debug)]
pub struct UnionItem {
    pub data: CommonItemData,
    pub generics: GenericParams,
    pub fields: Vec<ItemField>,
}

/// A trait, with its associated items.
#[derive(Debug)]
pub struct TraitItem {
    pub data: CommonItemData,
    pub generics: GenericParams,
    pub is_unsafe: bool,
    pub items: Vec<AssocItemKind>,
}

/// Whether an impl is positive, or negative like `impl !Send for T`.
#[derive(Clone, Copy, Debug, PartialEq, Eq, Structural)]
#[non_exhaustive]
pub enum ImplPolarity {
    Positive,
    Negative,
}

/// The trait named by a trait impl, resolved to the trait item's id.
#[derive(Debug)]
pub struct TraitRef {
    pub trait_id: ItemId,
    pub generics: GenericArgs,
}

impl TraitRef {
    pub fn trait_id(&self) -> (r: ItemId)
        ensures
            r == self.trait_id,
    {
        self.trait_id
    }
}

/// An `impl` block: inherent where it names no trait.
#[derive(Debug)]
pub struct ImplItem {
    pub data: CommonItemData,
    pub safety: Safety,
    pub polarity: ImplPolarity,
    pub trait_ref: FfiOption<TraitRef>,
    pub ty: TyKind,
    pub generics: GenericParams,
    pub items: Vec<AssocItemKind>,
}

impl ImplItem {
    /// The implemented trait, for a trait impl; `None` for an inherent impl.
    pub fn trait_ref(&self) -> (r: Option<&TraitRef>)
        ensures
            r == match self.trait_ref.view_opt() {
                Some(t) => Some(&t),
                None => None::<&TraitRef>,
            },
    {
        self.trait_ref.get()
    }
}

/// An anonymous constant, like the length in `[u8; 4]`.
#[derive(Debug)]
pub struct AnonConst {
    ty: TyKind,
    value: ExprKind,
}

impl AnonConst {
    pub closed spec fn spec_ty(&self) -> TyKind {
        self.ty
    }

    pub closed spec fn spec_value(&self) -> ExprKind {
        self.value
    }

    pub fn new(ty: TyKind, value: ExprKind) -> (r: AnonConst)
        ensures
            r.spec_ty() == ty,
            r.spec_value() == value,
    {
        AnonConst { ty, value }
    }

    pub fn get_ty(&self) -> (r: &TyKind)
        ensures
            *r == self.spec_ty(),
    {
        &self.ty
    }

    pub fn get_value(&self) -> (r: &ExprKind)
        ensures
            *r == self.spec_value(),
    {
        &self.value
    }
}

/// An item declared in an extern block.
#[derive(Debug)]
#[non_exhaustive]
pub enum ExternalItems {
    Static(StaticItem),
    Function(FnItem),
}

/// An `extern` block.
#[derive(Debug)]
pub struct ExternBlockItem {
    pub data: CommonItemData,
    pub safety: Safety,
    pub abi: Abi,
    pub items: Vec<ExternalItems>,
}

impl Callable for FnItem {
    open spec fn callable_view(&self) -> &CallableData {
        &self.callable_data
    }

    fn callable_data(&self) -> (r: &CallableData) {
        &self.callable_data
    }
}

impl ItemData for ModItem {
    open spec fn common(&self) -> CommonItemData {
        self.data
    }

    fn data(&self) -> (r: &CommonItemData) {
        &self.data
    }
}

impl ItemData for ExternCrateItem {
    open spec fn common(&self) -> CommonItemData {
        self.data
    }

    fn data(&self) -> (r: &CommonItemData) {
        &self.data
    }
}

impl ItemData for UseDeclItem {
    open spec fn common(&self) -> CommonItemData {
        self.data
    }

    fn data(&self) -> (r: &CommonItemData) {
        &self.data
    }
}

impl ItemData for StaticItem {
    open spec fn common(&self) -> CommonItemData {
        self.data
    }

    fn data(&self) -> (r: &CommonItemData) {
        &self.data
    }
}

impl ItemData for ConstItem {
    open spec fn common(&self) -> CommonItemData {
        self.data
    }

    fn data(&self) -> (r: &CommonItemData) {
        &self.data
    }
}

impl ItemData for FnItem {
    open spec fn common(&self) -> CommonItemData {
        self.data
    }

    fn data(&self) -> (r: &CommonItemData) {
        &self.data
    }
}

impl ItemData for TyAliasItem {
    open spec fn common(&self) -> CommonItemData {
        self.data
    }

    fn data(&self) -> (r: &CommonItemData) {
        &self.data
    }
}

impl ItemData for StructItem {
    open spec fn common(&self) -> CommonItemData {
        self.data
    }

    fn data(&self) -> (r: &CommonItemData) {
        &self.data
    }
}

impl ItemData for EnumItem {
    open spec fn common(&self) -> CommonItemData {
        self.data
    }

    fn data(&self) -> (r: &CommonItemData) {
        &self.data
    }
}

impl ItemData for UnionItem {
    open spec fn common(&self) -> CommonItemData {
        self.data
    }

    fn data(&self) -> (r: &CommonItemData) {
        &self.data
    }
}

impl ItemData for TraitItem {
    open spec fn common(&self) -> CommonItemData {
        self.data
    }

    fn data(&self) -> (r: &CommonItemData) {
        &self.data
    }
}

impl ItemData for ImplItem {
    open spec fn common(&self) -> CommonItemData {
        self.data
    }

    fn data(&self) -> (r: &CommonItemData) {
        &self.data
    }
}

impl ItemData for ExternBlockItem {
    open spec fn common(&self) -> CommonItemData {
        self.data
    }

    fn data(&self) -> (r: &CommonItemData) {
        &self.data
    }
}

/// An item of any kind.
#[derive(Debug)]
#[non_exhaustive]
pub enum ItemKind {
    Mod(ModItem),
    ExternCrate(ExternCrateItem),
    UseDecl(UseDeclItem),
    Static(StaticItem),
    Const(ConstItem),
    Fn(FnItem),
    TyAlias(TyAliasItem),
    Struct(StructItem),
    Enum(EnumItem),
    Union(UnionItem),
    Trait(TraitItem),
    Impl(ImplItem),
    ExternBlock(ExternBlockItem),
}

impl ItemKind {
    /// The shared data of whichever item this is.
    pub open spec fn common(&self) -> CommonItemData {
        match self {
            ItemKind::Mod(i) => i.data,
            ItemKind::ExternCrate(i) => i.data,
            ItemKind::UseDecl(i) => i.data,
            ItemKind::Static(i) => i.data,
            ItemKind::Const(i) => i.data,
            ItemKind::Fn(i) => i.data,
            ItemKind::TyAlias(i) => i.data,
            ItemKind::Struct(i) => i.data,
            ItemKind::Enum(i) => i.data,
            ItemKind::Union(i) => i.data,
            ItemKind::Trait(i) => i.data,
            ItemKind::Impl(i) => i.data,
            ItemKind::ExternBlock(i) => i.data,
        }
    }

    /// The id of the item.
    pub fn id(&self) -> (r: ItemId)
        ensures
            r == self.common().spec_id(),
    {
        match self {
            ItemKind::Mod(i) => i.id(),
            ItemKind::ExternCrate(i) => i.id(),
            ItemKind::UseDecl(i) => i.id(),
            ItemKind::Static(i) => i.id(),
            ItemKind::Const(i) => i.id(),
            ItemKind::Fn(i) => i.id(),
            ItemKind::TyAlias(i) => i.id(),
            ItemKind::Struct(i) => i.id(),
            ItemKind::Enum(i) => i.id(),
            ItemKind::Union(i) => i.id(),
            ItemKind::Trait(i) => i.id(),
            ItemKind::Impl(i) => i.id(),
            ItemKind::ExternBlock(i) => i.id(),
        }
    }

    /// The span of the item.
    pub fn span(&self) -> (r: SpanId)
        ensures
            r == self.common().spec_span(),
    {
        match self {
            ItemKind::Mod(i) => i.span(),
            ItemKind::ExternCrate(i) => i.span(),
            ItemKind::UseDecl(i) => i.span(),
            ItemKind::Static(i) => i.span(),
            ItemKind::Const(i) => i.span(),
            ItemKind::Fn(i) => i.span(),
            ItemKind::TyAlias(i) => i.span(),
            ItemKind::Struct(i) => i.span(),
            ItemKind::Enum(i) => i.span(),
            ItemKind::Union(i) => i.span(),
            ItemKind::Trait(i) => i.span(),
            ItemKind::Impl(i) => i.span(),
            ItemKind::ExternBlock(i) => i.span(),
        }
    }

    /// The visibility of the item.
    pub fn visibility(&self) -> (r: Visibility)
        ensures
            r == self.common().spec_vis(),
    {
        match self {
            ItemKind::Mod(i) => i.visibility(),
            ItemKind::ExternCrate(i) => i.visibility(),
            ItemKind::UseDecl(i) => i.visibility(),
            ItemKind::Static(i) => i.visibility(),
            ItemKind::Const(i) => i.visibility(),
            ItemKind::Fn(i) => i.visibility(),
            ItemKind::TyAlias(i) => i.visibility(),
            ItemKind::Struct(i) => i.visibility(),
            ItemKind::Enum(i) => i.visibility(),
            ItemKind::Union(i) => i.visibility(),
            ItemKind::Trait(i) => i.visibility(),
            ItemKind::Impl(i) => i.visibility(),
            ItemKind::ExternBlock(i) => i.visibility(),
        }
    }

    /// The name of the item, where it has one.
    pub fn name<D: DriverContext>(&self, cx: &AstContext<D>) -> (r: Option<String>)
        ensures
            text_agrees(r, cx.spec_symbol_str(self.common().spec_name())),
    {
        match self {
            ItemKind::Mod(i) => i.name(cx),
            ItemKind::ExternCrate(i) => i.name(cx),
            ItemKind::UseDecl(i) => i.name(cx),
            ItemKind::Static(i) => i.name(cx),
            ItemKind::Const(i) => i.name(cx),
            ItemKind::Fn(i) => i.name(cx),
            ItemKind::TyAlias(i) => i.name(cx),
            ItemKind::Struct(i) => i.name(cx),
            ItemKind::Enum(i) => i.name(cx),
            ItemKind::Union(i) => i.name(cx),
            ItemKind::Trait(i) => i.name(cx),
            ItemKind::Impl(i) => i.name(cx),
            ItemKind::ExternBlock(i) => i.name(cx),
        }
    }
}

/// An item associated with a trait or an impl.
#[derive(Debug)]
#[non_exhaustive]
pub enum AssocItemKind {
    TyAlias(TyAliasItem),
    Const(ConstItem),
    Fn(FnItem),
}

impl AssocItemKind {
    /// The shared data of whichever item this is.
    pub open spec fn common(&self) -> CommonItemData {
        match self {
            AssocItemKind::TyAlias(i) => i.data,
            AssocItemKind::Const(i) => i.data,
            AssocItemKind::Fn(i) => i.data,
        }
    }

    /// The id of the item.
    pub fn id(&self) -> (r: ItemId)
        ensures
            r == self.common().spec_id(),
    {
        match self {
            AssocItemKind::TyAlias(i) => i.id(),
            AssocItemKind::Const(i) => i.id(),
            AssocItemKind::Fn(i) => i.id(),
        }
    }

    /// The span of the item.
    pub fn span(&self) -> (r: SpanId)
        ensures
            r == self.common().spec_span(),
    {
        match self {
            AssocItemKind::TyAlias(i) => i.span(),
            AssocItemKind::Const(i) => i.span(),
            AssocItemKind::Fn(i) => i.span(),
        }
    }

    /// The visibility of the item.
    pub fn visibility(&self) -> (r: Visibility)
        ensures
            r == self.common().spec_vis(),
    {
        match self {
            AssocItemKind::TyAlias(i) => i.visibility(),
            AssocItemKind::Const(i) => i.visibility(),
            AssocItemKind::Fn(i) => i.visibility(),
        }
    }

    /// The name of the item, where it has one.
    pub fn name<D: DriverContext>(&self, cx: &AstContext<D>) -> (r: Option<String>)
        ensures
            text_agrees(r, cx.spec_symbol_str(self.common().spec_name())),
    {
        match self {
            AssocItemKind::TyAlias(i) => i.name(cx),
            AssocItemKind::Const(i) => i.name(cx),
            AssocItemKind::Fn(i) => i.name(cx),
        }
    }
}

impl AssocItemKind {
    /// The associated item as an item of the general family.
    pub fn into_item(self) -> (r: ItemKind)
        ensures
            r == match self {
                AssocItemKind::TyAlias(i) => ItemKind::TyAlias(i),
                AssocItemKind::Const(i) => ItemKind::Const(i),
                AssocItemKind::Fn(i) => ItemKind::Fn(i),
            },
            r.common() == self.common(),
    {
        match self {
            AssocItemKind::TyAlias(i) => ItemKind::TyAlias(i),
            AssocItemKind::Const(i) => ItemKind::Const(i),
            AssocItemKind::Fn(i) => ItemKind::Fn(i),
        }
    }
}

/// Each shared accessor of an item family gives what the same accessor gives on
/// the concrete item inside.
pub proof fn lemma_item_dispatch_forwards(k: &ItemKind)
    ensures
        k is Mod ==> k.common() == k->Mod_0.common(),
        k is ExternCrate ==> k.common() == k->ExternCrate_0.common(),
        k is UseDecl ==> k.common() == k->UseDecl_0.common(),
        k is Static ==> k.common() == k->Static_0.common(),
        k is Const ==> k.common() == k->Const_0.common(),
        k is Fn ==> k.common() == k->Fn_0.common(),
        k is TyAlias ==> k.common() == k->TyAlias_0.common(),
        k is Struct ==> k.common() == k->Struct_0.common(),
        k is Enum ==> k.common() == k->Enum_0.common(),
        k is Union ==> k.common() == k->Union_0.common(),
        k is Trait ==> k.common() == k->Trait_0.common(),
        k is Impl ==> k.common() == k->Impl_0.common(),
        k is ExternBlock ==> k.common() == k->ExternBlock_0.common(),
{
}

/// Each shared accessor of an associated item gives what the same accessor
/// gives on the concrete item inside.
pub proof fn lemma_assoc_dispatch_forwards(k: &AssocItemKind)
    ensures
        k is TyAlias ==> k.common() == k->TyAlias_0.common(),
        k is Const ==> k.common() == k->Const_0.common(),
        k is Fn ==> k.common() == k->Fn_0.common(),
{
}

} // verus!
