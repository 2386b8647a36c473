//! The syntax tree that the transformation works on.
//!
//! The tree keeps as plain values what the transformation reads: names,
//! paths, the nesting of types, patterns, expressions and statements, and the
//! annotations. Everything else rides along as an opaque [`Tokens`] handle.
pub mod attr;
pub mod decl;
pub mod expr;
pub mod item;
pub mod pat;
pub mod token;
pub mod ty;
pub mod use_tree;

pub use attr::{Attribute, AttributeView, Meta, MetaValue, MetaValueView, MetaView};
pub use decl::{
    Field, FieldView, Fields, FieldsView, FnArg, FnArgView, GenericParam, GenericParamView,
    Generics, GenericsView, Signature, SignatureView, WherePredicate, WherePredicateView,
};
pub use expr::{
    Arm, ArmView, Block, BlockView, Expr, ExprKind, ExprKindView, ExprView, FieldValue,
    FieldValueView, Item, ItemFn, ItemFnView, ItemView, Local, LocalInit, LocalInitView,
    LocalView, Stmt, StmtView,
};
pub use item::{
    ImplItem, ImplItemFn, ImplItemFnView, ImplItemView, ItemImpl, ItemImplView, ItemMod,
    ItemModView, ItemStruct, ItemStructView,
};
pub use pat::{FieldPat, FieldPatView, Pat, PatView};
pub use token::{Ident, IdentView, Span, Tokens};
pub use ty::{
    BareFnArg, BareFnArgView, GenericArgument, GenericArgumentView, Macro, MacroView, Path,
    PathArguments, PathArgumentsView, PathSegment, PathSegmentView, PathView, QSelf, QSelfView,
    ReturnType, ReturnTypeView, Type, TypeParamBound, TypeParamBoundView, TypeView,
};
pub use use_tree::{ItemUse, ItemUseView, UseTree, UseTreeView};
