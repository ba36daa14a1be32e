//! Plain descriptions of a declaration: what kind of item it is, its name,
//! its attributes and, for an enum, the names of its variants.

use vstd::prelude::*;

verus! {

/// One argument inside the parentheses of an attribute.
#[derive(Clone, Debug, PartialEq, Eq)]
pub enum AttrArg {
    /// `name = "value"`: a name bound to a string literal.
    Setting { name: String, value: String },
    /// Anything else: a bare word, a nested list, a name bound to something
    /// that is not a string literal.
    Other,
}

/// An attribute on a declaration, such as `#[path_str(prefix = "icons")]`.
#[derive(Clone, Debug, PartialEq, Eq)]
pub struct Attribute {
    /// The attribute's path as written, `path_str` in the example.
    pub name: String,
    /// The arguments in declaration order; empty for an attribute that has
    /// no parenthesised list.
    pub args: Vec<AttrArg>,
}

/// What an item declares.
#[derive(Clone, Debug, PartialEq, Eq)]
pub enum ItemData {
    /// An enum, with the names of its variants in declaration order.
    Enum { variants: Vec<String> },
    /// A struct.
    Struct,
    /// A union.
    Union,
}

/// A type declaration as the derive sees it.
#[derive(Clone, Debug, PartialEq, Eq)]
pub struct ItemDecl {
    /// The name of the declared type.
    pub name: String,
    /// The attributes on the declaration, in declaration order.
    pub attrs: Vec<Attribute>,
    /// The kind of item and, for an enum, its variants.
    pub data: ItemData,
}

/// The mathematical value of an [`AttrArg`].
pub enum AttrArgView {
    Setting { name: Seq<char>, value: Seq<char> },
    Other,
}

/// The mathematical value of an [`Attribute`].
pub struct AttributeView {
    pub name: Seq<char>,
    pub args: Seq<AttrArgView>,
}

/// The mathematical value of an [`ItemData`].
pub enum ItemDataView {
    Enum { variants: Seq<Seq<char>> },
    Struct,
    Union,
}

/// The mathematical value of an [`ItemDecl`].
pub struct ItemDeclView {
    pub name: Seq<char>,
    pub attrs: Seq<AttributeView>,
    pub data: ItemDataView,
}

impl View for AttrArg {
    type V = AttrArgView;

    open spec fn view(&self) -> AttrArgView {
        match self {
            AttrArg::Setting { name, value } => AttrArgView::Setting {
                name: name@,
                value: value@,
            },
            AttrArg::Other => AttrArgView::Other,
        }
    }
}

impl View for Attribute {
    type V = AttributeView;

    open spec fn view(&self) -> AttributeView {
        AttributeView { name: self.name@, args: self.args@.map_values(|arg: AttrArg| arg@) }
    }
}

/// The texts of a list of strings.
pub open spec fn texts(names: Seq<String>) -> Seq<Seq<char>> {
    names.map_values(|name: String| name@)
}

impl View for ItemData {
    type V = ItemDataView;

    open spec fn view(&self) -> ItemDataView {
        match self {
            ItemData::Enum { variants } => ItemDataView::Enum { variants: texts(variants@) },
            ItemData::Struct => ItemDataView::Struct,
            ItemData::Union => ItemDataView::Union,
        }
    }
}

/// The values of a list of attributes.
pub open spec fn attr_views(attrs: Seq<Attribute>) -> Seq<AttributeView> {
    attrs.map_values(|attr: Attribute| attr@)
}

impl View for ItemDecl {
    type V = ItemDeclView;

    open spec fn view(&self) -> ItemDeclView {
        ItemDeclView { name: self.name@, attrs: attr_views(self.attrs@), data: self.data@ }
    }
}

} // verus!
