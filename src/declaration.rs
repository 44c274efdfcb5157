//! User declaration blocks, as the registration expander reads them.
use vstd::prelude::*;
use crate::cfg::CfgPredicate;

verus! {

/// What an attribute carries besides its name.
pub enum AttrValue {
    /// The keys of a `#[func(..)]` attribute: `rename = name` and `gd_self`.
    Keys { rename: Option<String>, gd_self: bool },
    /// The predicate of a `#[cfg(..)]` attribute.
    Predicate(CfgPredicate),
    /// Anything else; carried through unread.
    Opaque,
}

/// An attribute on a declaration, such as `#[func]` or `#[cfg(test)]`.
pub struct Attribute {
    /// The segments of the attribute's path.
    pub path: Vec<String>,
    pub value: AttrValue,
}

/// The qualifiers written before `fn`.
#[derive(Clone, Copy, Debug, PartialEq, Eq, Structural)]
pub struct FnQualifiers {
    pub tk_default: bool,
    pub tk_const: bool,
    pub tk_async: bool,
    pub tk_unsafe: bool,
    pub tk_extern: bool,
    /// An ABI string after `extern`.
    pub extern_abi: bool,
}

/// One parameter of a function.
pub enum FnParam {
    /// `self`, `&self` or `&mut self`.
    Receiver,
    /// `name: ty`; the type is kept as its source text.
    Typed { name: String, ty: String },
}

/// A function inside an impl block.
pub struct Function {
    pub name: String,
    pub attributes: Vec<Attribute>,
    pub qualifiers: FnQualifiers,
    pub has_generic_params: bool,
    pub params: Vec<FnParam>,
    /// The declared return type as source text; `None` when the function returns `()`.
    pub return_ty: Option<String>,
}

/// An associated constant inside an impl block.
pub struct Constant {
    pub name: String,
    pub attributes: Vec<Attribute>,
    pub has_initializer: bool,
}

/// One member of an impl block.
pub enum ImplMember {
    Method(Function),
    Constant(Constant),
    /// Types, macros and other members, left as they are.
    Other,
}

/// An impl block.
pub struct Impl {
    /// The implementing type's name, when it is a path; `None` otherwise.
    pub self_ty: Option<String>,
    pub has_generic_params: bool,
    /// The implemented trait, for a trait impl.
    pub trait_ty: Option<String>,
    pub body_items: Vec<ImplMember>,
}

/// A declaration marked as host-facing.
pub enum Declaration {
    Impl(Impl),
    /// A struct, a function, or any other item.
    Other,
}

} // verus!
