//! Parsing one implementation construct out of source text.
//!
//! The host language's parser (the `syn` crate) does the lexical work;
//! everything it hands back is plain values, and every decision taken on
//! them is made by verified code. The parse result is deterministic in
//! the source text alone, so it is named by the uninterpreted function
//! [`parsed_impl_of`], and the contracts of the entry points are stated
//! through that name.

use vstd::prelude::*;

use crate::member::{Member, MemberKind, MemberModel};

verus! {

/// The three pieces the parser hands back for one implementation
/// construct: the self-type position and the trait position, each present
/// exactly when it is written as a simple, unqualified, argument-free
/// identifier, and the members of the block in source order.
pub struct ParsedImpl {
    pub self_ty_ident: Option<String>,
    pub trait_ident: Option<String>,
    pub members: Vec<Member>,
}

/// The mathematical value of a [`ParsedImpl`].
pub struct ParsedImplModel {
    pub self_ty_ident: Option<Seq<char>>,
    pub trait_ident: Option<Seq<char>>,
    pub members: Seq<MemberModel>,
}

impl View for ParsedImpl {
    type V = ParsedImplModel;

    open spec fn view(&self) -> ParsedImplModel {
        ParsedImplModel {
            self_ty_ident: match self.self_ty_ident {
                Some(s) => Some(s@),
                None => None,
            },
            trait_ident: match self.trait_ident {
                Some(s) => Some(s@),
                None => None,
            },
            members: crate::member::members_view(self.members@),
        }
    }
}

/// The view of a parse result.
pub open spec fn parsed_view(r: Option<ParsedImpl>) -> Option<ParsedImplModel> {
    match r {
        Some(p) => Some(p@),
        None => None,
    }
}

/// What the parser yields for the source text `s`: `None` when `s` is
/// not a syntactically valid implementation construct, otherwise the
/// construct's pieces. The result is a function of the text alone.
pub uninterp spec fn parsed_impl_of(s: Seq<char>) -> Option<ParsedImplModel>;

/// The `syn` crate's `ImplItem`, one member of a parsed implementation
/// block, carried opaquely between the two parsing wrappers.
#[verifier::external_type_specification]
#[verifier::external_body]
pub struct ExImplItem(syn::ImplItem);

/// Relies on `syn::parse_str::<syn::ItemImpl>` to parse one
/// implementation construct, on `syn::Path::get_ident` to yield the
/// trait and self-type identifiers exactly when each is a simple
/// unqualified identifier, and on `Ident`'s printing for their text.
/// All of these are deterministic in the source text, so the result is
/// stated through `parsed_impl_of`.
#[verifier::external_body]
pub(crate) fn parse_impl_text(src: &str) -> (r: Option<ParsedImpl>)
    ensures
        parsed_view(r) == parsed_impl_of(src@),
{
    let item: syn::ItemImpl = match syn::parse_str(src) {
        Ok(item) => item,
        Err(_) => return None,
    };
    let self_ty_ident = match &*item.self_ty {
        syn::Type::Path(p) => p.path.get_ident().map(|i| i.to_string()),
        _ => None,
    };
    let trait_ident = item.trait_.as_ref().and_then(|t| t.1.get_ident()).map(|i| i.to_string());
    let members = item.items.iter().map(member_of_impl_item).collect();
    Some(ParsedImpl { self_ty_ident, trait_ident, members })
}

/// Relies on `syn::ImplItem`'s variants to tell a method, an associated
/// constant, an associated type and a macro invocation apart, and on
/// `quote::ToTokens` printing to serialize the member back to source
/// text. Called only while building a parse result, so its outcome is
/// covered by `parsed_impl_of`.
#[verifier::external_body]
fn member_of_impl_item(item: &syn::ImplItem) -> (r: Member)
{
    let text = quote::ToTokens::to_token_stream(item).to_string();
    let (kind, ident) = match item {
        syn::ImplItem::Method(m) => (MemberKind::Function, m.sig.ident.to_string()),
        syn::ImplItem::Const(c) => (MemberKind::Constant, c.ident.to_string()),
        syn::ImplItem::Type(t) => (MemberKind::AssociatedType, t.ident.to_string()),
        syn::ImplItem::Macro(_) => (MemberKind::MacroInvocation, String::new()),
        _ => (MemberKind::Opaque, String::new()),
    };
    Member { kind, ident, text }
}

} // verus!
