//! The implementation block: the construct binding a set of members to a
//! (trait, type) pair.

use vstd::prelude::*;

use crate::member::{members_view, Member, MemberModel};

verus! {

/// One implementation block, as parsed from source text.
///
/// `trait_name` is the trait reference exactly as written at the site: an
/// alias when the block feeds the transformation, the real trait name
/// after the merge has rewritten it. `target_type` is the self-type
/// position; the register operation reads the alias from it.
pub struct ImplBlock {
    pub trait_name: String,
    pub target_type: String,
    pub members: Vec<Member>,
}

/// The mathematical value of an [`ImplBlock`].
pub struct ImplBlockModel {
    pub trait_name: Seq<char>,
    pub target_type: Seq<char>,
    pub members: Seq<MemberModel>,
}

impl View for ImplBlock {
    type V = ImplBlockModel;

    open spec fn view(&self) -> ImplBlockModel {
        ImplBlockModel {
            trait_name: self.trait_name@,
            target_type: self.target_type@,
            members: members_view(self.members@),
        }
    }
}

} // verus!
