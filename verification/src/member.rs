//! Members of an implementation block, and the rules by which a recorded
//! default's members are merged into a target block.

use vstd::prelude::*;

verus! {

/// What kind of item one member of an implementation block is.
///
/// `Function`, `Constant` and `AssociatedType` are the member kinds that
/// carry an identifier of their own and can be merged individually.
/// `MacroInvocation` stands for a nested macro call inside a block, and
/// `Opaque` for tokens the parser left uninterpreted; neither can be
/// individuated, and the merge refuses a stored default holding either.
#[derive(Clone, Copy, PartialEq, Eq, Structural, Debug)]
pub enum MemberKind {
    Function,
    Constant,
    AssociatedType,
    MacroInvocation,
    Opaque,
}

/// One member of an implementation block, carried with its source text.
///
/// For the kinds `MacroInvocation` and `Opaque` the identifier is empty
/// and never consulted.
pub struct Member {
    pub kind: MemberKind,
    pub ident: String,
    pub text: String,
}

/// The mathematical value of a [`Member`].
pub struct MemberModel {
    pub kind: MemberKind,
    pub ident: Seq<char>,
    pub text: Seq<char>,
}

impl View for Member {
    type V = MemberModel;

    open spec fn view(&self) -> MemberModel {
        MemberModel { kind: self.kind, ident: self.ident@, text: self.text@ }
    }
}

impl Clone for Member {
    fn clone(&self) -> (r: Self)
        ensures
            r == *self,
    {
        Member { kind: self.kind, ident: self.ident.clone(), text: self.text.clone() }
    }
}

/// A member that is individuated by an identifier: a function, an
/// associated constant or an associated type.
pub open spec fn is_named(m: MemberModel) -> bool {
    m.kind == MemberKind::Function || m.kind == MemberKind::Constant || m.kind
        == MemberKind::AssociatedType
}

/// Whether some named member of `ms` bears the identifier `id`.
pub open spec fn defines_ident(ms: Seq<MemberModel>, id: Seq<char>) -> bool {
    exists|i: int| 0 <= i < ms.len() && is_named(#[trigger] ms[i]) && ms[i].ident == id
}

/// No two named members of `ms` share an identifier. Identifier
/// uniqueness is scoped to one implementation block.
pub open spec fn unique_named_idents(ms: Seq<MemberModel>) -> bool {
    forall|i: int, j: int|
        0 <= i < j < ms.len() && is_named(#[trigger] ms[i]) && is_named(#[trigger] ms[j])
            ==> ms[i].ident != ms[j].ident
}

/// A default member is appended by the merge exactly when it is named and
/// its identifier is not already defined among the target's own members.
pub open spec fn kept_by(target: Seq<MemberModel>) -> spec_fn(MemberModel) -> bool {
    |m: MemberModel| is_named(m) && !defines_ident(target, m.ident)
}

/// The members of the merged block: the target's own members unchanged,
/// followed by the default members whose identifiers the target does not
/// define, in their recorded relative order.
pub open spec fn merged_members(target: Seq<MemberModel>, defaults: Seq<MemberModel>) -> Seq<
    MemberModel,
> {
    target + defaults.filter(kept_by(target))
}

/// A member the merge cannot individuate as a function, an associated
/// constant or an associated type: a nested macro invocation, or tokens
/// the parser left uninterpreted.
pub open spec fn is_unsupported(m: MemberModel) -> bool {
    m.kind == MemberKind::MacroInvocation || m.kind == MemberKind::Opaque
}

/// Whether `ms` holds a member the merge cannot individuate.
pub open spec fn has_unsupported_member(ms: Seq<MemberModel>) -> bool {
    exists|i: int| 0 <= i < ms.len() && is_unsupported(#[trigger] ms[i])
}

/// How many named members of `ms` bear the identifier `id`.
pub open spec fn count_with_ident(ms: Seq<MemberModel>, id: Seq<char>) -> nat
    decreases ms.len(),
{
    if ms.len() == 0 {
        0
    } else {
        count_with_ident(ms.drop_last(), id) + (if is_named(ms.last()) && ms.last().ident == id {
            1nat
        } else {
            0nat
        })
    }
}

/// The views of a sequence of members.
pub open spec fn members_view(ms: Seq<Member>) -> Seq<MemberModel> {
    ms.map_values(|m: Member| m@)
}

/// Extending a prefix of `ms` by one member extends the identifiers it
/// defines by exactly that member's identifier, when it has one.
pub proof fn lemma_defines_ident_extend(ms: Seq<MemberModel>, i: int)
    requires
        0 <= i < ms.len(),
    ensures
        forall|id: Seq<char>|
            defines_ident(ms.take(i + 1), id) <==> (defines_ident(ms.take(i), id) || (is_named(
                ms[i],
            ) && ms[i].ident == id)),
{
    assert forall|id: Seq<char>|
        defines_ident(ms.take(i + 1), id) <==> (defines_ident(ms.take(i), id) || (is_named(ms[i])
            && ms[i].ident == id)) by {
        if defines_ident(ms.take(i + 1), id) {
            let j = choose|j: int|
                0 <= j < ms.take(i + 1).len() && is_named(#[trigger] ms.take(i + 1)[j])
                    && ms.take(i + 1)[j].ident == id;
            if j < i {
                assert(is_named(ms.take(i)[j]) && ms.take(i)[j].ident == id);
            }
        }
        if defines_ident(ms.take(i), id) {
            let j = choose|j: int|
                0 <= j < ms.take(i).len() && is_named(#[trigger] ms.take(i)[j]) && ms.take(
                    i,
                )[j].ident == id;
            assert(is_named(ms.take(i + 1)[j]) && ms.take(i + 1)[j].ident == id);
        }
        if is_named(ms[i]) && ms[i].ident == id {
            assert(is_named(ms.take(i + 1)[i]) && ms.take(i + 1)[i].ident == id);
        }
    }
}

/// One step of `filter` along a growing prefix: the member at position
/// `i` is appended to the filtered prefix exactly when the predicate
/// holds of it.
pub proof fn lemma_filter_take_step(ms: Seq<MemberModel>, p: spec_fn(MemberModel) -> bool, i: int)
    requires
        0 <= i < ms.len(),
    ensures
        ms.take(i + 1).filter(p) == if p(ms[i]) {
            ms.take(i).filter(p).push(ms[i])
        } else {
            ms.take(i).filter(p)
        },
{
    reveal(Seq::filter);
    assert(ms.take(i + 1).drop_last() =~= ms.take(i));
    assert(ms.take(i + 1).last() == ms[i]);
}

/// Mapping a pushed member sequence to views pushes the member's view.
pub proof fn lemma_members_view_push(ms: Seq<Member>, m: Member)
    ensures
        members_view(ms.push(m)) == members_view(ms).push(m@),
{
    assert(members_view(ms.push(m)) =~= members_view(ms).push(m@));
}

/// Whether this member is individuated by an identifier.
pub fn member_is_named(m: &Member) -> (r: bool)
    ensures
        r == is_named(m@),
{
    match m.kind {
        MemberKind::Function => true,
        MemberKind::Constant => true,
        MemberKind::AssociatedType => true,
        MemberKind::MacroInvocation => false,
        MemberKind::Opaque => false,
    }
}

/// Whether the merge cannot individuate this member.
pub fn member_is_unsupported(m: &Member) -> (r: bool)
    ensures
        r == is_unsupported(m@),
{
    match m.kind {
        MemberKind::MacroInvocation => true,
        MemberKind::Opaque => true,
        MemberKind::Function => false,
        MemberKind::Constant => false,
        MemberKind::AssociatedType => false,
    }
}

} // verus!
