//! The laws of the transformation, stated and proved once and for all
//! inputs: what the merge preserves, what it appends, in which order, and
//! what a repeated registration leaves visible.

use vstd::prelude::*;

use crate::block::ImplBlockModel;
use crate::member::{
    count_with_ident, defines_ident, has_unsupported_member, is_named, kept_by, merged_members,
    unique_named_idents, MemberModel,
};
use crate::registry::DefaultRecordModel;
use crate::transform::{apply_outcome, captured_record, TransformError};

verus! {

/// A sequence that defines no named member with `id` holds no named
/// member counted for `id`.
proof fn lemma_count_zero(ms: Seq<MemberModel>, id: Seq<char>)
    requires
        !defines_ident(ms, id),
    ensures
        count_with_ident(ms, id) == 0,
    decreases ms.len(),
{
    if ms.len() > 0 {
        let d = ms.drop_last();
        assert forall|j: int| 0 <= j < d.len() implies !(is_named(#[trigger] d[j]) && d[j].ident
            == id) by {
            assert(ms[j] == d[j]);
        }
        lemma_count_zero(d, id);
        assert(ms[ms.len() - 1] == ms.last());
    }
}

/// Counting distributes over concatenation.
proof fn lemma_count_distributes(a: Seq<MemberModel>, b: Seq<MemberModel>, id: Seq<char>)
    ensures
        count_with_ident(a + b, id) == count_with_ident(a, id) + count_with_ident(b, id),
    decreases b.len(),
{
    if b.len() == 0 {
        assert(a + b =~= a);
    } else {
        assert((a + b).drop_last() =~= a + b.drop_last());
        assert((a + b).last() == b.last());
        lemma_count_distributes(a, b.drop_last(), id);
    }
}

/// Among defaults with pairwise distinct named identifiers, an identifier
/// that is defined by the defaults and not by the target is counted
/// exactly once in the members the merge keeps.
proof fn lemma_count_kept_once(
    defaults: Seq<MemberModel>,
    target: Seq<MemberModel>,
    id: Seq<char>,
)
    requires
        unique_named_idents(defaults),
        defines_ident(defaults, id),
        !defines_ident(target, id),
    ensures
        count_with_ident(defaults.filter(kept_by(target)), id) == 1,
    decreases defaults.len(),
{
    reveal(Seq::filter);
    let d = defaults.drop_last();
    let m = defaults.last();
    assert(defaults[defaults.len() - 1] == m);
    assert forall|i: int, j: int|
        0 <= i < j < d.len() && is_named(#[trigger] d[i]) && is_named(#[trigger] d[j]) implies
        d[i].ident != d[j].ident by {
        assert(defaults[i] == d[i] && defaults[j] == d[j]);
    }
    if is_named(m) && m.ident == id {
        // the last member is the one counted; uniqueness rules out any
        // earlier named member with `id`
        assert(!defines_ident(d, id)) by {
            if defines_ident(d, id) {
                let j = choose|j: int|
                    0 <= j < d.len() && is_named(#[trigger] d[j]) && d[j].ident == id;
                assert(defaults[j] == d[j]);
            }
        }
        assert(kept_by(target)(m));
        let kept = d.filter(kept_by(target));
        assert(!defines_ident(kept, id)) by {
            if defines_ident(kept, id) {
                let j = choose|j: int|
                    0 <= j < kept.len() && is_named(#[trigger] kept[j]) && kept[j].ident == id;
                assert(kept.contains(kept[j]));
                d.lemma_filter_contains_rev(kept_by(target), kept[j]);
                let j2 = choose|j2: int| 0 <= j2 < d.len() && d[j2] == kept[j];
            }
        }
        lemma_count_zero(kept, id);
        assert(defaults.filter(kept_by(target)) == kept.push(m));
        assert(kept.push(m).drop_last() =~= kept);
        assert(kept.push(m).last() == m);
    } else {
        // `id`'s witness lies before the last member
        assert(defines_ident(d, id)) by {
            let j = choose|j: int|
                0 <= j < defaults.len() && is_named(#[trigger] defaults[j]) && defaults[j].ident
                    == id;
            assert(d[j] == defaults[j]);
        }
        lemma_count_kept_once(d, target, id);
        if kept_by(target)(m) {
            let kept = d.filter(kept_by(target));
            assert(kept.push(m).drop_last() =~= kept);
            assert(kept.push(m).last() == m);
        }
    }
}

/// For every valid registration followed by an apply referencing it:
/// every member the target block defines itself stands unchanged, at its
/// own position, in the merged output; and every named default member
/// whose identifier the target does not define appears exactly once in
/// the output.
pub proof fn lemma_merge_preserves_and_completes(
    target: Seq<MemberModel>,
    defaults: Seq<MemberModel>,
)
    requires
        unique_named_idents(defaults),
    ensures
        merged_members(target, defaults).len() >= target.len(),
        forall|i: int|
            0 <= i < target.len() ==> merged_members(target, defaults)[i] == target[i],
        forall|id: Seq<char>|
            #![trigger count_with_ident(merged_members(target, defaults), id)]
            defines_ident(defaults, id) && !defines_ident(target, id) ==> count_with_ident(
                merged_members(target, defaults),
                id,
            ) == 1,
{
    let kept = defaults.filter(kept_by(target));
    assert forall|id: Seq<char>|
        defines_ident(defaults, id) && !defines_ident(target, id) implies count_with_ident(
        merged_members(target, defaults),
        id,
    ) == 1 by {
        lemma_count_distributes(target, kept, id);
        lemma_count_zero(target, id);
        lemma_count_kept_once(defaults, target, id);
    }
}

/// A valid registration followed by an apply that references its alias
/// succeeds, rewrites the trait reference to the registered real trait
/// name, and merges exactly the registered members into the target.
pub proof fn lemma_register_then_apply(
    registry: Map<Seq<char>, DefaultRecordModel>,
    registered: ImplBlockModel,
    target: ImplBlockModel,
)
    requires
        target.trait_name == registered.target_type,
        !has_unsupported_member(registered.members),
    ensures
        apply_outcome(
            registry.insert(registered.target_type, captured_record(registered)),
            target,
        ) == Ok::<ImplBlockModel, TransformError>(
            ImplBlockModel {
                trait_name: registered.trait_name,
                target_type: target.target_type,
                members: merged_members(target.members, registered.members),
            },
        ),
{
}

/// Registering under the same alias twice leaves only the second record
/// visible: the registry is as if the first registration never happened,
/// and so is every subsequent apply.
pub proof fn lemma_registration_last_write_wins(
    registry: Map<Seq<char>, DefaultRecordModel>,
    first: ImplBlockModel,
    second: ImplBlockModel,
    target: ImplBlockModel,
)
    requires
        first.target_type == second.target_type,
    ensures
        registry.insert(first.target_type, captured_record(first)).insert(
            second.target_type,
            captured_record(second),
        ) == registry.insert(second.target_type, captured_record(second)),
        apply_outcome(
            registry.insert(first.target_type, captured_record(first)).insert(
                second.target_type,
                captured_record(second),
            ),
            target,
        ) == apply_outcome(registry.insert(second.target_type, captured_record(second)), target),
{
    assert(registry.insert(first.target_type, captured_record(first)).insert(
        second.target_type,
        captured_record(second),
    ) =~= registry.insert(second.target_type, captured_record(second)));
}

/// Position `i` of the filtered sequence originates at a position of the
/// original sequence ahead of which exactly `i` members are kept.
proof fn lemma_filter_origin(s: Seq<MemberModel>, p: spec_fn(MemberModel) -> bool, i: int)
    requires
        0 <= i < s.filter(p).len(),
    ensures
        exists|i0: int|
            0 <= i0 < s.len() && p(#[trigger] s[i0]) && s[i0] == s.filter(p)[i] && s.take(
                i0,
            ).filter(p).len() == i,
    decreases s.len(),
{
    reveal(Seq::filter);
    let d = s.drop_last();
    let m = s.last();
    if i < d.filter(p).len() {
        lemma_filter_origin(d, p, i);
        let i0 = choose|i0: int|
            0 <= i0 < d.len() && p(#[trigger] d[i0]) && d[i0] == d.filter(p)[i] && d.take(
                i0,
            ).filter(p).len() == i;
        assert(s.take(i0) =~= d.take(i0));
        assert(s[i0] == d[i0]);
        assert(p(s[i0]) && s[i0] == s.filter(p)[i] && s.take(i0).filter(p).len() == i);
    } else {
        let i0 = s.len() - 1;
        assert(s.take(i0) =~= d);
        assert(p(s[i0]) && s[i0] == s.filter(p)[i] && s.take(i0).filter(p).len() == i);
    }
}

/// Keeping a longer prefix never keeps fewer members.
proof fn lemma_filter_take_monotone(
    s: Seq<MemberModel>,
    p: spec_fn(MemberModel) -> bool,
    x: int,
    y: int,
)
    requires
        0 <= x <= y <= s.len(),
    ensures
        s.take(x).filter(p).len() <= s.take(y).filter(p).len(),
{
    assert(s.take(y) =~= s.take(x) + s.subrange(x, y));
    Seq::filter_distributes_over_add(s.take(x), s.subrange(x, y), p);
}

/// Two appended default members stand in the merged output in the same
/// relative order in which they stood in the registered default.
pub proof fn lemma_appended_defaults_keep_order(
    target: Seq<MemberModel>,
    defaults: Seq<MemberModel>,
    i: int,
    j: int,
)
    requires
        target.len() <= i < j < merged_members(target, defaults).len(),
    ensures
        exists|i0: int, j0: int|
            0 <= i0 < j0 < defaults.len() && defaults[i0] == merged_members(target, defaults)[i]
                && defaults[j0] == merged_members(target, defaults)[j],
{
    let kept = defaults.filter(kept_by(target));
    let fi = i - target.len();
    let fj = j - target.len();
    lemma_filter_origin(defaults, kept_by(target), fi);
    lemma_filter_origin(defaults, kept_by(target), fj);
    let i0 = choose|i0: int|
        0 <= i0 < defaults.len() && kept_by(target)(#[trigger] defaults[i0]) && defaults[i0]
            == kept[fi] && defaults.take(i0).filter(kept_by(target)).len() == fi;
    let j0 = choose|j0: int|
        0 <= j0 < defaults.len() && kept_by(target)(#[trigger] defaults[j0]) && defaults[j0]
            == kept[fj] && defaults.take(j0).filter(kept_by(target)).len() == fj;
    if i0 >= j0 {
        lemma_filter_take_monotone(defaults, kept_by(target), j0, i0);
    }
    assert(0 <= i0 < j0 < defaults.len() && defaults[i0] == merged_members(target, defaults)[i]
        && defaults[j0] == merged_members(target, defaults)[j]);
}

/// The merged output's trait reference is always the real trait name
/// captured at registration, never the alias the apply site wrote.
pub proof fn lemma_trait_reference_rewritten(
    registry: Map<Seq<char>, DefaultRecordModel>,
    block: ImplBlockModel,
)
    ensures
        (apply_outcome(registry, block) matches Ok(out) ==> out.trait_name
            == registry[block.trait_name].real_trait_name),
{
}

/// An override block that itself defines every named default identifier
/// takes nothing from the registered default: the merge appends no
/// member.
pub proof fn lemma_full_override_appends_nothing(
    target: Seq<MemberModel>,
    defaults: Seq<MemberModel>,
)
    requires
        forall|i: int|
            0 <= i < defaults.len() && is_named(#[trigger] defaults[i]) ==> defines_ident(
                target,
                defaults[i].ident,
            ),
    ensures
        merged_members(target, defaults) == target,
{
    assert(defaults.all(|m: MemberModel| !kept_by(target)(m))) by {
        assert forall|k: int| 0 <= k < defaults.len() implies !kept_by(target)(
            #[trigger] defaults[k],
        ) by {}
    }
    defaults.lemma_all_neg_filter_empty(kept_by(target));
    assert(merged_members(target, defaults) =~= target);
}

} // verus!
