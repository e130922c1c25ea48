//! Serializing a finished implementation block back to source text.

use vstd::prelude::*;
use vstd::string::StringExecFns;

use crate::block::{ImplBlock, ImplBlockModel};
use crate::member::MemberModel;

verus! {

/// The concatenation of each member's source text, each followed by one
/// space.
pub open spec fn member_text_cat(ms: Seq<MemberModel>) -> Seq<char>
    decreases ms.len(),
{
    if ms.len() == 0 {
        Seq::empty()
    } else {
        member_text_cat(ms.drop_last()) + ms.last().text + " "@
    }
}

/// The source text of a block: `impl <trait> for <type> { <members> }`.
pub open spec fn rendered_block(b: ImplBlockModel) -> Seq<char> {
    "impl "@ + b.trait_name + " for "@ + b.target_type + " { "@ + member_text_cat(b.members) + "}"@
}

/// `member_text_cat` along a growing prefix.
proof fn lemma_member_text_cat_step(ms: Seq<MemberModel>, i: int)
    requires
        0 <= i < ms.len(),
    ensures
        member_text_cat(ms.take(i + 1)) == member_text_cat(ms.take(i)) + ms[i].text + " "@,
{
    assert(ms.take(i + 1).drop_last() =~= ms.take(i));
    assert(ms.take(i + 1).last() == ms[i]);
}

/// Serialize `block` to source text, ready to stand as the compiled
/// construct that replaces the original source.
#[verifier::loop_isolation(false)]
pub fn render_block(block: &ImplBlock) -> (r: String)
    ensures
        r@ == rendered_block(block@),
{
    let ghost members = block@.members;
    let mut out = String::new();
    out.append("impl ");
    out.append(block.trait_name.as_str());
    out.append(" for ");
    out.append(block.target_type.as_str());
    out.append(" { ");
    let ghost header = out@;
    proof {
        assert(header + member_text_cat(members.take(0)) =~= header);
    }
    let mut i: usize = 0;
    while i < block.members.len()
        invariant
            i <= block.members.len(),
            out@ == header + member_text_cat(members.take(i as int)),
        decreases block.members.len() - i,
    {
        out.append(block.members[i].text.as_str());
        out.append(" ");
        proof {
            lemma_member_text_cat_step(members, i as int);
            assert(out@ =~= header + member_text_cat(members.take(i as int + 1)));
        }
        i += 1;
    }
    proof {
        assert(members.take(block.members@.len() as int) =~= members);
    }
    out.append("}");
    out
}

} // verus!
