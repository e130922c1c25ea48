//! The two coupled operations over the registry: recording a block's
//! members as the default for an alias, and merging a recorded default
//! into a target block.

use vstd::hash_set::StringHashSet;
use vstd::prelude::*;

use crate::block::{ImplBlock, ImplBlockModel};
use crate::member::{
    defines_ident, has_unsupported_member, is_unsupported, kept_by, lemma_defines_ident_extend,
    lemma_filter_take_step, lemma_members_view_push, member_is_named, member_is_unsupported,
    members_view, merged_members,
};
use crate::parse::{parse_impl_text, parsed_impl_of, ParsedImpl, ParsedImplModel};
use crate::registry::{DefaultRecord, DefaultRecordModel, Registry};
use crate::render::{render_block, rendered_block};

verus! {

/// Why an operation refused its input. Every error is fatal for the
/// construct being transformed: no output is emitted for it.
#[derive(Clone, Copy, PartialEq, Eq, Structural, Debug)]
pub enum TransformError {
    /// The construct is not an implementation block naming one trait and
    /// one target type, each by a simple identifier.
    InvalidSyntax,
    /// The apply operation referenced an alias no default was recorded
    /// under.
    NoRegisteredDefault,
    /// A recorded default member cannot be individuated as a function, an
    /// associated constant or an associated type: a nested macro
    /// invocation, or tokens the parser left uninterpreted.
    UnsupportedDefaultMember,
}

/// The fixed diagnostic text of each error.
pub open spec fn diagnostic_text(e: TransformError) -> Seq<char> {
    match e {
        TransformError::InvalidSyntax => "`default_trait_impl` expects to be given a syntactially valid trait implementation"@,
        TransformError::NoRegisteredDefault => "`trait_impl` expects there to be a `default_trait_impl` for the trait it implements"@,
        TransformError::UnsupportedDefaultMember => "macros invocation within default impl blocks are not supported"@,
    }
}

impl TransformError {
    /// The fixed diagnostic text this error aborts compilation with.
    pub fn message(&self) -> (r: &'static str)
        ensures
            r@ == diagnostic_text(*self),
    {
        match self {
            TransformError::InvalidSyntax => "`default_trait_impl` expects to be given a syntactially valid trait implementation",
            TransformError::NoRegisteredDefault => "`trait_impl` expects there to be a `default_trait_impl` for the trait it implements",
            TransformError::UnsupportedDefaultMember => "macros invocation within default impl blocks are not supported",
        }
    }
}

/// The record the register operation captures from a block: the block's
/// trait position is the real trait to remember, its members are stored
/// in order.
pub open spec fn captured_record(block: ImplBlockModel) -> DefaultRecordModel {
    DefaultRecordModel { real_trait_name: block.trait_name, members: block.members }
}

/// What the apply operation yields for `block` against `registry`: an
/// error when no record is held for the referenced alias or when the
/// record holds a member the merge cannot individuate, otherwise the
/// merged block with its trait reference rewritten to the recorded real
/// trait name.
pub open spec fn apply_outcome(
    registry: Map<Seq<char>, DefaultRecordModel>,
    block: ImplBlockModel,
) -> Result<ImplBlockModel, TransformError> {
    if !registry.contains_key(block.trait_name) {
        Err(TransformError::NoRegisteredDefault)
    } else if has_unsupported_member(registry[block.trait_name].members) {
        Err(TransformError::UnsupportedDefaultMember)
    } else {
        Ok(
            ImplBlockModel {
                trait_name: registry[block.trait_name].real_trait_name,
                target_type: block.target_type,
                members: merged_members(block.members, registry[block.trait_name].members),
            },
        )
    }
}

/// Record `block` as a default implementation: its self-type position is
/// the alias, its trait position the real trait, its members the stored
/// defaults. Overwrites whatever the alias held before; emits nothing.
pub fn register_default(registry: &mut Registry, block: ImplBlock)
    ensures
        final(registry)@ == old(registry)@.insert(block@.target_type, captured_record(block@)),
{
    let ImplBlock { trait_name, target_type, members } = block;
    registry.store(target_type, DefaultRecord { real_trait_name: trait_name, members });
}

/// Merge the default recorded for `block`'s referenced trait name into
/// `block`: members the block defines itself stay as they are, the
/// remaining named defaults are appended in recorded order, and the trait
/// reference is rewritten to the recorded real trait name.
#[verifier::loop_isolation(false)]
pub fn apply_default(registry: &Registry, block: ImplBlock) -> (r: Result<ImplBlock, TransformError>)
    ensures
        (match r {
            Ok(out) => apply_outcome(registry@, block@) == Ok::<ImplBlockModel, TransformError>(
                out@,
            ),
            Err(e) => apply_outcome(registry@, block@) == Err::<ImplBlockModel, TransformError>(e),
        }),
{
    let ghost target = block@.members;
    let record = match registry.lookup(block.trait_name.as_str()) {
        None => {
            return Err(TransformError::NoRegisteredDefault);
        },
        Some(record) => record,
    };
    let ghost defaults = record@.members;

    // A recorded member that cannot be individuated, whether a macro
    // invocation or uninterpreted tokens, cannot be merged: refuse it.
    let mut i: usize = 0;
    while i < record.members.len()
        invariant
            i <= record.members.len(),
            defaults == members_view(record.members@),
            forall|j: int| 0 <= j < i ==> !is_unsupported(#[trigger] defaults[j]),
        decreases record.members.len() - i,
    {
        if member_is_unsupported(&record.members[i]) {
            proof {
                assert(is_unsupported(defaults[i as int]));
            }
            return Err(TransformError::UnsupportedDefaultMember);
        }
        i += 1;
    }

    // The identifiers the target block defines itself; an appended
    // default must not collide with any of them.
    let mut defined = StringHashSet::new();
    let mut i: usize = 0;
    while i < block.members.len()
        invariant
            i <= block.members.len(),
            target == members_view(block.members@),
            forall|id: Seq<char>| defined@.contains(id) <==> defines_ident(target.take(i as int), id),
        decreases block.members.len() - i,
    {
        proof {
            lemma_defines_ident_extend(target, i as int);
        }
        let m = &block.members[i];
        if member_is_named(m) {
            defined.insert(m.ident.clone());
        }
        i += 1;
    }
    proof {
        assert(target.take(block.members@.len() as int) =~= target);
    }

    // Append each recorded default whose identifier the target does not
    // define, keeping the recorded order.
    let ImplBlock { trait_name: _, target_type, members: mut merged } = block;
    let mut i: usize = 0;
    while i < record.members.len()
        invariant
            i <= record.members.len(),
            defaults == members_view(record.members@),
            forall|id: Seq<char>| defined@.contains(id) <==> defines_ident(target, id),
            members_view(merged@) == target + defaults.take(i as int).filter(kept_by(target)),
        decreases record.members.len() - i,
    {
        proof {
            lemma_filter_take_step(defaults, kept_by(target), i as int);
        }
        let m = &record.members[i];
        if member_is_named(m) && !defined.contains(m.ident.as_str()) {
            let kept = m.clone();
            proof {
                lemma_members_view_push(merged@, kept);
            }
            merged.push(kept);
        }
        i += 1;
    }
    proof {
        assert(defaults.take(record.members@.len() as int) =~= defaults);
    }

    Ok(ImplBlock { trait_name: record.real_trait_name.clone(), target_type, members: merged })
}

/// The block a parse result stands for, when both the trait position and
/// the self-type position were written as simple identifiers.
pub open spec fn block_of_parse(p: ParsedImplModel) -> Option<ImplBlockModel> {
    match (p.trait_ident, p.self_ty_ident) {
        (Some(trait_name), Some(target_type)) => Some(
            ImplBlockModel { trait_name, target_type, members: p.members },
        ),
        _ => None,
    }
}

/// Turn a parse result into an implementation block, refusing a construct
/// whose trait or self-type position is not a simple identifier.
pub fn extract_block(p: ParsedImpl) -> (r: Result<ImplBlock, TransformError>)
    ensures
        (match block_of_parse(p@) {
            Some(b) => r matches Ok(out) && out@ == b,
            None => r == Err::<ImplBlock, TransformError>(TransformError::InvalidSyntax),
        }),
{
    let ParsedImpl { self_ty_ident, trait_ident, members } = p;
    match (trait_ident, self_ty_ident) {
        (Some(trait_name), Some(target_type)) => Ok(
            ImplBlock { trait_name, target_type, members },
        ),
        _ => Err(TransformError::InvalidSyntax),
    }
}

/// What the register entry point leaves in the registry for the source
/// text `input`: unchanged unless `input` parses to a block, otherwise
/// with that block's record stored under its alias.
pub open spec fn registry_after_register(
    registry: Map<Seq<char>, DefaultRecordModel>,
    input: Seq<char>,
) -> Map<Seq<char>, DefaultRecordModel> {
    match parsed_impl_of(input) {
        Some(p) => match block_of_parse(p) {
            Some(b) => registry.insert(b.target_type, captured_record(b)),
            None => registry,
        },
        None => registry,
    }
}

/// Whether `input` parses to an implementation block.
pub open spec fn input_is_block(input: Seq<char>) -> bool {
    match parsed_impl_of(input) {
        Some(p) => block_of_parse(p) is Some,
        None => false,
    }
}

/// Register the construct in `input` as a default implementation: the
/// self-type position is the alias, the trait position the real trait.
/// On success the construct is consumed whole; the empty replacement text
/// is returned. On a shape error the registry is left unchanged.
pub fn default_trait_impl(registry: &mut Registry, input: &str) -> (r: Result<
    String,
    TransformError,
>)
    ensures
        final(registry)@ == registry_after_register(old(registry)@, input@),
        input_is_block(input@) ==> (r matches Ok(out) && out@ == Seq::<char>::empty()),
        !input_is_block(input@) ==> r == Err::<String, TransformError>(
            TransformError::InvalidSyntax,
        ),
{
    let parsed = match parse_impl_text(input) {
        None => {
            return Err(TransformError::InvalidSyntax);
        },
        Some(p) => p,
    };
    let block = match extract_block(parsed) {
        Err(e) => {
            return Err(e);
        },
        Ok(b) => b,
    };
    register_default(registry, block);
    Ok(String::new())
}

/// What the apply entry point yields for the source text `input` against
/// `registry`: the rendered text of the merged block, or the error met on
/// the way there.
pub open spec fn trait_impl_outcome(
    registry: Map<Seq<char>, DefaultRecordModel>,
    input: Seq<char>,
) -> Result<Seq<char>, TransformError> {
    match parsed_impl_of(input) {
        Some(p) => match block_of_parse(p) {
            Some(b) => match apply_outcome(registry, b) {
                Ok(out) => Ok(rendered_block(out)),
                Err(e) => Err(e),
            },
            None => Err(TransformError::InvalidSyntax),
        },
        None => Err(TransformError::InvalidSyntax),
    }
}

/// Merge the default registered for the alias referenced in `input` into
/// the construct in `input`, and hand back the finished block's source
/// text, ready to replace the original construct.
pub fn trait_impl(registry: &Registry, input: &str) -> (r: Result<String, TransformError>)
    ensures
        (match r {
            Ok(out) => trait_impl_outcome(registry@, input@) == Ok::<Seq<char>, TransformError>(
                out@,
            ),
            Err(e) => trait_impl_outcome(registry@, input@) == Err::<Seq<char>, TransformError>(e),
        }),
{
    let parsed = match parse_impl_text(input) {
        None => {
            return Err(TransformError::InvalidSyntax);
        },
        Some(p) => p,
    };
    let block = match extract_block(parsed) {
        Err(e) => {
            return Err(e);
        },
        Ok(b) => b,
    };
    let merged = match apply_default(registry, block) {
        Err(e) => {
            return Err(e);
        },
        Ok(b) => b,
    };
    Ok(render_block(&merged))
}

} // verus!
