//! The registry: the store, alive for one compilation session, that maps
//! an alias name to the default implementation recorded under it.

use vstd::hash_map::StringHashMap;
use vstd::prelude::*;

use crate::member::{members_view, Member, MemberModel};

verus! {

/// A default implementation recorded under an alias: the real trait name
/// it was written against, and its members in registration order.
pub struct DefaultRecord {
    pub real_trait_name: String,
    pub members: Vec<Member>,
}

/// The mathematical value of a [`DefaultRecord`].
pub struct DefaultRecordModel {
    pub real_trait_name: Seq<char>,
    pub members: Seq<MemberModel>,
}

impl View for DefaultRecord {
    type V = DefaultRecordModel;

    open spec fn view(&self) -> DefaultRecordModel {
        DefaultRecordModel {
            real_trait_name: self.real_trait_name@,
            members: members_view(self.members@),
        }
    }
}

/// The alias-to-record store. At most one record is held per alias:
/// storing under an alias again overwrites the earlier record.
pub struct Registry {
    defaults: StringHashMap<DefaultRecord>,
}

impl View for Registry {
    type V = Map<Seq<char>, DefaultRecordModel>;

    closed spec fn view(&self) -> Map<Seq<char>, DefaultRecordModel> {
        Map::new(
            |alias: Seq<char>| self.defaults@.contains_key(alias),
            |alias: Seq<char>| self.defaults@[alias]@,
        )
    }
}

impl Registry {
    /// An empty registry, holding no record for any alias.
    pub fn new() -> (r: Self)
        ensures
            r@ == Map::<Seq<char>, DefaultRecordModel>::empty(),
    {
        let r = Registry { defaults: StringHashMap::new() };
        proof {
            assert(r@ =~= Map::<Seq<char>, DefaultRecordModel>::empty());
        }
        r
    }

    /// Unconditionally record `record` under `alias`, overwriting any
    /// record held for `alias` before. Always succeeds.
    pub fn store(&mut self, alias: String, record: DefaultRecord)
        ensures
            final(self)@ == old(self)@.insert(alias@, record@),
    {
        let ghost prior = self@;
        let ghost key = alias@;
        let ghost value = record@;
        self.defaults.insert(alias, record);
        proof {
            assert(self@ =~= prior.insert(key, value));
        }
    }

    /// Look a record up by the trait name written at the call site (the
    /// alias), returning it if one was stored.
    pub fn lookup(&self, trait_name: &str) -> (r: Option<&DefaultRecord>)
        ensures
            match r {
                Some(record) => self@.contains_key(trait_name@) && record@ == self@[trait_name@],
                None => !self@.contains_key(trait_name@),
            },
    {
        self.defaults.get(trait_name)
    }
}

} // verus!
