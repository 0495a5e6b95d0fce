//! The header-override table: per module identifier, the metadata that the
//! caller forces onto what is fetched.
use vstd::prelude::*;
use crate::headers::{lookup, HeaderMap};
use crate::specifier::ModuleSpecifier;

verus! {

/// The table that a list of entries describes, a later entry for an
/// identifier replacing an earlier one.
pub open spec fn table_map(s: Seq<(ModuleSpecifier, HeaderMap)>) -> Map<
    Seq<char>,
    Map<Seq<char>, Seq<char>>,
>
    decreases s.len(),
{
    if s.len() == 0 {
        Map::empty()
    } else {
        table_map(s.drop_last()).insert(s.last().0@, s.last().1@)
    }
}

/// Module identifiers mapped to the headers forced onto them.
pub struct OverrideTable {
    entries: Vec<(ModuleSpecifier, HeaderMap)>,
}

impl View for OverrideTable {
    type V = Map<Seq<char>, Map<Seq<char>, Seq<char>>>;

    closed spec fn view(&self) -> Map<Seq<char>, Map<Seq<char>, Seq<char>>> {
        table_map(self.entries@)
    }
}

impl OverrideTable {
    pub fn new() -> (r: OverrideTable)
        ensures
            r@ == Map::<Seq<char>, Map<Seq<char>, Seq<char>>>::empty(),
    {
        OverrideTable { entries: Vec::new() }
    }

    /// Forces `headers` onto `specifier`, replacing what was forced on it.
    pub fn insert(&mut self, specifier: ModuleSpecifier, headers: HeaderMap)
        ensures
            final(self)@ == old(self)@.insert(specifier@, headers@),
    {
        let ghost pre = self.entries@;
        self.entries.push((specifier, headers));
        proof {
            assert(self.entries@.drop_last() =~= pre);
        }
    }

    /// The headers forced onto `specifier`.
    pub fn get(&self, specifier: &ModuleSpecifier) -> (r: Option<&HeaderMap>)
        ensures
            r is Some <==> self@.contains_key(specifier@),
            r matches Some(h) ==> self@.contains_key(specifier@) && h@ == self@[specifier@],
    {
        let mut i: usize = self.entries.len();
        proof {
            assert(self.entries@.subrange(0, i as int) =~= self.entries@);
        }
        while i > 0
            invariant
                i <= self.entries@.len(),
                lookup(table_map(self.entries@), specifier@) == lookup(
                    table_map(self.entries@.subrange(0, i as int)),
                    specifier@,
                ),
            decreases i,
        {
            let ghost pre = self.entries@.subrange(0, i as int);
            proof {
                assert(pre.drop_last() =~= self.entries@.subrange(0, i - 1));
                assert(pre.last() == self.entries@[i - 1]);
            }
            if self.entries[i - 1].0.same_as(specifier) {
                return Some(&self.entries[i - 1].1);
            }
            i = i - 1;
        }
        proof {
            assert(self.entries@.subrange(0, 0) =~= Seq::<(ModuleSpecifier, HeaderMap)>::empty());
        }
        None
    }

    /// The entries in the order in which they were set; a later entry for an
    /// identifier replaces an earlier one.
    pub fn entries(&self) -> (r: &Vec<(ModuleSpecifier, HeaderMap)>)
        ensures
            table_map(r@) == self@,
    {
        &self.entries
    }
}

} // verus!
