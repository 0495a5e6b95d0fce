//! Response metadata: a mapping of header names to values, and the merge of
//! caller-forced overrides onto fetched metadata.
use vstd::prelude::*;

verus! {

/// The mapping that a list of entries describes, a later entry for a key
/// replacing an earlier one.
pub open spec fn entries_map(s: Seq<(String, String)>) -> Map<Seq<char>, Seq<char>>
    decreases s.len(),
{
    if s.len() == 0 {
        Map::empty()
    } else {
        entries_map(s.drop_last()).insert(s.last().0@, s.last().1@)
    }
}

/// Header names mapped to values.
pub struct HeaderMap {
    entries: Vec<(String, String)>,
}

impl View for HeaderMap {
    type V = Map<Seq<char>, Seq<char>>;

    closed spec fn view(&self) -> Map<Seq<char>, Seq<char>> {
        entries_map(self.entries@)
    }
}

/// What `m` holds at `k`.
pub open spec fn lookup<K, V>(m: Map<K, V>, k: K) -> Option<V> {
    if m.contains_key(k) {
        Some(m[k])
    } else {
        None
    }
}

pub open spec fn opt_headers_view(m: Option<HeaderMap>) -> Option<Map<Seq<char>, Seq<char>>> {
    match m {
        Some(h) => Some(h@),
        None => None,
    }
}

/// Overrides layered on fetched metadata: absent when both are absent,
/// otherwise the fetched entries with every override entry written over them.
pub open spec fn merged_headers(
    fetched: Option<Map<Seq<char>, Seq<char>>>,
    overrides: Option<Map<Seq<char>, Seq<char>>>,
) -> Option<Map<Seq<char>, Seq<char>>> {
    if fetched is None && overrides is None {
        None
    } else {
        let base = match fetched {
            Some(m) => m,
            None => Map::empty(),
        };
        let top = match overrides {
            Some(m) => m,
            None => Map::empty(),
        };
        Some(base.union_prefer_right(top))
    }
}

impl HeaderMap {
    pub fn new() -> (r: HeaderMap)
        ensures
            r@ == Map::<Seq<char>, Seq<char>>::empty(),
    {
        HeaderMap { entries: Vec::new() }
    }

    /// Sets `key` to `value`, replacing what `key` held.
    pub fn insert(&mut self, key: String, value: String)
        ensures
            final(self)@ == old(self)@.insert(key@, value@),
    {
        let ghost pre = self.entries@;
        self.entries.push((key, value));
        proof {
            assert(self.entries@.drop_last() =~= pre);
        }
    }

    /// The value that `key` holds.
    pub fn get(&self, key: &str) -> (r: Option<&String>)
        ensures
            r is Some <==> self@.contains_key(key@),
            r matches Some(v) ==> self@.contains_key(key@) && v@ == self@[key@],
    {
        let wanted = key.to_owned();
        let mut i: usize = self.entries.len();
        proof {
            assert(self.entries@.subrange(0, i as int) =~= self.entries@);
        }
        while i > 0
            invariant
                i <= self.entries@.len(),
                wanted@ == key@,
                lookup(entries_map(self.entries@), key@) == lookup(
                    entries_map(self.entries@.subrange(0, i as int)),
                    key@,
                ),
            decreases i,
        {
            let ghost pre = self.entries@.subrange(0, i as int);
            proof {
                assert(pre.drop_last() =~= self.entries@.subrange(0, i - 1));
                assert(pre.last() == self.entries@[i - 1]);
            }
            if self.entries[i - 1].0 == wanted {
                return Some(&self.entries[i - 1].1);
            }
            i = i - 1;
        }
        proof {
            assert(self.entries@.subrange(0, 0) =~= Seq::<(String, String)>::empty());
        }
        None
    }

    /// The entries in the order in which they were set; a later entry for a
    /// key replaces an earlier one.
    pub fn entries(&self) -> (r: &Vec<(String, String)>)
        ensures
            entries_map(r@) == self@,
    {
        &self.entries
    }

    /// A second map with the same contents.
    pub fn duplicate(&self) -> (r: HeaderMap)
        ensures
            r@ == self@,
    {
        let mut out = HeaderMap::new();
        out.extend_from(self);
        out
    }

    /// Writes every entry of `other` over this map.
    pub fn extend_from(&mut self, other: &HeaderMap)
        ensures
            final(self)@ == old(self)@.union_prefer_right(other@),
    {
        let ghost start = self@;
        let mut i: usize = 0;
        while i < other.entries.len()
            invariant
                i <= other.entries@.len(),
                self@ == start.union_prefer_right(entries_map(other.entries@.subrange(0, i as int))),
            decreases other.entries@.len() - i,
        {
            let ghost done = other.entries@.subrange(0, i as int);
            let k = other.entries[i].0.clone();
            let v = other.entries[i].1.clone();
            self.insert(k, v);
            proof {
                let next = other.entries@.subrange(0, i + 1);
                assert(next.drop_last() =~= done);
                assert(self@ =~= start.union_prefer_right(entries_map(next)));
            }
            i = i + 1;
        }
        proof {
            assert(other.entries@.subrange(0, i as int) =~= other.entries@);
        }
    }
}

/// Combines fetched metadata with the overrides for the same module: absent
/// when both are absent, else a fresh map of the fetched entries with the
/// override entries written over them.
pub fn merge_headers(fetched: Option<&HeaderMap>, overrides: Option<&HeaderMap>) -> (r: Option<
    HeaderMap,
>)
    ensures
        opt_headers_view(r) == merged_headers(
            match fetched {
                Some(h) => Some(h@),
                None => None,
            },
            match overrides {
                Some(h) => Some(h@),
                None => None,
            },
        ),
{
    if fetched.is_none() && overrides.is_none() {
        return None;
    }
    let mut headers = HeaderMap::new();
    if let Some(m) = fetched {
        headers.extend_from(m);
    }
    if let Some(o) = overrides {
        headers.extend_from(o);
    }
    proof {
        let e = Map::<Seq<char>, Seq<char>>::empty();
        assert(e.union_prefer_right(e) =~= e);
        if let Some(m) = fetched {
            assert(e.union_prefer_right(m@) =~= m@);
            assert(m@.union_prefer_right(e) =~= m@);
        }
        if let Some(o) = overrides {
            assert(e.union_prefer_right(o@) =~= o@);
        }
    }
    Some(headers)
}

} // verus!

verus! {

/// Merging is absent exactly when both the fetched metadata and the override
/// are absent; otherwise every key of the override holds the override's
/// value, every other key of the fetched metadata holds the fetched value,
/// and no other key is present.
pub proof fn law_merge_precedence(
    fetched: Option<Map<Seq<char>, Seq<char>>>,
    overrides: Option<Map<Seq<char>, Seq<char>>>,
)
    ensures
        merged_headers(fetched, overrides) is None <==> (fetched is None && overrides is None),
        merged_headers(fetched, overrides) matches Some(m) ==> {
            &&& overrides matches Some(o) ==> forall|k: Seq<char>| #[trigger]
                o.contains_key(k) ==> m.contains_key(k) && m[k] == o[k]
            &&& fetched matches Some(f) ==> forall|k: Seq<char>| #[trigger]
                f.contains_key(k) && !(overrides matches Some(o) && o.contains_key(k))
                    ==> m.contains_key(k) && m[k] == f[k]
            &&& forall|k: Seq<char>| #[trigger]
                m.contains_key(k) ==> (fetched matches Some(f) && f.contains_key(k)) || (
                overrides matches Some(o) && o.contains_key(k))
        },
{
}

} // verus!
