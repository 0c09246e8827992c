//! The constant environment: a persistent mapping from constant names to
//! 64-bit numeric values, held as bit patterns.

use vstd::prelude::*;
use crate::text::str_eq;

verus! {

/// The mapping that a sequence of name/value entries denotes; a later
/// entry for the same name wins.
pub open spec fn map_of(entries: Seq<(String, u64)>) -> Map<Seq<char>, u64>
    decreases entries.len(),
{
    if entries.len() == 0 {
        Map::empty()
    } else {
        map_of(entries.drop_last()).insert(entries.last().0@, entries.last().1)
    }
}

/// No two entries share a name.
pub open spec fn unique_keys(entries: Seq<(String, u64)>) -> bool {
    forall|i: int, j: int|
        0 <= i < j < entries.len() ==> entries[i].0@ != entries[j].0@
}

/// A name is in the mapping exactly when some entry carries it.
pub proof fn lemma_map_of_contains_key(entries: Seq<(String, u64)>, k: Seq<char>)
    ensures
        map_of(entries).contains_key(k) <==> exists|i: int|
            0 <= i < entries.len() && entries[i].0@ == k,
    decreases entries.len(),
{
    if entries.len() > 0 {
        lemma_map_of_contains_key(entries.drop_last(), k);
        if entries.last().0@ != k && map_of(entries).contains_key(k) {
            let i = choose|i: int| 0 <= i < entries.drop_last().len() && entries.drop_last()[i].0@
                == k;
            assert(entries[i].0@ == k);
        }
        if exists|i: int| 0 <= i < entries.len() && entries[i].0@ == k {
            let i = choose|i: int| 0 <= i < entries.len() && entries[i].0@ == k;
            if i < entries.len() - 1 {
                assert(entries.drop_last()[i].0@ == k);
            }
        }
    }
}

/// With unique names, each entry's name maps to that entry's value.
pub proof fn lemma_map_of_entry(entries: Seq<(String, u64)>, i: int)
    requires
        unique_keys(entries),
        0 <= i < entries.len(),
    ensures
        map_of(entries).contains_pair(entries[i].0@, entries[i].1),
    decreases entries.len(),
{
    if i == entries.len() - 1 {
    } else {
        lemma_map_of_entry(entries.drop_last(), i);
        assert(entries.drop_last()[i] == entries[i]);
    }
}

/// With unique names, the mapping holds exactly the pairs that the entries
/// spell out.
pub proof fn lemma_map_of_pair(entries: Seq<(String, u64)>, k: Seq<char>, v: u64)
    requires
        unique_keys(entries),
    ensures
        map_of(entries).contains_pair(k, v) <==> exists|i: int|
            0 <= i < entries.len() && entries[i].0@ == k && entries[i].1 == v,
{
    if map_of(entries).contains_pair(k, v) {
        lemma_map_of_contains_key(entries, k);
        let i = choose|i: int| 0 <= i < entries.len() && entries[i].0@ == k;
        lemma_map_of_entry(entries, i);
        assert(entries[i].0@ == k && entries[i].1 == v);
    }
    if exists|i: int| 0 <= i < entries.len() && entries[i].0@ == k && entries[i].1 == v {
        let i = choose|i: int| 0 <= i < entries.len() && entries[i].0@ == k && entries[i].1 == v;
        lemma_map_of_entry(entries, i);
    }
}

/// Replacing the value of the entry that carries `name` inserts the new
/// value into the mapping.
proof fn lemma_map_of_update(entries: Seq<(String, u64)>, i: int, name: String, bits: u64)
    requires
        unique_keys(entries),
        0 <= i < entries.len(),
        entries[i].0@ == name@,
    ensures
        map_of(entries.update(i, (name, bits))) == map_of(entries).insert(name@, bits),
    decreases entries.len(),
{
    let updated = entries.update(i, (name, bits));
    if i == entries.len() - 1 {
        assert(updated.drop_last() =~= entries.drop_last());
        assert(map_of(updated) =~= map_of(entries).insert(name@, bits));
    } else {
        assert(updated.drop_last() =~= entries.drop_last().update(i, (name, bits)));
        lemma_map_of_update(entries.drop_last(), i, name, bits);
        assert(entries.last().0@ != name@);
        assert(map_of(updated) =~= map_of(entries).insert(name@, bits));
    }
}

/// Round trip: an environment persists its entry list, and an environment
/// rebuilt from that same list — which is what `Context::build` ensures of
/// its result — denotes an identical mapping.
pub proof fn lemma_round_trip(c: Context, rebuilt: Context)
    requires
        rebuilt.as_map() == map_of(c.variables@),
    ensures
        rebuilt.as_map() == c.as_map(),
{
}

/// A named-variable environment: constant names with their 64-bit values,
/// each value a float's bit pattern.
pub struct Context {
    pub variables: Vec<(String, u64)>,
}

impl Context {
    /// The mapping this environment denotes.
    pub open spec fn as_map(self) -> Map<Seq<char>, u64> {
        map_of(self.variables@)
    }

    /// Names are unique within the mapping.
    pub open spec fn wf(self) -> bool {
        unique_keys(self.variables@)
    }

    /// An environment rebuilt from persisted entries, or empty when no
    /// usable persisted state exists. A later entry for the same name
    /// wins; entries with unique names come through exactly as given.
    pub fn build(loaded: Option<Vec<(String, u64)>>) -> (ctx: Context)
        ensures
            ctx.wf(),
            match loaded {
                Some(entries) => ctx.as_map() == map_of(entries@) && (unique_keys(entries@)
                    ==> ctx.variables@ == entries@),
                None => ctx.as_map() == Map::<Seq<char>, u64>::empty(),
            },
    {
        let mut ctx = Context { variables: Vec::new() };
        match loaded {
            None => ctx,
            Some(entries) => {
                let n = entries.len();
                let mut i: usize = 0;
                while i < n
                    invariant
                        n == entries@.len(),
                        0 <= i <= n,
                        ctx.wf(),
                        ctx.as_map() == map_of(entries@.subrange(0, i as int)),
                        unique_keys(entries@) ==> ctx.variables@ =~= entries@.subrange(
                            0,
                            i as int,
                        ),
                    decreases n - i,
                {
                    let name = entries[i].0.clone();
                    let bits = entries[i].1;
                    proof {
                        assert(entries@.subrange(0, i + 1).drop_last() =~= entries@.subrange(
                            0,
                            i as int,
                        ));
                        assert(entries@.subrange(0, i + 1).last() == entries@[i as int]);
                        if unique_keys(entries@) {
                            assert forall|k: int| 0 <= k < ctx.variables@.len() implies
                                ctx.variables@[k].0@ != name@ by {
                                assert(entries@[k].0@ != entries@[i as int].0@);
                            }
                        }
                    }
                    let ghost pre = ctx.variables@;
                    ctx.set_constant(name, bits);
                    proof {
                        if unique_keys(entries@) {
                            assert(ctx.variables@ == pre.push((entries@[i as int].0, bits)));
                            assert(ctx.variables@ =~= entries@.subrange(0, i + 1));
                        }
                    }
                    i = i + 1;
                }
                proof {
                    assert(entries@.subrange(0, n as int) =~= entries@);
                }
                ctx
            },
        }
    }

    /// The entries of the mapping, for listing and persistence.
    pub fn get_constants(&self) -> (r: &Vec<(String, u64)>)
        ensures
            r@ == self.variables@,
    {
        &self.variables
    }

    /// Inserts or overwrites `name -> bits`.
    pub fn set_constant(&mut self, name: String, bits: u64)
        requires
            old(self).wf(),
        ensures
            final(self).wf(),
            final(self).as_map() == old(self).as_map().insert(name@, bits),
            (forall|k: int|
                0 <= k < old(self).variables@.len() ==> old(self).variables@[k].0@ != name@)
                ==> final(self).variables@ == old(self).variables@.push((name, bits)),
    {
        let n = self.variables.len();
        let mut i: usize = 0;
        while i < n
            invariant
                old(self).wf(),
                n == self.variables@.len(),
                0 <= i <= n,
                *self == *old(self),
                forall|k: int| 0 <= k < i ==> self.variables@[k].0@ != name@,
            decreases n - i,
        {
            if str_eq(self.variables[i].0.as_str(), name.as_str()) {
                proof {
                    lemma_map_of_update(self.variables@, i as int, name, bits);
                }
                let ghost pre = self.variables@;
                self.variables.set(i, (name, bits));
                proof {
                    assert forall|p: int, q: int|
                        0 <= p < q < self.variables@.len() implies self.variables@[p].0@
                        != self.variables@[q].0@ by {
                        assert(pre[p].0@ != pre[q].0@);
                    }
                }
                return;
            }
            i = i + 1;
        }
        proof {
            assert(self.variables@.push((name, bits)).drop_last() =~= self.variables@);
        }
        self.variables.push((name, bits));
    }
}

} // verus!
