//! Unstable-feature flag resolution: each enabled feature id is looked up in
//! a read-only name table and rendered as a display flag; ids with no table
//! entry are silently dropped.

use vstd::prelude::*;
use vstd::string::StringExecFns;

use crate::options::BootstrapOptions;

verus! {

/// One row of the feature-name table: a feature id and its display name.
pub struct FeatureEntry {
    pub id: u32,
    pub name: String,
}

/// A read-only feature-name table, injected by the host; this crate is
/// independent of how the host stores the real table.
pub struct FeatureTable {
    pub entries: Vec<FeatureEntry>,
}

/// The name the table resolves an id to: the first entry with that id, or
/// nothing when no entry matches.
pub open spec fn spec_resolve_entries(entries: Seq<FeatureEntry>, id: u32) -> Option<Seq<char>>
    decreases entries.len(),
{
    if entries.len() == 0 {
        None
    } else if entries[0].id == id {
        Some(entries[0].name@)
    } else {
        spec_resolve_entries(entries.drop_first(), id)
    }
}

/// The display flag for a feature name.
pub open spec fn spec_flag(name: Seq<char>) -> Seq<char> {
    "--unstable-"@ + name
}

/// The flags for a sequence of enabled ids, in order, with unresolvable ids
/// dropped.
pub open spec fn spec_unstable_args(ids: Seq<u32>, entries: Seq<FeatureEntry>) -> Seq<Seq<char>>
    decreases ids.len(),
{
    if ids.len() == 0 {
        Seq::empty()
    } else {
        match spec_resolve_entries(entries, ids[0]) {
            Some(name) => seq![spec_flag(name)] + spec_unstable_args(ids.drop_first(), entries),
            None => spec_unstable_args(ids.drop_first(), entries),
        }
    }
}

impl FeatureTable {
    /// What this table resolves an id to.
    pub open spec fn spec_resolve(self, id: u32) -> Option<Seq<char>> {
        spec_resolve_entries(self.entries@, id)
    }

    /// Resolves a feature id to its display name, or nothing when the table
    /// has no entry for it.
    pub fn resolve(&self, id: u32) -> (name: Option<String>)
        ensures
            name.deep_view() == self.spec_resolve(id),
    {
        let n = self.entries.len();
        proof {
            assert(self.entries@.skip(0) =~= self.entries@);
        }
        for i in 0..n
            invariant
                n == self.entries.len(),
                spec_resolve_entries(self.entries@.skip(i as int), id) == self.spec_resolve(id),
        {
            proof {
                assert(self.entries@.skip(i as int)[0] == self.entries@[i as int]);
                assert(self.entries@.skip(i as int).drop_first() =~= self.entries@.skip(i + 1));
            }
            if self.entries[i].id == id {
                return Some(self.entries[i].name.clone());
            }
        }
        proof {
            assert(self.entries@.skip(n as int) =~= Seq::<FeatureEntry>::empty());
        }
        None
    }
}

/// Renders a feature name as its display flag.
pub fn unstable_flag(name: &String) -> (flag: String)
    ensures
        flag@ == spec_flag(name@),
{
    let mut flag = "--unstable-".to_owned();
    flag.append(name.as_str());
    flag
}

/// Resolves each enabled feature id through the table, in order, rendering
/// found names as display flags and silently dropping ids with no entry.
pub fn op_bootstrap_unstable_args(options: &BootstrapOptions, table: &FeatureTable) -> (flags: Vec<
    String,
>)
    ensures
        flags.deep_view() == spec_unstable_args(options.unstable_features@, table.entries@),
{
    let ghost ids = options.unstable_features@;
    let n = options.unstable_features.len();
    let mut flags: Vec<String> = Vec::new();
    proof {
        assert(flags.deep_view() =~= Seq::<Seq<char>>::empty());
        assert(ids.skip(0) =~= ids);
    }
    for i in 0..n
        invariant
            n == options.unstable_features.len(),
            ids == options.unstable_features@,
            flags.deep_view() + spec_unstable_args(ids.skip(i as int), table.entries@)
                =~= spec_unstable_args(ids, table.entries@),
    {
        proof {
            assert(ids.skip(i as int)[0] == ids[i as int]);
            assert(ids.skip(i as int).drop_first() =~= ids.skip(i + 1));
        }
        let ghost before = flags.deep_view();
        match table.resolve(options.unstable_features[i]) {
            Some(name) => {
                let flag = unstable_flag(&name);
                flags.push(flag);
                proof {
                    assert(flags.deep_view() =~= before.push(spec_flag(name@)));
                    assert(flags.deep_view() + spec_unstable_args(ids.skip(i + 1), table.entries@)
                        =~= before + spec_unstable_args(ids.skip(i as int), table.entries@));
                }
            },
            None => {},
        }
    }
    proof {
        assert(ids.skip(n as int) =~= Seq::<u32>::empty());
        assert(flags.deep_view() =~= spec_unstable_args(ids, table.entries@));
    }
    flags
}

} // verus!
