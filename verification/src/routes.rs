//! The route table: an immutable lookup structure, built once from the
//! configuration, that maps an exact request path to its upstream
//! specification. Lookup is an exact string match, first entry wins; a table
//! whose paths are distinct therefore answers every configured path with its
//! own entry and no other.

use vstd::prelude::*;
use crate::config::AppConfig;
use crate::config::PathConfig;
use crate::config::PathConfigV;
use crate::config::RouteEntry;
use crate::config::RouteEntryV;

verus! {

/// Why a route table could not be built: the configuration holds no routes.
#[derive(Clone, Copy, Debug, PartialEq, Eq, Structural)]
pub enum ConfigError {
    NoRoutes,
}

/// What a lookup of `path` in `entries` answers: the target of the first
/// entry whose path is exactly `path`, or nothing.
pub open spec fn spec_lookup(entries: Seq<RouteEntryV>, path: Seq<char>) -> Option<PathConfigV>
    decreases entries.len(),
{
    if entries.len() == 0 {
        None
    } else if entries[0].path == path {
        Some(entries[0].target)
    } else {
        spec_lookup(entries.skip(1), path)
    }
}

/// A route set is well formed when its paths are pairwise distinct, as the
/// keys of a configuration mapping are.
pub open spec fn distinct_paths(entries: Seq<RouteEntryV>) -> bool {
    forall|i: int, j: int|
        0 <= i < j < entries.len() ==> entries[i].path != entries[j].path
}

/// The immutable path -> upstream-specification table. It is never mutated
/// after `build`, so any number of concurrent readers may share it.
pub struct RouteTable {
    entries: Vec<RouteEntry>,
}

impl View for RouteTable {
    type V = Seq<RouteEntryV>;

    closed spec fn view(&self) -> Seq<RouteEntryV> {
        Seq::new(self.entries@.len(), |i: int| self.entries@[i]@)
    }
}

impl RouteTable {
    /// Builds the table from the configuration. Fails exactly when the
    /// configuration holds no routes: an empty gateway is a configuration
    /// error, never a valid server.
    pub fn build(config: &AppConfig) -> (r: Result<RouteTable, ConfigError>)
        ensures
            config.paths@.len() == 0 <==> r matches Err(ConfigError::NoRoutes),
            r matches Ok(t) ==> t@ =~= Seq::new(
                config.paths@.len(),
                |i: int| config.paths@[i]@,
            ),
    {
        if config.paths.len() == 0 {
            Err(ConfigError::NoRoutes)
        } else {
            let mut entries: Vec<RouteEntry> = Vec::new();
            let mut k: usize = 0;
            while k < config.paths.len()
                invariant
                    k <= config.paths@.len(),
                    entries@.len() == k,
                    forall|i: int| 0 <= i < k ==> entries@[i]@ == config.paths@[i]@,
                decreases config.paths@.len() - k,
            {
                let e = &config.paths[k];
                entries.push(
                    RouteEntry {
                        path: e.path.clone(),
                        target: PathConfig {
                            source_url: e.target.source_url.clone(),
                            jq_filter: e.target.jq_filter.clone(),
                        },
                    },
                );
                k += 1;
            }
            Ok(RouteTable { entries })
        }
    }

    /// How many routes the table holds.
    pub fn len(&self) -> (r: usize)
        ensures
            r == self@.len(),
    {
        self.entries.len()
    }

    /// Looks a request path up by exact string match. Purely a read: the
    /// answer is a function of the table and the path alone, so repeated and
    /// concurrent lookups all agree.
    pub fn lookup(&self, path: &str) -> (r: Option<&PathConfig>)
        ensures
            match r {
                Some(c) => spec_lookup(self@, path@) == Some(c@),
                None => spec_lookup(self@, path@) is None,
            },
    {
        let owned_path: String = path.to_owned();
        let n = self.entries.len();
        let mut k: usize = 0;
        proof {
            assert(self@.skip(0) =~= self@);
        }
        while k < n
            invariant
                n == self@.len(),
                owned_path@ == path@,
                k <= n,
                spec_lookup(self@, path@) == spec_lookup(self@.skip(k as int), path@),
            decreases n - k,
        {
            proof {
                assert(self@.skip(k as int)[0] == self@[k as int]);
                assert(self@.skip(k as int).skip(1) =~= self@.skip(k as int + 1));
            }
            if self.entries[k].path == owned_path {
                return Some(&self.entries[k].target);
            }
            k += 1;
        }
        proof {
            assert(self@.skip(n as int) =~= Seq::<RouteEntryV>::empty());
        }
        None
    }
}

/// Per-path isolation: in a table with distinct paths, every configured path
/// answers with its own target, never another entry's.
pub proof fn lemma_lookup_own_entry(entries: Seq<RouteEntryV>, i: int)
    requires
        distinct_paths(entries),
        0 <= i < entries.len(),
    ensures
        spec_lookup(entries, entries[i].path) == Some(entries[i].target),
    decreases entries.len(),
{
    if i == 0 {
    } else {
        assert(entries[0].path != entries[i].path);
        assert(distinct_paths(entries.skip(1))) by {
            assert forall|a: int, b: int|
                0 <= a < b < entries.skip(1).len() implies entries.skip(1)[a].path
                != entries.skip(1)[b].path by {
                assert(entries.skip(1)[a] == entries[a + 1]);
                assert(entries.skip(1)[b] == entries[b + 1]);
            }
        }
        assert(entries.skip(1)[i - 1] == entries[i]);
        lemma_lookup_own_entry(entries.skip(1), i - 1);
    }
}

/// A path that no entry carries answers nothing.
pub proof fn lemma_lookup_absent(entries: Seq<RouteEntryV>, path: Seq<char>)
    requires
        forall|i: int| 0 <= i < entries.len() ==> entries[i].path != path,
    ensures
        spec_lookup(entries, path) is None,
    decreases entries.len(),
{
    if entries.len() > 0 {
        assert(entries[0].path != path);
        assert forall|i: int| 0 <= i < entries.skip(1).len() implies entries.skip(1)[i].path
            != path by {
            assert(entries.skip(1)[i] == entries[i + 1]);
        }
        lemma_lookup_absent(entries.skip(1), path);
    }
}

} // verus!
