//! Embedded store engines and where each bench run keeps its stores.
use vstd::prelude::*;
use vstd::string::*;

use crate::stack::tier0::{logical_names, router_group_names, router_groups};

verus! {

/// Namespace and database name the bench uses inside the embedded store.
pub const BENCH_NS: &'static str = "counter_bench";

/// The embedded store engine.
#[derive(Debug, Clone, Copy, PartialEq, Eq, Structural)]
pub enum BenchEngine {
    Rocksdb,
    Mem,
}

/// The engine's name.
pub open spec fn engine_label(engine: BenchEngine) -> Seq<char> {
    match engine {
        BenchEngine::Rocksdb => "rocksdb"@,
        BenchEngine::Mem => "mem"@,
    }
}

impl BenchEngine {
    pub fn label(self) -> (label: &'static str)
        ensures
            label@ == engine_label(self),
    {
        match self {
            BenchEngine::Rocksdb => "rocksdb",
            BenchEngine::Mem => "mem",
        }
    }
}

impl Default for BenchEngine {
    fn default() -> (engine: Self)
        ensures
            engine == BenchEngine::Rocksdb,
    {
        BenchEngine::Rocksdb
    }
}

/// Whether the logical stores share one embedded handle or get one each.
#[derive(Debug, Clone, Copy, PartialEq, Eq, Structural)]
pub enum BenchStoreIsolation {
    Shared,
    PerLogical,
}

/// The isolation mode's name.
pub open spec fn isolation_label(isolation: BenchStoreIsolation) -> Seq<char> {
    match isolation {
        BenchStoreIsolation::Shared => "shared"@,
        BenchStoreIsolation::PerLogical => "per-logical"@,
    }
}

impl BenchStoreIsolation {
    pub fn label(self) -> (label: &'static str)
        ensures
            label@ == isolation_label(self),
    {
        match self {
            BenchStoreIsolation::Shared => "shared",
            BenchStoreIsolation::PerLogical => "per-logical",
        }
    }
}

impl Default for BenchStoreIsolation {
    fn default() -> (isolation: Self)
        ensures
            isolation == BenchStoreIsolation::Shared,
    {
        BenchStoreIsolation::Shared
    }
}

/// `Path::join` of a relative path on a Unix system: a separator is put
/// between the two unless the base is empty or already ends with one.
pub open spec fn path_join(base: Seq<char>, rel: Seq<char>) -> Seq<char> {
    if base.len() == 0 || base.last() == '/' {
        base + rel
    } else {
        base + seq!['/'] + rel
    }
}

/// Joins a relative path (not starting with `/`) onto `base`.
pub fn join_path(base: &str, rel: &str) -> (joined: String)
    ensures
        joined@ == path_join(base@, rel@),
{
    let n = base.unicode_len();
    let needs_separator = n > 0 && base.get_char(n - 1) != '/';
    let mut joined = String::from_str(base);
    if needs_separator {
        joined.append("/");
        proof {
            reveal_strlit("/");
        }
    }
    joined.append(rel);
    proof {
        if needs_separator {
            assert(joined@ == base@ + seq!['/'] + rel@);
        }
    }
    joined
}

/// Directory of the logical store `name` under `data_dir`.
pub open spec fn logical_store_path(data_dir: Seq<char>, name: Seq<char>) -> Seq<char> {
    path_join(data_dir, "surreal/"@ + name)
}

/// The directory under which all stores of a run live.
pub open spec fn store_root_path(data_dir: Seq<char>) -> Seq<char> {
    path_join(data_dir, "surreal"@)
}

/// The logical store names with their directories under `data_dir`, in
/// registration order (collected into a map keyed by name by the caller).
pub fn logical_paths(data_dir: &str) -> (paths: Vec<(String, String)>)
    ensures
        paths@.len() == logical_names().len(),
        forall|i: int|
            0 <= i < paths@.len() ==> (#[trigger] paths@[i]).0@ == logical_names()[i] && paths@[i].1@
                == logical_store_path(data_dir@, logical_names()[i]),
{
    let groups = router_groups();
    let mut paths: Vec<(String, String)> = Vec::new();
    let mut g: usize = 0;
    while g < groups.len()
        invariant
            groups@.len() == router_group_names().len(),
            forall|i: int|
                0 <= i < groups@.len() ==> #[trigger] groups@[i]@.len()
                    == router_group_names()[i].len(),
            forall|i: int, j: int|
                0 <= i < groups@.len() && 0 <= j < groups@[i]@.len() ==> #[trigger] groups@[i]@[j]@
                    == router_group_names()[i][j],
            0 <= g <= groups@.len(),
            paths@.len() == g,
            forall|i: int|
                0 <= i < g ==> (#[trigger] paths@[i]).0@ == logical_names()[i] && paths@[i].1@
                    == logical_store_path(data_dir@, logical_names()[i]),
        decreases groups@.len() - g,
    {
        let group = groups[g];
        let mut k: usize = 0;
        while k < group.len()
            invariant
                group@ == groups@[g as int]@,
                group@.len() == 1,
                group@[0]@ == logical_names()[g as int],
                0 <= g < 4,
                0 <= k <= 1,
                paths@.len() == g + k,
                forall|i: int|
                    0 <= i < g + k ==> (#[trigger] paths@[i]).0@ == logical_names()[i]
                        && paths@[i].1@ == logical_store_path(data_dir@, logical_names()[i]),
            decreases group@.len() - k,
        {
            let logical = group[k];
            let mut rel = String::from_str("surreal/");
            rel.append(logical);
            let path = join_path(data_dir, rel.as_str());
            paths.push((String::from_str(logical), path));
            k = k + 1;
        }
        g = g + 1;
    }
    paths
}

/// How the stores of one run are laid out.
pub enum StoreLayout {
    /// One in-memory store shared by every logical name.
    SharedInMemory,
    /// One on-disk store at `path`, shared by every logical name.
    SharedOnDisk { path: String },
    /// One store per logical name, at the given directory; the first entry is
    /// the `default` store, which serves as the primary handle.
    PerLogical { stores: Vec<(String, String)> },
}

/// The layout for an engine and isolation mode: the in-memory engine shares
/// one store unless stores are isolated; the on-disk engine keeps the shared
/// store at `surreal/bench`.
pub fn store_layout(engine: BenchEngine, isolation: BenchStoreIsolation, data_dir: &str) -> (layout:
    StoreLayout)
    ensures
        (engine == BenchEngine::Mem && isolation == BenchStoreIsolation::Shared) <==> layout
            is SharedInMemory,
        (engine == BenchEngine::Rocksdb && isolation == BenchStoreIsolation::Shared) <==> layout
            is SharedOnDisk,
        isolation == BenchStoreIsolation::PerLogical <==> layout is PerLogical,
        layout matches StoreLayout::SharedOnDisk { path } ==> path@ == path_join(
            data_dir@,
            "surreal/bench"@,
        ),
        layout matches StoreLayout::PerLogical { stores } ==> {
            &&& stores@.len() == logical_names().len()
            &&& forall|i: int|
                0 <= i < stores@.len() ==> (#[trigger] stores@[i]).0@ == logical_names()[i]
                    && stores@[i].1@ == logical_store_path(data_dir@, logical_names()[i])
        },
{
    match (engine, isolation) {
        (BenchEngine::Mem, BenchStoreIsolation::Shared) => StoreLayout::SharedInMemory,
        (BenchEngine::Rocksdb, BenchStoreIsolation::Shared) => StoreLayout::SharedOnDisk {
            path: join_path(data_dir, "surreal/bench"),
        },
        (_, BenchStoreIsolation::PerLogical) => StoreLayout::PerLogical {
            stores: logical_paths(data_dir),
        },
    }
}

/// The directory holding every store of a run.
pub fn store_root(data_dir: &str) -> (root: String)
    ensures
        root@ == store_root_path(data_dir@),
{
    join_path(data_dir, "surreal")
}

/// A fresh run wipes the stores left by an earlier one, except in memory.
pub fn clears_stale_stores(engine: BenchEngine) -> (clears: bool)
    ensures
        clears == (engine != BenchEngine::Mem),
{
    engine != BenchEngine::Mem
}

} // verus!
