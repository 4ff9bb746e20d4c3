//! The metric-persistence root-cause ladder: a fixed set of environment
//! variants, each run on a full stack in a directory of its own.
use vstd::prelude::*;
use vstd::string::*;

use crate::engine::{join_path, path_join};
use crate::stack::{linked_features, max_tier_for, StackOptions};

verus! {

/// An environment setting as text.
pub type EnvPair = (String, String);

/// The text of a list of environment settings.
pub open spec fn env_text(env: Seq<EnvPair>) -> Seq<(Seq<char>, Seq<char>)> {
    env.map_values(|p: EnvPair| (p.0@, p.1@))
}

/// The variants, in the order they run, with the settings each declares.
pub open spec fn variant_table() -> Seq<(Seq<char>, Seq<(Seq<char>, Seq<char>)>)> {
    seq![
        ("A_baseline"@, seq![("SPECTRA_PERSIST"@, "1"@)]),
        ("B_surreal_off"@, seq![("SPECTRA_PERSIST"@, "0"@)]),
        ("C_noop"@, seq![("SPECTRA_PERSIST"@, "0"@), ("SPECTRA_SINK"@, "noop"@)]),
        ("D_request_buffer"@, seq![("SPECTRA_PERSIST"@, "1"@), ("SPECTRA_REQUEST_BUFFER"@, "1"@)]),
        ("E_counter_aggregate"@, seq![
            ("SPECTRA_PERSIST"@, "1"@),
            ("SPECTRA_REQUEST_BUFFER"@, "1"@),
            ("SPECTRA_COUNTER_AGGREGATE"@, "1"@),
        ]),
        ("F_batch_txn"@, seq![("SPECTRA_PERSIST"@, "1"@), ("SPECTRA_PERSIST_BATCH_TXN"@, "1"@)]),
        ("G_dedicated_store"@, seq![
            ("SPECTRA_PERSIST"@, "1"@),
            ("SPECTRA_DEDICATED_STORE"@, "rocksdb"@),
        ]),
        ("G_per_store"@, seq![
            ("SPECTRA_PERSIST"@, "1"@),
            ("SPECTRA_STORE_ISOLATION"@, "per-store"@),
        ]),
        ("H_all_levers"@, seq![
            ("SPECTRA_PERSIST"@, "1"@),
            ("SPECTRA_REQUEST_BUFFER"@, "1"@),
            ("SPECTRA_COUNTER_AGGREGATE"@, "1"@),
            ("SPECTRA_PERSIST_BATCH_TXN"@, "1"@),
            ("SPECTRA_DEDICATED_STORE"@, "rocksdb"@),
        ]),
        ("H_all_levers_per_store"@, seq![
            ("SPECTRA_PERSIST"@, "1"@),
            ("SPECTRA_REQUEST_BUFFER"@, "1"@),
            ("SPECTRA_COUNTER_AGGREGATE"@, "1"@),
            ("SPECTRA_PERSIST_BATCH_TXN"@, "1"@),
            ("SPECTRA_STORE_ISOLATION"@, "per-store"@),
        ]),
    ]
}

fn pair(k: &str, v: &str) -> (p: EnvPair)
    ensures
        p.0@ == k@,
        p.1@ == v@,
{
    (String::from_str(k), String::from_str(v))
}

/// The variants, in the order they run, with the settings each declares.
pub fn rootcause_variants() -> (variants: Vec<(String, Vec<EnvPair>)>)
    ensures
        variants@.len() == variant_table().len(),
        forall|i: int|
            0 <= i < variants@.len() ==> (#[trigger] variants@[i]).0@ == variant_table()[i].0
                && env_text(variants@[i].1@) == variant_table()[i].1,
{
    let mut variants: Vec<(String, Vec<EnvPair>)> = Vec::new();
    variants.push((String::from_str("A_baseline"), vec![pair("SPECTRA_PERSIST", "1")]));
    variants.push((String::from_str("B_surreal_off"), vec![pair("SPECTRA_PERSIST", "0")]));
    variants.push(
        (
            String::from_str("C_noop"),
            vec![pair("SPECTRA_PERSIST", "0"), pair("SPECTRA_SINK", "noop")],
        ),
    );
    variants.push(
        (
            String::from_str("D_request_buffer"),
            vec![pair("SPECTRA_PERSIST", "1"), pair("SPECTRA_REQUEST_BUFFER", "1")],
        ),
    );
    variants.push(
        (
            String::from_str("E_counter_aggregate"),
            vec![
                pair("SPECTRA_PERSIST", "1"),
                pair("SPECTRA_REQUEST_BUFFER", "1"),
                pair("SPECTRA_COUNTER_AGGREGATE", "1"),
            ],
        ),
    );
    variants.push(
        (
            String::from_str("F_batch_txn"),
            vec![pair("SPECTRA_PERSIST", "1"), pair("SPECTRA_PERSIST_BATCH_TXN", "1")],
        ),
    );
    variants.push(
        (
            String::from_str("G_dedicated_store"),
            vec![pair("SPECTRA_PERSIST", "1"), pair("SPECTRA_DEDICATED_STORE", "rocksdb")],
        ),
    );
    variants.push(
        (
            String::from_str("G_per_store"),
            vec![pair("SPECTRA_PERSIST", "1"), pair("SPECTRA_STORE_ISOLATION", "per-store")],
        ),
    );
    variants.push(
        (
            String::from_str("H_all_levers"),
            vec![
                pair("SPECTRA_PERSIST", "1"),
                pair("SPECTRA_REQUEST_BUFFER", "1"),
                pair("SPECTRA_COUNTER_AGGREGATE", "1"),
                pair("SPECTRA_PERSIST_BATCH_TXN", "1"),
                pair("SPECTRA_DEDICATED_STORE", "rocksdb"),
            ],
        ),
    );
    variants.push(
        (
            String::from_str("H_all_levers_per_store"),
            vec![
                pair("SPECTRA_PERSIST", "1"),
                pair("SPECTRA_REQUEST_BUFFER", "1"),
                pair("SPECTRA_COUNTER_AGGREGATE", "1"),
                pair("SPECTRA_PERSIST_BATCH_TXN", "1"),
                pair("SPECTRA_STORE_ISOLATION", "per-store"),
            ],
        ),
    );
    proof {
        assert forall|i: int| 0 <= i < variants@.len() implies (#[trigger] variants@[i]).0@
            == variant_table()[i].0 && env_text(variants@[i].1@) == variant_table()[i].1 by {
            assert(env_text(variants@[i].1@) =~= variant_table()[i].1);
        }
    }
    variants
}

/// The optional settings that a variant may declare; each variant starts
/// with all of them unset.
pub open spec fn cleared_vars() -> Seq<Seq<char>> {
    seq![
        "SPECTRA_SINK"@,
        "SPECTRA_REQUEST_BUFFER"@,
        "SPECTRA_COUNTER_AGGREGATE"@,
        "SPECTRA_PERSIST_BATCH_TXN"@,
        "SPECTRA_DEDICATED_STORE"@,
        "SPECTRA_DEDICATED_STORE_PATH"@,
        "SPECTRA_STORE_ISOLATION"@,
        "SPECTRA_STORE_BASE_PATH"@,
    ]
}

/// The variant asks for a dedicated metric store.
pub open spec fn wants_dedicated_store(env: Seq<(Seq<char>, Seq<char>)>) -> bool {
    exists|i: int|
        0 <= i < env.len() && (#[trigger] env[i]).0 == "SPECTRA_DEDICATED_STORE"@ && (env[i].1
            == "rocksdb"@ || env[i].1 == "1"@)
}

/// The variant asks for one metric store per store.
pub open spec fn wants_per_store(env: Seq<(Seq<char>, Seq<char>)>) -> bool {
    exists|i: int|
        0 <= i < env.len() && (#[trigger] env[i]).0 == "SPECTRA_STORE_ISOLATION"@ && env[i].1
            == "per-store"@
}

/// Where a variant's runs live, and where its metric stores go.
pub open spec fn variant_dir(data_dir: Seq<char>, name: Seq<char>) -> Seq<char> {
    path_join(data_dir, name)
}

pub open spec fn variant_spectra_dir(data_dir: Seq<char>, name: Seq<char>) -> Seq<char> {
    path_join(variant_dir(data_dir, name), "surreal/spectra"@)
}

/// How to set up the environment and the stack for one variant.
pub struct VariantPlan {
    /// Variables to unset first.
    pub clear: Vec<&'static str>,
    /// Variables to set afterwards, in order.
    pub set: Vec<EnvPair>,
    /// The variant's own data directory.
    pub data_dir: String,
    /// The tier to boot: the full stack, at least tier 4.
    pub tier: u8,
}

/// The settings a variant ends up with: its own, then the metric store
/// location when it asks for a dedicated store, then the store base when it
/// asks for one metric store per store.
pub open spec fn planned_settings(
    env: Seq<(Seq<char>, Seq<char>)>,
    data_dir: Seq<char>,
    name: Seq<char>,
) -> Seq<(Seq<char>, Seq<char>)> {
    let with_dedicated = if wants_dedicated_store(env) {
        env.push(("SPECTRA_DEDICATED_STORE_PATH"@, variant_spectra_dir(data_dir, name)))
    } else {
        env
    };
    if wants_per_store(env) {
        with_dedicated.push(("SPECTRA_STORE_BASE_PATH"@, variant_spectra_dir(data_dir, name)))
    } else {
        with_dedicated
    }
}

pub open spec fn rootcause_tier() -> u8 {
    if max_tier_for(linked_features()) > 4 {
        max_tier_for(linked_features())
    } else {
        4
    }
}

fn string_is(s: &String, t: &str) -> (b: bool)
    ensures
        b == (s@ == t@),
{
    let other = String::from_str(t);
    s.eq(&other)
}

/// Plans one variant: which variables to clear and set, its data directory
/// and the tier to boot.
pub fn variant_plan(name: &str, env: &Vec<EnvPair>, data_dir: &str) -> (plan: VariantPlan)
    ensures
        plan.clear@.len() == cleared_vars().len(),
        forall|i: int| 0 <= i < plan.clear@.len() ==> #[trigger] plan.clear@[i]@ == cleared_vars()[i],
        env_text(plan.set@) == planned_settings(env_text(env@), data_dir@, name@),
        plan.data_dir@ == variant_dir(data_dir@, name@),
        plan.tier == rootcause_tier(),
{
    let clear: Vec<&'static str> = vec![
        "SPECTRA_SINK",
        "SPECTRA_REQUEST_BUFFER",
        "SPECTRA_COUNTER_AGGREGATE",
        "SPECTRA_PERSIST_BATCH_TXN",
        "SPECTRA_DEDICATED_STORE",
        "SPECTRA_DEDICATED_STORE_PATH",
        "SPECTRA_STORE_ISOLATION",
        "SPECTRA_STORE_BASE_PATH",
    ];
    let ghost text = env_text(env@);
    let mut set: Vec<EnvPair> = Vec::new();
    let mut dedicated = false;
    let mut per_store = false;
    let mut i: usize = 0;
    while i < env.len()
        invariant
            i <= env@.len(),
            text == env_text(env@),
            env_text(set@) == text.take(i as int),
            dedicated == exists|j: int|
                0 <= j < i && (#[trigger] text[j]).0 == "SPECTRA_DEDICATED_STORE"@ && (text[j].1
                    == "rocksdb"@ || text[j].1 == "1"@),
            per_store == exists|j: int|
                0 <= j < i && (#[trigger] text[j]).0 == "SPECTRA_STORE_ISOLATION"@ && text[j].1
                    == "per-store"@,
        decreases env@.len() - i,
    {
        let (k, v) = &env[i];
        proof {
            assert(text[i as int] == (k@, v@));
        }
        if string_is(k, "SPECTRA_DEDICATED_STORE") && (string_is(v, "rocksdb") || string_is(
            v,
            "1",
        )) {
            dedicated = true;
        }
        if string_is(k, "SPECTRA_STORE_ISOLATION") && string_is(v, "per-store") {
            per_store = true;
        }
        let ghost old_set = set@;
        set.push((k.clone(), v.clone()));
        proof {
            assert(env_text(set@) =~= env_text(old_set).push((k@, v@)));
            assert(text.take(i + 1) =~= text.take(i as int).push(text[i as int]));
            assert(env_text(set@) =~= text.take(i + 1));
        }
        i = i + 1;
    }
    proof {
        assert(text.take(env@.len() as int) =~= text);
    }
    let variant_dir = join_path(data_dir, name);
    let spectra_dir = join_path(variant_dir.as_str(), "surreal/spectra");
    let ghost base = env_text(set@);
    if dedicated {
        let spectra_path = spectra_dir.clone();
        set.push((String::from_str("SPECTRA_DEDICATED_STORE_PATH"), spectra_path));
        proof {
            assert(env_text(set@) =~= base.push(
                ("SPECTRA_DEDICATED_STORE_PATH"@, variant_spectra_dir(data_dir@, name@)),
            ));
        }
    }
    let ghost with_dedicated = env_text(set@);
    if per_store {
        set.push((String::from_str("SPECTRA_STORE_BASE_PATH"), spectra_dir));
        proof {
            assert(env_text(set@) =~= with_dedicated.push(
                ("SPECTRA_STORE_BASE_PATH"@, variant_spectra_dir(data_dir@, name@)),
            ));
        }
    }
    let max = StackOptions::max_tier_available();
    let tier = if max > 4 { max } else { 4 };
    VariantPlan { clear, set, data_dir: variant_dir, tier }
}


/// Every setting of `part` is also a setting of `whole`.
pub open spec fn declares_all(
    whole: Seq<(Seq<char>, Seq<char>)>,
    part: Seq<(Seq<char>, Seq<char>)>,
) -> bool {
    forall|k: int| 0 <= k < part.len() ==> whole.contains(#[trigger] part[k])
}

/// The variants that each pull one lever on top of persisting metrics to a
/// dedicated store: request buffering, counter aggregation, batched
/// transactions and the dedicated store itself.
pub open spec fn is_dedicated_lever(name: Seq<char>) -> bool {
    ||| name == "D_request_buffer"@
    ||| name == "E_counter_aggregate"@
    ||| name == "F_batch_txn"@
    ||| name == "G_dedicated_store"@
}

/// The same levers with one metric store per store in place of the
/// dedicated store.
pub open spec fn is_per_store_lever(name: Seq<char>) -> bool {
    ||| name == "D_request_buffer"@
    ||| name == "E_counter_aggregate"@
    ||| name == "F_batch_txn"@
    ||| name == "G_per_store"@
}

proof fn lemma_variant_names()
    ensures
        variant_table()[0].0.len() == 10,
        variant_table()[1].0.len() == 13,
        variant_table()[2].0.len() == 6,
        variant_table()[3].0.len() == 16,
        variant_table()[4].0.len() == 19,
        variant_table()[5].0.len() == 11 && variant_table()[5].0[0] == 'F',
        variant_table()[6].0.len() == 17,
        variant_table()[7].0.len() == 11 && variant_table()[7].0[0] == 'G',
        variant_table()[8].0.len() == 12,
        variant_table()[9].0.len() == 22,
        "H_all_levers"@.len() == 12,
        "H_all_levers_per_store"@.len() == 22,
        "D_request_buffer"@.len() == 16,
        "E_counter_aggregate"@.len() == 19,
        "F_batch_txn"@.len() == 11 && "F_batch_txn"@[0] == 'F',
        "G_dedicated_store"@.len() == 17,
        "G_per_store"@.len() == 11 && "G_per_store"@[0] == 'G',
{
    reveal_strlit("A_baseline");
    reveal_strlit("B_surreal_off");
    reveal_strlit("C_noop");
    reveal_strlit("D_request_buffer");
    reveal_strlit("E_counter_aggregate");
    reveal_strlit("F_batch_txn");
    reveal_strlit("G_dedicated_store");
    reveal_strlit("G_per_store");
    reveal_strlit("H_all_levers");
    reveal_strlit("H_all_levers_per_store");
}

/// Law: the all-levers variant declares every setting of each variant that
/// pulls a single lever with the dedicated store, and the all-levers
/// per-store variant every setting of each single-lever variant with one
/// metric store per store.
pub proof fn lemma_all_levers_combine_single_levers(i: int, j: int)
    requires
        0 <= i < variant_table().len(),
        0 <= j < variant_table().len(),
    ensures
        variant_table()[i].0 == "H_all_levers"@ && is_dedicated_lever(variant_table()[j].0)
            ==> declares_all(variant_table()[i].1, variant_table()[j].1),
        variant_table()[i].0 == "H_all_levers_per_store"@ && is_per_store_lever(
            variant_table()[j].0,
        ) ==> declares_all(variant_table()[i].1, variant_table()[j].1),
{
    lemma_variant_names();
    let t = variant_table();
    let h = t[8].1;
    let hp = t[9].1;
    assert(h[0] == t[3].1[0] && h[1] == t[3].1[1] && h[2] == t[4].1[2] && h[3] == t[5].1[1]
        && h[4] == t[6].1[1]);
    assert(hp[0] == t[3].1[0] && hp[1] == t[3].1[1] && hp[2] == t[4].1[2] && hp[3] == t[5].1[1]
        && hp[4] == t[7].1[1]);
    assert forall|a: int, k: int|
        (a == 3 || a == 4 || a == 5 || a == 6) && 0 <= k < t[a].1.len() implies h.contains(
        #[trigger] t[a].1[k],
    ) by {
        if a == 3 {
            if k == 0 {
                assert(h[0] == t[a].1[k]);
            } else {
                assert(h[1] == t[a].1[k]);
            }
        } else if a == 4 {
            assert(h[k] == t[a].1[k]);
        } else if a == 5 {
            if k == 0 {
                assert(h[0] == t[a].1[k]);
            } else {
                assert(h[3] == t[a].1[k]);
            }
        } else {
            if k == 0 {
                assert(h[0] == t[a].1[k]);
            } else {
                assert(h[4] == t[a].1[k]);
            }
        }
    }
    assert forall|a: int, k: int|
        (a == 3 || a == 4 || a == 5 || a == 7) && 0 <= k < t[a].1.len() implies hp.contains(
        #[trigger] t[a].1[k],
    ) by {
        if a == 3 {
            if k == 0 {
                assert(hp[0] == t[a].1[k]);
            } else {
                assert(hp[1] == t[a].1[k]);
            }
        } else if a == 4 {
            assert(hp[k] == t[a].1[k]);
        } else if a == 5 {
            if k == 0 {
                assert(hp[0] == t[a].1[k]);
            } else {
                assert(hp[3] == t[a].1[k]);
            }
        } else {
            if k == 0 {
                assert(hp[0] == t[a].1[k]);
            } else {
                assert(hp[4] == t[a].1[k]);
            }
        }
    }
    if t[i].0 == "H_all_levers"@ && is_dedicated_lever(t[j].0) {
        assert(t[i].0.len() == 12);
        assert(i == 8);
        if j == 7 {
            assert(t[j].0[0] == 'G');
        }
        if j == 5 {
            assert(t[j].0[0] == 'F');
        }
        assert(j == 3 || j == 4 || j == 5 || j == 6);
        assert forall|k: int| 0 <= k < t[j].1.len() implies t[i].1.contains(#[trigger] t[j].1[k]) by {
            assert(t[j].1.len() == t[j].1.len());
        }
    }
    if t[i].0 == "H_all_levers_per_store"@ && is_per_store_lever(t[j].0) {
        assert(t[i].0.len() == 22);
        assert(i == 9);
        if j == 5 {
            assert(t[j].0[0] == 'F');
        }
        if j == 7 {
            assert(t[j].0[0] == 'G');
        }
        assert(j == 3 || j == 4 || j == 5 || j == 7);
        assert forall|k: int| 0 <= k < t[j].1.len() implies t[i].1.contains(#[trigger] t[j].1[k]) by {
            assert(t[j].1.len() == t[j].1.len());
        }
    }
}

} // verus!
