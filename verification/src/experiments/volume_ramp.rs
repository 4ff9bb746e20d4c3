//! Volume ramp and contention: which runs to make.
use vstd::prelude::*;

use crate::engine::BenchStoreIsolation;

verus! {

/// One contention run: store isolation and whether background jobs run
/// (tier 5, with the scheduler) or not (tier 0).
#[derive(Debug, Clone, Copy)]
pub struct ContentionRun {
    pub isolation: BenchStoreIsolation,
    pub isolation_label: &'static str,
    pub tier: u8,
    pub label: &'static str,
    pub chronon_disable_worker: bool,
    pub chronon_no_jobs: bool,
}

/// The contention runs in order: shared stores then per-logical stores,
/// each with jobs off (tier 0) and then on (tier 5); below tier 5 the
/// scheduler's worker and jobs are off.
pub open spec fn contention_plan() -> Seq<(BenchStoreIsolation, Seq<char>, u8, Seq<char>)> {
    seq![
        (BenchStoreIsolation::Shared, "isolation=shared"@, 0u8, "jobs_off"@),
        (BenchStoreIsolation::Shared, "isolation=shared"@, 5u8, "jobs_on"@),
        (BenchStoreIsolation::PerLogical, "isolation=per-logical"@, 0u8, "jobs_off"@),
        (BenchStoreIsolation::PerLogical, "isolation=per-logical"@, 5u8, "jobs_on"@),
    ]
}

pub fn contention_runs() -> (runs: Vec<ContentionRun>)
    ensures
        runs@.len() == contention_plan().len(),
        forall|i: int|
            0 <= i < runs@.len() ==> {
                let r = #[trigger] runs@[i];
                &&& r.isolation == contention_plan()[i].0
                &&& r.isolation_label@ == contention_plan()[i].1
                &&& r.tier == contention_plan()[i].2
                &&& r.label@ == contention_plan()[i].3
                &&& r.chronon_disable_worker == (r.tier < 5)
                &&& r.chronon_no_jobs == (r.tier < 5)
            },
{
    let mut runs: Vec<ContentionRun> = Vec::new();
    let isolations = [
        (BenchStoreIsolation::Shared, "isolation=shared"),
        (BenchStoreIsolation::PerLogical, "isolation=per-logical"),
    ];
    let modes = [(0u8, "jobs_off"), (5u8, "jobs_on")];
    let mut a: usize = 0;
    while a < 2
        invariant
            isolations@ == seq![
                (BenchStoreIsolation::Shared, "isolation=shared"),
                (BenchStoreIsolation::PerLogical, "isolation=per-logical"),
            ],
            modes@ == seq![(0u8, "jobs_off"), (5u8, "jobs_on")],
            a <= 2,
            runs@.len() == 2 * a,
            forall|i: int|
                0 <= i < runs@.len() ==> {
                    let r = #[trigger] runs@[i];
                    &&& r.isolation == contention_plan()[i].0
                    &&& r.isolation_label@ == contention_plan()[i].1
                    &&& r.tier == contention_plan()[i].2
                    &&& r.label@ == contention_plan()[i].3
                    &&& r.chronon_disable_worker == (r.tier < 5)
                    &&& r.chronon_no_jobs == (r.tier < 5)
                },
        decreases 2 - a,
    {
        let (isolation, isolation_label) = isolations[a];
        let mut b: usize = 0;
        while b < 2
            invariant
                isolations@ == seq![
                    (BenchStoreIsolation::Shared, "isolation=shared"),
                    (BenchStoreIsolation::PerLogical, "isolation=per-logical"),
                ],
                modes@ == seq![(0u8, "jobs_off"), (5u8, "jobs_on")],
                a < 2,
                b <= 2,
                isolation == isolations@[a as int].0,
                isolation_label == isolations@[a as int].1,
                runs@.len() == 2 * a + b,
                forall|i: int|
                    0 <= i < runs@.len() ==> {
                        let r = #[trigger] runs@[i];
                        &&& r.isolation == contention_plan()[i].0
                        &&& r.isolation_label@ == contention_plan()[i].1
                        &&& r.tier == contention_plan()[i].2
                        &&& r.label@ == contention_plan()[i].3
                        &&& r.chronon_disable_worker == (r.tier < 5)
                        &&& r.chronon_no_jobs == (r.tier < 5)
                    },
            decreases 2 - b,
        {
            let (tier, label) = modes[b];
            runs.push(
                ContentionRun {
                    isolation,
                    isolation_label,
                    tier,
                    label,
                    chronon_disable_worker: tier < 5,
                    chronon_no_jobs: tier < 5,
                },
            );
            b = b + 1;
        }
        a = a + 1;
    }
    runs
}

/// The row count an experiment seeds: the first value of the volume sweep,
/// or `default` when the sweep is empty.
pub fn sweep_rows(volume_sweep: &Vec<usize>, default: usize) -> (rows: usize)
    ensures
        rows == (if volume_sweep@.len() > 0 { volume_sweep@[0] } else { default }),
{
    if volume_sweep.len() > 0 {
        volume_sweep[0]
    } else {
        default
    }
}

} // verus!
