//! Seeding background-shaped tables for the volume experiments.
use vstd::prelude::*;

verus! {

/// Rows written per seeding transaction.
pub const BATCH: usize = 500;

/// The `k`-th batch of row indices: `[k * BATCH, min((k + 1) * BATCH, rows))`.
pub open spec fn batch_range(rows: nat, k: nat) -> (int, int) {
    let start = k * BATCH;
    let end = start + BATCH;
    (start as int, if end < rows { end as int } else { rows as int })
}

/// Splits row indices `0..rows` into consecutive transactions of at most
/// `BATCH` rows, in order.
pub fn seed_batches(rows: usize) -> (batches: Vec<(usize, usize)>)
    ensures
        batches@.len() == (rows + BATCH - 1) / (BATCH as int),
        forall|k: int|
            0 <= k < batches@.len() ==> (#[trigger] batches@[k]).0 as int == batch_range(
                rows as nat,
                k as nat,
            ).0 && batches@[k].1 as int == batch_range(rows as nat, k as nat).1,
{
    let mut batches: Vec<(usize, usize)> = Vec::new();
    let mut i: usize = 0;
    while i < rows
        invariant
            i <= rows,
            i as int == batches@.len() * BATCH || i == rows,
            i < rows ==> i as int == batches@.len() * BATCH,
            batches@.len() == (i + BATCH - 1) / (BATCH as int),
            forall|k: int|
                0 <= k < batches@.len() ==> (#[trigger] batches@[k]).0 as int == batch_range(
                    rows as nat,
                    k as nat,
                ).0 && batches@[k].1 as int == batch_range(rows as nat, k as nat).1,
        decreases rows - i,
    {
        let end = if rows - i > BATCH { i + BATCH } else { rows };
        batches.push((i, end));
        i = end;
    }
    batches
}

} // verus!
