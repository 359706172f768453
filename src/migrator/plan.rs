//! What a run does before it executes anything: it checks that the ids of the
//! migration set are distinct, and it selects the migrations to execute from
//! the records already stored.
use vstd::prelude::*;

use crate::error::{DuplicatedId, DuplicatedIds, MigrationExecution};
use crate::migration_record::MigrationRecord;
use crate::migration_status::MigrationStatus;

verus! {

/// The direction of a run: `Up` applies migrations in the order of the set,
/// `Down` rolls them back in the reverse order.
#[derive(Clone, Copy, Debug, PartialEq, Eq, Structural)]
pub enum OperationType {
    Up,
    Down,
}

/// The positions below `n` at which `id` occurs in `ids`, in increasing order.
pub open spec fn positions_of(ids: Seq<String>, id: Seq<char>, n: int) -> Seq<usize>
    decreases n,
{
    if n <= 0 {
        Seq::empty()
    } else {
        positions_of(ids, id, n - 1) + if ids[n - 1]@ == id {
            seq![(n - 1) as usize]
        } else {
            Seq::empty()
        }
    }
}

/// Every position at which `id` occurs in `ids`, in increasing order.
pub open spec fn occurrences(ids: Seq<String>, id: Seq<char>) -> Seq<usize> {
    positions_of(ids, id, ids.len() as int)
}

/// How many times `id` occurs among the first `n` ids of `ids`.
pub open spec fn occurrence_count(ids: Seq<String>, id: Seq<char>, n: int) -> nat
    decreases n,
{
    if n <= 0 {
        0
    } else {
        occurrence_count(ids, id, n - 1) + if ids[n - 1]@ == id {
            1nat
        } else {
            0nat
        }
    }
}

/// The positions that [`validate`] reports for a repeated id are as many as
/// the times the id occurs in the set.
pub proof fn lemma_positions_count_occurrences(ids: Seq<String>, id: Seq<char>)
    ensures
        occurrences(ids, id).len() == occurrence_count(ids, id, ids.len() as int),
{
    lemma_positions_count(ids, id, ids.len() as int);
}

proof fn lemma_positions_count(ids: Seq<String>, id: Seq<char>, n: int)
    ensures
        positions_of(ids, id, n).len() == occurrence_count(ids, id, n),
    decreases n,
{
    if n > 0 {
        lemma_positions_count(ids, id, n - 1);
    }
}

/// No id occurs twice in `ids`.
pub open spec fn all_unique(ids: Seq<String>) -> bool {
    forall|i: int, j: int| 0 <= i < j < ids.len() ==> ids[i]@ != ids[j]@
}

/// `d` maps each id that occurs more than once in `ids`, and no other, to all
/// of its positions; no id has two entries.
pub open spec fn describes_duplicates(d: Seq<(String, Seq<usize>)>, ids: Seq<String>) -> bool {
    &&& forall|i: int|
        0 <= i < d.len() ==> #[trigger] d[i].1 == occurrences(ids, d[i].0@) && d[i].1.len() > 1
    &&& forall|i: int, j: int| 0 <= i < j < d.len() ==> d[i].0@ != d[j].0@
    &&& forall|p: int|
        0 <= p < ids.len() && #[trigger] occurrences(ids, ids[p]@).len() > 1 ==> exists|i: int|
            0 <= i < d.len() && #[trigger] d[i].0@ == ids[p]@
}

proof fn lemma_positions_of(ids: Seq<String>, id: Seq<char>, n: int)
    requires
        0 <= n <= ids.len() <= usize::MAX,
    ensures
        forall|k: int|
            0 <= k < positions_of(ids, id, n).len() ==> #[trigger] positions_of(ids, id, n)[k] < n
                && ids[positions_of(ids, id, n)[k] as int]@ == id,
        forall|a: int, b: int|
            0 <= a < b < positions_of(ids, id, n).len() ==> positions_of(ids, id, n)[a]
                < positions_of(ids, id, n)[b],
        forall|q: int| 0 <= q < n && ids[q]@ == id ==> positions_of(ids, id, n).contains(q as usize),
    decreases n,
{
    if n > 0 {
        lemma_positions_of(ids, id, n - 1);
        let prev = positions_of(ids, id, n - 1);
        let cur = positions_of(ids, id, n);
        assert forall|k: int| 0 <= k < cur.len() implies #[trigger] cur[k] < n && ids[cur[k] as int]@
            == id by {
            if k < prev.len() {
                assert(cur[k] == prev[k]);
            }
        }
        assert forall|a: int, b: int| 0 <= a < b < cur.len() implies cur[a] < cur[b] by {
            if b < prev.len() {
                assert(cur[a] == prev[a] && cur[b] == prev[b]);
            } else {
                assert(cur[a] == prev[a]);
            }
        }
        assert forall|q: int| 0 <= q < n && ids[q]@ == id implies cur.contains(q as usize) by {
            if q < n - 1 {
                let k = choose|k: int| 0 <= k < prev.len() && prev[k] == q as usize;
                assert(cur[k] == q as usize);
            } else {
                assert(cur[prev.len() as int] == q as usize);
            }
        }
    }
}

/// An id whose positions are `first < second` is repeated.
proof fn lemma_repeated_id(ids: Seq<String>, first: int, second: int)
    requires
        0 <= first < second < ids.len() <= usize::MAX,
        ids[first]@ == ids[second]@,
    ensures
        occurrences(ids, ids[first]@).len() > 1,
{
    let id = ids[first]@;
    let n = ids.len() as int;
    lemma_positions_of(ids, id, n);
    let occ = occurrences(ids, id);
    assert(occ.contains(first as usize));
    assert(occ.contains(second as usize));
    let a = choose|a: int| 0 <= a < occ.len() && occ[a] == first as usize;
    let b = choose|b: int| 0 <= b < occ.len() && occ[b] == second as usize;
    assert(a != b);
}

/// The positions of `ids[p]` in all of `ids`.
fn collect_positions(ids: &Vec<String>, p: usize) -> (r: Vec<usize>)
    requires
        p < ids@.len(),
    ensures
        r@ == occurrences(ids@, ids@[p as int]@),
{
    let mut positions: Vec<usize> = Vec::new();
    let mut k: usize = 0;
    while k < ids.len()
        invariant
            p < ids@.len(),
            0 <= k <= ids@.len(),
            positions@ == positions_of(ids@, ids@[p as int]@, k as int),
        decreases ids@.len() - k,
    {
        if ids[k] == ids[p] {
            positions.push(k);
        }
        k = k + 1;
    }
    positions
}

/// Whether `ids[p]` occurs before position `p`.
fn occurs_before(ids: &Vec<String>, p: usize) -> (r: bool)
    requires
        p < ids@.len(),
    ensures
        r == exists|q: int| 0 <= q < p && ids@[q]@ == ids@[p as int]@,
{
    let mut q: usize = 0;
    while q < p
        invariant
            p < ids@.len(),
            0 <= q <= p,
            forall|j: int| 0 <= j < q ==> ids@[j]@ != ids@[p as int]@,
        decreases p - q,
    {
        if ids[q] == ids[p] {
            return true;
        }
        q = q + 1;
    }
    false
}

/// Checks that the ids of a migration set are distinct. Otherwise the error
/// lists every repeated id with all of its positions, so that all conflicts
/// can be fixed at once.
pub fn validate(ids: &Vec<String>) -> (r: Result<(), MigrationExecution>)
    ensures
        r is Ok <==> all_unique(ids@),
        r matches Err(e) ==> e matches MigrationExecution::PassedMigrationsWithDuplicatedIds {
            duplicates,
        } && describes_duplicates(duplicates@, ids@),
{
    let mut entries: Vec<DuplicatedId> = Vec::new();
    let mut p: usize = 0;
    while p < ids.len()
        invariant
            0 <= p <= ids@.len(),
            forall|i: int|
                0 <= i < entries@.len() ==> #[trigger] entries@[i].positions@ == occurrences(
                    ids@,
                    entries@[i].id@,
                ) && entries@[i].positions@.len() > 1,
            forall|i: int, j: int|
                0 <= i < j < entries@.len() ==> entries@[i].id@ != entries@[j].id@,
            forall|i: int|
                0 <= i < entries@.len() ==> exists|q: int|
                    0 <= q < p && #[trigger] ids@[q]@ == #[trigger] entries@[i].id@,
            forall|q: int|
                0 <= q < p && #[trigger] occurrences(ids@, ids@[q]@).len() > 1 ==> exists|i: int|
                    0 <= i < entries@.len() && #[trigger] entries@[i].id@ == ids@[q]@,
        decreases ids@.len() - p,
    {
        if !occurs_before(ids, p) {
            let positions = collect_positions(ids, p);
            if positions.len() > 1 {
                let ghost old_entries = entries@;
                entries.push(DuplicatedId { id: ids[p].clone(), positions });
                assert forall|i: int|
                    0 <= i < entries@.len() implies exists|q: int|
                    0 <= q < p + 1 && #[trigger] ids@[q]@ == #[trigger] entries@[i].id@ by {
                    if i < old_entries.len() {
                        let q = choose|q: int| 0 <= q < p && ids@[q]@ == old_entries[i].id@;
                        assert(ids@[q]@ == entries@[i].id@);
                    } else {
                        assert(ids@[p as int]@ == entries@[i].id@);
                    }
                }
                assert forall|i: int, j: int|
                    0 <= i < j < entries@.len() implies entries@[i].id@ != entries@[j].id@ by {
                    if j == old_entries.len() {
                        let q = choose|q: int| 0 <= q < p && ids@[q]@ == old_entries[i].id@;
                    }
                }
                assert(entries@[old_entries.len() as int].id@ == ids@[p as int]@);
                assert forall|q: int|
                    0 <= q < p + 1 && #[trigger] occurrences(ids@, ids@[q]@).len() > 1 implies exists|i: int|
                    0 <= i < entries@.len() && #[trigger] entries@[i].id@ == ids@[q]@ by {
                    if q < p {
                        let i = choose|i: int| 0 <= i < old_entries.len() && old_entries[i].id@ == ids@[q]@;
                        assert(entries@[i].id@ == ids@[q]@);
                    }
                }
            }
        } else {
            proof {
                let q = choose|q: int| 0 <= q < p && ids@[q]@ == ids@[p as int]@;
                assert(occurrences(ids@, ids@[p as int]@) == occurrences(ids@, ids@[q]@));
                if occurrences(ids@, ids@[q]@).len() > 1 {
                    let i = choose|i: int| 0 <= i < entries@.len() && entries@[i].id@ == ids@[q]@;
                    assert(entries@[i].id@ == ids@[p as int]@);
                }
            }
        }
        p = p + 1;
    }
    if entries.len() == 0 {
        assert forall|i: int, j: int| 0 <= i < j < ids@.len() implies ids@[i]@ != ids@[j]@ by {
            if ids@[i]@ == ids@[j]@ {
                lemma_repeated_id(ids@, i, j);
            }
        }
        Ok(())
    } else {
        proof {
            let e = entries@[0];
            let occ = occurrences(ids@, e.id@);
            assert(entries@[0].positions@ == occ);
            lemma_positions_of(ids@, e.id@, ids@.len() as int);
            assert(ids@[occ[0] as int]@ == ids@[occ[1] as int]@);
        }
        let duplicates = DuplicatedIds { entries };
        assert forall|i: int| 0 <= i < duplicates@.len() implies #[trigger] duplicates@[i].1
            == occurrences(ids@, duplicates@[i].0@) && duplicates@[i].1.len() > 1 by {
            assert(duplicates@[i].1 == duplicates.entries@[i].positions@);
        }
        assert forall|p: int|
            0 <= p < ids@.len() && #[trigger] occurrences(ids@, ids@[p]@).len() > 1 implies exists|i: int|
            0 <= i < duplicates@.len() && #[trigger] duplicates@[i].0@ == ids@[p]@ by {
            let i = choose|i: int| 0 <= i < duplicates.entries@.len() && duplicates.entries@[i].id@ == ids@[p]@;
            assert(duplicates@[i].0@ == ids@[p]@);
        }
        Err(MigrationExecution::PassedMigrationsWithDuplicatedIds { duplicates })
    }
}

/// Whether `records` holds a record of `id`.
pub open spec fn has_record(records: Seq<MigrationRecord>, id: Seq<char>) -> bool {
    exists|i: int| 0 <= i < records.len() && #[trigger] records[i]._id@ == id
}

/// Whether `records` holds a record of `id` with status `Fail`.
pub open spec fn has_failed_record(records: Seq<MigrationRecord>, id: Seq<char>) -> bool {
    exists|i: int|
        0 <= i < records.len() && #[trigger] records[i]._id@ == id && records[i].status
            == MigrationStatus::Fail
}

/// Whether the migration `id` is to be executed, given the stored records:
/// it failed before, or it was never attempted. One that succeeded, or whose
/// attempt is still recorded as in progress, is left alone.
pub open spec fn needs_run(records: Seq<MigrationRecord>, id: Seq<char>) -> bool {
    has_failed_record(records, id) || !has_record(records, id)
}

/// The positions in `from..to` whose migrations are to be executed, in
/// increasing order.
pub open spec fn pending_in(
    ids: Seq<String>,
    records: Seq<MigrationRecord>,
    from: int,
    to: int,
) -> Seq<usize>
    decreases to - from,
{
    if to <= from {
        Seq::empty()
    } else {
        pending_in(ids, records, from, to - 1) + if needs_run(records, ids[to - 1]@) {
            seq![(to - 1) as usize]
        } else {
            Seq::empty()
        }
    }
}

/// The positions that a run over `from..to` executes, in the order it
/// executes them: the order of the set going up, the reverse going down.
pub open spec fn run_order(
    ids: Seq<String>,
    records: Seq<MigrationRecord>,
    from: int,
    to: int,
    operation: OperationType,
) -> Seq<usize> {
    match operation {
        OperationType::Up => pending_in(ids, records, from, to),
        OperationType::Down => pending_in(ids, records, from, to).reverse(),
    }
}

/// Whether the migration `id` is to be executed, given the stored records.
pub fn is_pending(records: &Vec<MigrationRecord>, id: &String) -> (r: bool)
    ensures
        r == needs_run(records@, id@),
{
    let mut recorded = false;
    let mut i: usize = 0;
    while i < records.len()
        invariant
            0 <= i <= records@.len(),
            recorded == exists|j: int| 0 <= j < i && #[trigger] records@[j]._id@ == id@,
            forall|j: int|
                0 <= j < i && #[trigger] records@[j]._id@ == id@ ==> records@[j].status
                    != MigrationStatus::Fail,
        decreases records@.len() - i,
    {
        if records[i]._id == *id {
            if records[i].status == MigrationStatus::Fail {
                assert(records@[i as int]._id@ == id@);
                return true;
            }
            recorded = true;
        }
        i = i + 1;
    }
    !recorded
}

/// The positions in `from..to` whose migrations are to be executed, in
/// increasing order.
pub fn select_pending(ids: &Vec<String>, from: usize, to: usize, records: &Vec<MigrationRecord>) -> (r: Vec<usize>)
    requires
        from <= to <= ids@.len(),
    ensures
        r@ == pending_in(ids@, records@, from as int, to as int),
{
    let mut selected: Vec<usize> = Vec::new();
    let mut p: usize = from;
    while p < to
        invariant
            from <= p <= to <= ids@.len(),
            selected@ == pending_in(ids@, records@, from as int, p as int),
        decreases to - p,
    {
        if is_pending(records, &ids[p]) {
            selected.push(p);
        }
        p = p + 1;
    }
    selected
}

/// The positions that a run over `from..to` executes, in the order it
/// executes them.
pub fn execution_order(
    ids: &Vec<String>,
    from: usize,
    to: usize,
    records: &Vec<MigrationRecord>,
    operation: OperationType,
) -> (r: Vec<usize>)
    requires
        from <= to <= ids@.len(),
    ensures
        r@ == run_order(ids@, records@, from as int, to as int, operation),
{
    let selected = select_pending(ids, from, to, records);
    match operation {
        OperationType::Up => selected,
        OperationType::Down => {
            let mut reversed: Vec<usize> = Vec::new();
            let mut k: usize = selected.len();
            while k > 0
                invariant
                    0 <= k <= selected@.len(),
                    reversed@.len() == selected@.len() - k,
                    forall|j: int|
                        0 <= j < reversed@.len() ==> #[trigger] reversed@[j] == selected@[selected@.len()
                            - 1 - j],
                decreases k,
            {
                k = k - 1;
                reversed.push(selected[k]);
            }
            assert(reversed@ =~= selected@.reverse());
            reversed
        },
    }
}

/// Every position that a run executes lies in the range of the run.
pub proof fn lemma_run_order_in_range(
    ids: Seq<String>,
    records: Seq<MigrationRecord>,
    from: int,
    to: int,
    operation: OperationType,
)
    requires
        0 <= from <= to <= usize::MAX,
    ensures
        forall|k: int|
            0 <= k < run_order(ids, records, from, to, operation).len() ==> from <= #[trigger] run_order(
                ids,
                records,
                from,
                to,
                operation,
            )[k] < to,
{
    lemma_pending_in_range(ids, records, from, to);
}

proof fn lemma_pending_in_range(ids: Seq<String>, records: Seq<MigrationRecord>, from: int, to: int)
    requires
        0 <= from <= to <= usize::MAX,
    ensures
        forall|k: int|
            0 <= k < pending_in(ids, records, from, to).len() ==> from <= #[trigger] pending_in(
                ids,
                records,
                from,
                to,
            )[k] < to,
    decreases to - from,
{
    if from < to {
        lemma_pending_in_range(ids, records, from, to - 1);
        let prev = pending_in(ids, records, from, to - 1);
        let cur = pending_in(ids, records, from, to);
        assert forall|k: int| 0 <= k < cur.len() implies from <= #[trigger] cur[k] < to by {
            if k < prev.len() {
                assert(cur[k] == prev[k]);
            }
        }
    }
}

/// A run over the single position `i` executes the migration at `i` if it is
/// pending, and nothing else, whatever the records of the other migrations.
pub proof fn lemma_single_position_order(
    ids: Seq<String>,
    records: Seq<MigrationRecord>,
    i: int,
    operation: OperationType,
)
    requires
        0 <= i < ids.len() <= usize::MAX,
    ensures
        run_order(ids, records, i, i + 1, operation) == if needs_run(records, ids[i]@) {
            seq![i as usize]
        } else {
            Seq::<usize>::empty()
        },
{
    assert(pending_in(ids, records, i, i) =~= Seq::<usize>::empty());
    let order = pending_in(ids, records, i, i + 1);
    if needs_run(records, ids[i]@) {
        assert(order =~= seq![i as usize]);
        assert(order.reverse() =~= seq![i as usize]);
    } else {
        assert(order =~= Seq::<usize>::empty());
        assert(order.reverse() =~= Seq::<usize>::empty());
    }
}

/// When every migration in `from..to` is pending (none has a record, say),
/// `Up` executes the positions in increasing order and `Down` executes them
/// in decreasing order.
pub proof fn lemma_all_pending_order(ids: Seq<String>, records: Seq<MigrationRecord>, from: int, to: int)
    requires
        0 <= from <= to <= ids.len() <= usize::MAX,
        forall|p: int| from <= p < to ==> needs_run(records, #[trigger] ids[p]@),
    ensures
        run_order(ids, records, from, to, OperationType::Up) == Seq::new(
            (to - from) as nat,
            |i: int| (from + i) as usize,
        ),
        run_order(ids, records, from, to, OperationType::Down) == Seq::new(
            (to - from) as nat,
            |i: int| (to - 1 - i) as usize,
        ),
{
    lemma_all_pending(ids, records, from, to);
    let up = pending_in(ids, records, from, to);
    if up.len() > 0 {
        assert(up.reverse() =~= Seq::new((to - from) as nat, |i: int| (to - 1 - i) as usize));
    } else {
        assert(up.reverse() =~= Seq::new((to - from) as nat, |i: int| (to - 1 - i) as usize));
    }
}

proof fn lemma_all_pending(ids: Seq<String>, records: Seq<MigrationRecord>, from: int, to: int)
    requires
        0 <= from <= to <= ids.len() <= usize::MAX,
        forall|p: int| from <= p < to ==> needs_run(records, #[trigger] ids[p]@),
    ensures
        pending_in(ids, records, from, to) == Seq::new((to - from) as nat, |i: int| (from + i) as usize),
    decreases to - from,
{
    if from < to {
        lemma_all_pending(ids, records, from, to - 1);
        assert(needs_run(records, ids[to - 1]@));
    }
    assert(pending_in(ids, records, from, to) =~= Seq::new(
        (to - from) as nat,
        |i: int| (from + i) as usize,
    ));
}

/// Whether `records` holds a record of `id`, and every record of `id` it
/// holds has status `Success`.
pub open spec fn succeeded_only(records: Seq<MigrationRecord>, id: Seq<char>) -> bool {
    &&& has_record(records, id)
    &&& forall|i: int|
        0 <= i < records.len() && #[trigger] records[i]._id@ == id ==> records[i].status
            == MigrationStatus::Success
}

/// A run finds nothing to execute in a range whose migrations have all
/// succeeded: running `Up` (or `Down`) a second time after a fully successful
/// run executes nothing.
pub proof fn lemma_all_succeeded_selects_nothing(
    ids: Seq<String>,
    records: Seq<MigrationRecord>,
    from: int,
    to: int,
    operation: OperationType,
)
    requires
        0 <= from <= to <= ids.len(),
        forall|p: int| from <= p < to ==> succeeded_only(records, #[trigger] ids[p]@),
    ensures
        run_order(ids, records, from, to, operation).len() == 0,
    decreases to - from,
{
    if from < to {
        lemma_all_succeeded_selects_nothing(ids, records, from, to - 1, operation);
        let id = ids[to - 1]@;
        assert(succeeded_only(records, id));
        if has_failed_record(records, id) {
            let j = choose|j: int|
                0 <= j < records.len() && records[j]._id@ == id && records[j].status
                    == MigrationStatus::Fail;
            assert(records[j].status == MigrationStatus::Success);
        }
    }
}

/// When the migrations from position `k` on all have a failed record (as a
/// failed run leaves the one that failed and those after it), running `Up`
/// again executes each of them, after whatever it executes before `k`, in the
/// order of the set.
pub proof fn lemma_rerun_resumes_from_failure(
    ids: Seq<String>,
    records: Seq<MigrationRecord>,
    k: int,
)
    requires
        0 <= k <= ids.len() <= usize::MAX,
        forall|p: int| k <= p < ids.len() ==> has_failed_record(records, #[trigger] ids[p]@),
    ensures
        run_order(ids, records, 0, ids.len() as int, OperationType::Up) == run_order(
            ids,
            records,
            0,
            k,
            OperationType::Up,
        ) + Seq::new((ids.len() - k) as nat, |i: int| (k + i) as usize),
{
    lemma_pending_failed_suffix(ids, records, k, ids.len() as int);
}

proof fn lemma_pending_failed_suffix(ids: Seq<String>, records: Seq<MigrationRecord>, k: int, to: int)
    requires
        0 <= k <= to <= ids.len() <= usize::MAX,
        forall|p: int| k <= p < ids.len() ==> has_failed_record(records, #[trigger] ids[p]@),
    ensures
        pending_in(ids, records, 0, to) == pending_in(ids, records, 0, k) + Seq::new(
            (to - k) as nat,
            |i: int| (k + i) as usize,
        ),
    decreases to - k,
{
    if to > k {
        lemma_pending_failed_suffix(ids, records, k, to - 1);
        assert(has_failed_record(records, ids[to - 1]@));
        assert(pending_in(ids, records, 0, to) =~= pending_in(ids, records, 0, k) + Seq::new(
            (to - k) as nat,
            |i: int| (k + i) as usize,
        ));
    } else {
        assert(pending_in(ids, records, 0, to) =~= pending_in(ids, records, 0, k) + Seq::new(
            (to - k) as nat,
            |i: int| (k + i) as usize,
        ));
    }
}

} // verus!
