//! Stage and status counters built from grouped count rows or from lists.
use vstd::prelude::*;
use crate::model::{
    GroupCountRow, Placement, PlacementStatusCounts, ResourceStatusCounts, StageCounts, TodoItem,
    TodoStats,
};
use crate::text::str_eq;

verus! {

/// The count that the grouped rows give `key`: the last row with that key
/// wins, and a key with no row counts 0.
pub open spec fn last_count(rows: Seq<GroupCountRow>, key: Seq<char>) -> u32
    decreases rows.len(),
{
    if rows.len() == 0 {
        0
    } else if rows.last().key@ == key {
        rows.last().n
    } else {
        last_count(rows.drop_last(), key)
    }
}

/// The sum of every row's count.
pub open spec fn count_sum(rows: Seq<GroupCountRow>) -> int
    decreases rows.len(),
{
    if rows.len() == 0 {
        0
    } else {
        count_sum(rows.drop_last()) + rows.last().n
    }
}

/// The total of the rows' counts, stopping at `u32::MAX`.
pub open spec fn saturated_total(rows: Seq<GroupCountRow>) -> u32 {
    if count_sum(rows) > u32::MAX { u32::MAX } else { count_sum(rows) as u32 }
}

/// The household stages, in pipeline order.
pub open spec fn stage_keys() -> Seq<Seq<char>> {
    seq!["intake"@, "assessment"@, "placement"@, "follow_up"@, "exited"@]
}

/// The resource statuses.
pub open spec fn resource_status_keys() -> Seq<Seq<char>> {
    seq!["available"@, "held"@, "occupied"@, "offline"@]
}

/// The placement statuses, in lifecycle order.
pub open spec fn placement_status_keys() -> Seq<Seq<char>> {
    seq!["proposed"@, "confirmed"@, "moved_in"@, "exited"@, "cancelled"@]
}

/// The stage counts that grouped rows give.
pub open spec fn stage_counts_of(rows: Seq<GroupCountRow>) -> StageCounts {
    StageCounts {
        intake: last_count(rows, "intake"@),
        assessment: last_count(rows, "assessment"@),
        placement: last_count(rows, "placement"@),
        follow_up: last_count(rows, "follow_up"@),
        exited: last_count(rows, "exited"@),
    }
}

/// The resource status counts that grouped rows give.
pub open spec fn resource_counts_of(rows: Seq<GroupCountRow>) -> ResourceStatusCounts {
    ResourceStatusCounts {
        available: last_count(rows, "available"@),
        held: last_count(rows, "held"@),
        occupied: last_count(rows, "occupied"@),
        offline: last_count(rows, "offline"@),
    }
}

/// The placement status counts that grouped rows give.
pub open spec fn placement_counts_of(rows: Seq<GroupCountRow>) -> PlacementStatusCounts {
    PlacementStatusCounts {
        proposed: last_count(rows, "proposed"@),
        confirmed: last_count(rows, "confirmed"@),
        moved_in: last_count(rows, "moved_in"@),
        exited: last_count(rows, "exited"@),
        cancelled: last_count(rows, "cancelled"@),
    }
}

proof fn lemma_last_count_step(rows: Seq<GroupCountRow>, i: int, key: Seq<char>)
    requires
        0 <= i < rows.len(),
    ensures
        last_count(rows.take(i + 1), key) == if rows[i].key@ == key {
            rows[i].n
        } else {
            last_count(rows.take(i), key)
        },
{
    assert(rows.take(i + 1).drop_last() =~= rows.take(i));
}

proof fn lemma_count_sum_step(rows: Seq<GroupCountRow>, i: int)
    requires
        0 <= i < rows.len(),
    ensures
        count_sum(rows.take(i + 1)) == count_sum(rows.take(i)) + rows[i].n,
{
    assert(rows.take(i + 1).drop_last() =~= rows.take(i));
}

/// Household stage counts from `GROUP BY stage` rows; unknown stages are
/// ignored.
pub fn stage_counts(rows: &Vec<GroupCountRow>) -> (c: StageCounts)
    ensures
        c == stage_counts_of(rows@),
{
    let mut c = StageCounts { intake: 0, assessment: 0, placement: 0, follow_up: 0, exited: 0 };
    let mut i: usize = 0;
    assert(rows@.take(0) =~= Seq::<GroupCountRow>::empty());
    while i < rows.len()
        invariant
            i <= rows@.len(),
            c == stage_counts_of(rows@.take(i as int)),
        decreases rows.len() - i,
    {
        let row = &rows[i];
        let k = row.key.as_str();
        proof {
            lemma_last_count_step(rows@, i as int, "intake"@);
            lemma_last_count_step(rows@, i as int, "assessment"@);
            lemma_last_count_step(rows@, i as int, "placement"@);
            lemma_last_count_step(rows@, i as int, "follow_up"@);
            lemma_last_count_step(rows@, i as int, "exited"@);
        }
        if str_eq(k, "intake") {
            c.intake = row.n;
        }
        if str_eq(k, "assessment") {
            c.assessment = row.n;
        }
        if str_eq(k, "placement") {
            c.placement = row.n;
        }
        if str_eq(k, "follow_up") {
            c.follow_up = row.n;
        }
        if str_eq(k, "exited") {
            c.exited = row.n;
        }
        i = i + 1;
    }
    assert(rows@.take(rows@.len() as int) =~= rows@);
    c
}

/// Resource status counts from `GROUP BY status` rows; unknown statuses
/// are ignored.
pub fn resource_status_counts(rows: &Vec<GroupCountRow>) -> (c: ResourceStatusCounts)
    ensures
        c == resource_counts_of(rows@),
{
    let mut c = ResourceStatusCounts { available: 0, held: 0, occupied: 0, offline: 0 };
    let mut i: usize = 0;
    assert(rows@.take(0) =~= Seq::<GroupCountRow>::empty());
    while i < rows.len()
        invariant
            i <= rows@.len(),
            c == resource_counts_of(rows@.take(i as int)),
        decreases rows.len() - i,
    {
        let row = &rows[i];
        let k = row.key.as_str();
        proof {
            lemma_last_count_step(rows@, i as int, "available"@);
            lemma_last_count_step(rows@, i as int, "held"@);
            lemma_last_count_step(rows@, i as int, "occupied"@);
            lemma_last_count_step(rows@, i as int, "offline"@);
        }
        if str_eq(k, "available") {
            c.available = row.n;
        }
        if str_eq(k, "held") {
            c.held = row.n;
        }
        if str_eq(k, "occupied") {
            c.occupied = row.n;
        }
        if str_eq(k, "offline") {
            c.offline = row.n;
        }
        i = i + 1;
    }
    assert(rows@.take(rows@.len() as int) =~= rows@);
    c
}

/// Placement status counts from `GROUP BY status` rows; unknown statuses
/// are ignored.
pub fn placement_status_counts(rows: &Vec<GroupCountRow>) -> (c: PlacementStatusCounts)
    ensures
        c == placement_counts_of(rows@),
{
    let mut c = PlacementStatusCounts {
        proposed: 0,
        confirmed: 0,
        moved_in: 0,
        exited: 0,
        cancelled: 0,
    };
    let mut i: usize = 0;
    assert(rows@.take(0) =~= Seq::<GroupCountRow>::empty());
    while i < rows.len()
        invariant
            i <= rows@.len(),
            c == placement_counts_of(rows@.take(i as int)),
        decreases rows.len() - i,
    {
        let row = &rows[i];
        let k = row.key.as_str();
        proof {
            lemma_last_count_step(rows@, i as int, "proposed"@);
            lemma_last_count_step(rows@, i as int, "confirmed"@);
            lemma_last_count_step(rows@, i as int, "moved_in"@);
            lemma_last_count_step(rows@, i as int, "exited"@);
            lemma_last_count_step(rows@, i as int, "cancelled"@);
        }
        if str_eq(k, "proposed") {
            c.proposed = row.n;
        }
        if str_eq(k, "confirmed") {
            c.confirmed = row.n;
        }
        if str_eq(k, "moved_in") {
            c.moved_in = row.n;
        }
        if str_eq(k, "exited") {
            c.exited = row.n;
        }
        if str_eq(k, "cancelled") {
            c.cancelled = row.n;
        }
        i = i + 1;
    }
    assert(rows@.take(rows@.len() as int) =~= rows@);
    c
}

/// The sum of every row's count, saturating at `u32::MAX`.
pub fn saturating_total(rows: &Vec<GroupCountRow>) -> (t: u32)
    ensures
        t == saturated_total(rows@),
{
    let mut t: u32 = 0;
    let mut i: usize = 0;
    assert(rows@.take(0) =~= Seq::<GroupCountRow>::empty());
    while i < rows.len()
        invariant
            i <= rows@.len(),
            t == saturated_total(rows@.take(i as int)),
            count_sum(rows@.take(i as int)) >= 0,
        decreases rows.len() - i,
    {
        proof {
            lemma_count_sum_step(rows@, i as int);
        }
        t = t.saturating_add(rows[i].n);
        i = i + 1;
    }
    assert(rows@.take(rows@.len() as int) =~= rows@);
    t
}

// ------- counting a list --------------------------------------------------

/// How many placements have status `s`.
pub open spec fn status_count(items: Seq<Placement>, s: Seq<char>) -> nat
    decreases items.len(),
{
    if items.len() == 0 {
        0
    } else {
        status_count(items.drop_last(), s) + if items.last().status@ == s { 1nat } else { 0nat }
    }
}

/// The placement status counts of a list of placements.
pub open spec fn placement_counts_of_items(items: Seq<Placement>) -> PlacementStatusCounts {
    PlacementStatusCounts {
        proposed: status_count(items, "proposed"@) as u32,
        confirmed: status_count(items, "confirmed"@) as u32,
        moved_in: status_count(items, "moved_in"@) as u32,
        exited: status_count(items, "exited"@) as u32,
        cancelled: status_count(items, "cancelled"@) as u32,
    }
}

proof fn lemma_status_count_step(items: Seq<Placement>, i: int, s: Seq<char>)
    requires
        0 <= i < items.len(),
    ensures
        status_count(items.take(i + 1), s) == status_count(items.take(i), s) + if items[i].status@
            == s {
            1nat
        } else {
            0nat
        },
{
    assert(items.take(i + 1).drop_last() =~= items.take(i));
}

proof fn lemma_status_count_bound(items: Seq<Placement>, s: Seq<char>)
    ensures
        status_count(items, s) <= items.len(),
    decreases items.len(),
{
    if items.len() > 0 {
        lemma_status_count_bound(items.drop_last(), s);
    }
}

/// Counts a list of placements by status; unknown statuses are ignored.
pub fn placement_counts_of_list(items: &Vec<Placement>) -> (c: PlacementStatusCounts)
    requires
        items@.len() <= u32::MAX,
    ensures
        c == placement_counts_of_items(items@),
{
    let mut c = PlacementStatusCounts {
        proposed: 0,
        confirmed: 0,
        moved_in: 0,
        exited: 0,
        cancelled: 0,
    };
    let mut i: usize = 0;
    assert(items@.take(0) =~= Seq::<Placement>::empty());
    while i < items.len()
        invariant
            i <= items@.len() <= u32::MAX,
            c == placement_counts_of_items(items@.take(i as int)),
            status_count(items@.take(i as int), "proposed"@) <= i,
            status_count(items@.take(i as int), "confirmed"@) <= i,
            status_count(items@.take(i as int), "moved_in"@) <= i,
            status_count(items@.take(i as int), "exited"@) <= i,
            status_count(items@.take(i as int), "cancelled"@) <= i,
        decreases items.len() - i,
    {
        let k = items[i].status.as_str();
        proof {
            lemma_status_count_step(items@, i as int, "proposed"@);
            lemma_status_count_step(items@, i as int, "confirmed"@);
            lemma_status_count_step(items@, i as int, "moved_in"@);
            lemma_status_count_step(items@, i as int, "exited"@);
            lemma_status_count_step(items@, i as int, "cancelled"@);
        }
        if str_eq(k, "proposed") {
            c.proposed = c.proposed + 1;
        }
        if str_eq(k, "confirmed") {
            c.confirmed = c.confirmed + 1;
        }
        if str_eq(k, "moved_in") {
            c.moved_in = c.moved_in + 1;
        }
        if str_eq(k, "exited") {
            c.exited = c.exited + 1;
        }
        if str_eq(k, "cancelled") {
            c.cancelled = c.cancelled + 1;
        }
        i = i + 1;
    }
    assert(items@.take(items@.len() as int) =~= items@);
    c
}

/// How many todos are completed.
pub open spec fn completed_count(items: Seq<TodoItem>) -> nat
    decreases items.len(),
{
    if items.len() == 0 {
        0
    } else {
        completed_count(items.drop_last()) + if items.last().completed { 1nat } else { 0nat }
    }
}

/// Totals of a todo list: all items, open ones, completed ones.
pub fn todo_stats(items: &Vec<TodoItem>) -> (s: TodoStats)
    ensures
        s.total == items@.len(),
        s.completed == completed_count(items@),
        s.open == items@.len() - completed_count(items@),
{
    let mut done: usize = 0;
    let mut i: usize = 0;
    assert(items@.take(0) =~= Seq::<TodoItem>::empty());
    while i < items.len()
        invariant
            i <= items@.len(),
            done == completed_count(items@.take(i as int)),
            done <= i,
        decreases items.len() - i,
    {
        assert(items@.take(i + 1).drop_last() =~= items@.take(i as int));
        if items[i].completed {
            done = done + 1;
        }
        i = i + 1;
    }
    assert(items@.take(items@.len() as int) =~= items@);
    TodoStats { total: items.len(), open: items.len() - done, completed: done }
}

// ------- totals agree with the counters ------------------------------------------

/// The sum of the counts the rows give each of `keys`.
pub open spec fn keys_total(rows: Seq<GroupCountRow>, keys: Seq<Seq<char>>) -> int
    decreases keys.len(),
{
    if keys.len() == 0 {
        0
    } else {
        keys_total(rows, keys.drop_last()) + last_count(rows, keys.last())
    }
}

/// What a `GROUP BY` over a column with an allow-list returns: each key at
/// most once, and only keys of the list.
pub open spec fn grouped_over(rows: Seq<GroupCountRow>, keys: Seq<Seq<char>>) -> bool {
    &&& forall|i: int| 0 <= i < rows.len() ==> keys.contains(#[trigger] rows[i].key@)
    &&& forall|i: int, j: int|
        0 <= i < j < rows.len() ==> #[trigger] rows[i].key@ != #[trigger] rows[j].key@
    &&& keys.no_duplicates()
}

proof fn lemma_last_count_absent(rows: Seq<GroupCountRow>, key: Seq<char>)
    requires
        forall|i: int| 0 <= i < rows.len() ==> #[trigger] rows[i].key@ != key,
    ensures
        last_count(rows, key) == 0,
    decreases rows.len(),
{
    if rows.len() > 0 {
        assert(rows.last() == rows[rows.len() - 1]);
        lemma_last_count_absent(rows.drop_last(), key);
    }
}

proof fn lemma_keys_total_step(rows: Seq<GroupCountRow>, keys: Seq<Seq<char>>)
    requires
        rows.len() > 0,
        forall|i: int| 0 <= i < rows.len() - 1 ==> #[trigger] rows[i].key@ != rows.last().key@,
        keys.no_duplicates(),
    ensures
        keys_total(rows, keys) == keys_total(rows.drop_last(), keys) + if keys.contains(
            rows.last().key@,
        ) {
            rows.last().n as int
        } else {
            0int
        },
    decreases keys.len(),
{
    let last = rows.last();
    assert forall|i: int| 0 <= i < rows.drop_last().len() implies #[trigger] rows.drop_last()[i].key@ != last.key@ by {
        assert(rows.drop_last()[i] == rows[i]);
    }
    lemma_last_count_absent(rows.drop_last(), last.key@);
    if keys.len() > 0 {
        let ks = keys.drop_last();
        assert(ks.no_duplicates()) by {
            assert forall|i: int, j: int| 0 <= i < ks.len() && 0 <= j < ks.len() && i != j implies ks[i] != ks[j] by {
                assert(ks[i] == keys[i] && ks[j] == keys[j]);
            }
        }
        lemma_keys_total_step(rows, ks);
        if keys.last() == last.key@ {
            assert(!ks.contains(last.key@)) by {
                if ks.contains(last.key@) {
                    let i = choose|i: int| 0 <= i < ks.len() && ks[i] == last.key@;
                    assert(keys[i] == keys[keys.len() - 1]);
                }
            }
        }
        assert(keys.contains(last.key@) == (ks.contains(last.key@) || keys.last() == last.key@)) by {
            if keys.contains(last.key@) {
                let i = choose|i: int| 0 <= i < keys.len() && keys[i] == last.key@;
                if i < keys.len() - 1 {
                    assert(ks[i] == keys[i]);
                }
            }
            if ks.contains(last.key@) {
                let i = choose|i: int| 0 <= i < ks.len() && ks[i] == last.key@;
                assert(keys[i] == ks[i]);
            }
        }
    }
}

/// When the grouped rows cover only keys of the list, each once, the
/// counters add up to the sum of all the rows.
pub proof fn lemma_keys_total_is_sum(rows: Seq<GroupCountRow>, keys: Seq<Seq<char>>)
    requires
        grouped_over(rows, keys),
    ensures
        keys_total(rows, keys) == count_sum(rows),
    decreases rows.len(),
{
    if rows.len() == 0 {
        lemma_keys_total_empty(rows, keys);
    } else {
        let r = rows.drop_last();
        assert(grouped_over(r, keys)) by {
            assert forall|i: int| 0 <= i < r.len() implies keys.contains(#[trigger] r[i].key@) by {
                assert(r[i] == rows[i]);
            }
            assert forall|i: int, j: int| 0 <= i < j < r.len() implies #[trigger] r[i].key@ != #[trigger] r[j].key@ by {
                assert(r[i] == rows[i] && r[j] == rows[j]);
            }
        }
        lemma_keys_total_is_sum(r, keys);
        assert forall|i: int| 0 <= i < rows.len() - 1 implies #[trigger] rows[i].key@ != rows.last().key@ by {
            assert(rows.last() == rows[rows.len() - 1]);
        }
        lemma_keys_total_step(rows, keys);
        assert(keys.contains(rows[rows.len() - 1].key@));
    }
}

proof fn lemma_keys_total_empty(rows: Seq<GroupCountRow>, keys: Seq<Seq<char>>)
    requires
        rows.len() == 0,
    ensures
        keys_total(rows, keys) == 0,
    decreases keys.len(),
{
    if keys.len() > 0 {
        lemma_keys_total_empty(rows, keys.drop_last());
    }
}

/// The dashboard's household total is the sum of the stage counters,
/// whenever the grouped rows name each stage at most once and no other
/// key, and the sum fits.
pub proof fn lemma_household_total_adds_up(rows: Seq<GroupCountRow>)
    requires
        grouped_over(rows, stage_keys()),
        count_sum(rows) <= u32::MAX,
    ensures
        ({
            let c = stage_counts_of(rows);
            saturated_total(rows) == c.intake + c.assessment + c.placement + c.follow_up + c.exited
        }),
{
    lemma_keys_total_is_sum(rows, stage_keys());
    reveal_with_fuel(keys_total, 6);
    let k = stage_keys();
    assert(k.drop_last().drop_last().drop_last().drop_last().drop_last() =~= Seq::<Seq<char>>::empty());
}

/// The dashboard's inventory total is the sum of the status counters,
/// under the same conditions.
pub proof fn lemma_resource_total_adds_up(rows: Seq<GroupCountRow>)
    requires
        grouped_over(rows, resource_status_keys()),
        count_sum(rows) <= u32::MAX,
    ensures
        ({
            let c = resource_counts_of(rows);
            saturated_total(rows) == c.available + c.held + c.occupied + c.offline
        }),
{
    lemma_keys_total_is_sum(rows, resource_status_keys());
    reveal_with_fuel(keys_total, 5);
    let k = resource_status_keys();
    assert(k.drop_last().drop_last().drop_last().drop_last() =~= Seq::<Seq<char>>::empty());
}

/// The dashboard's placement total is the sum of the status counters,
/// under the same conditions.
pub proof fn lemma_placement_total_adds_up(rows: Seq<GroupCountRow>)
    requires
        grouped_over(rows, placement_status_keys()),
        count_sum(rows) <= u32::MAX,
    ensures
        ({
            let c = placement_counts_of(rows);
            saturated_total(rows) == c.proposed + c.confirmed + c.moved_in + c.exited + c.cancelled
        }),
{
    lemma_keys_total_is_sum(rows, placement_status_keys());
    reveal_with_fuel(keys_total, 6);
    let k = placement_status_keys();
    assert(k.drop_last().drop_last().drop_last().drop_last().drop_last() =~= Seq::<Seq<char>>::empty());
}

/// Every todo is either open or completed: the completed ones never
/// outnumber the list, so open plus completed is the total.
pub proof fn lemma_todo_stats_partition(items: Seq<TodoItem>)
    ensures
        completed_count(items) <= items.len(),
        (items.len() - completed_count(items)) + completed_count(items) == items.len(),
    decreases items.len(),
{
    if items.len() > 0 {
        lemma_todo_stats_partition(items.drop_last());
    }
}

/// The count a key takes is that of the last row carrying the key.
proof fn lemma_last_count_of(rows: Seq<GroupCountRow>, i: int, key: Seq<char>)
    requires
        0 <= i < rows.len(),
        forall|j: int| i < j < rows.len() ==> #[trigger] rows[j].key@ != rows[i].key@,
    ensures
        rows[i].key@ == key ==> last_count(rows, key) == rows[i].n,
    decreases rows.len(),
{
    if rows[i].key@ == key && i < rows.len() - 1 {
        assert(rows.last() == rows[rows.len() - 1]);
        let r = rows.drop_last();
        assert forall|j: int| i < j < r.len() implies #[trigger] r[j].key@ != r[i].key@ by {
            assert(r[j] == rows[j] && r[i] == rows[i]);
        }
        lemma_last_count_of(r, i, key);
        assert(r[i] == rows[i]);
    }
}

/// A key that no row carries counts 0.
proof fn lemma_no_row_counts_zero(rows: Seq<GroupCountRow>, key: Seq<char>)
    ensures
        (forall|j: int| 0 <= j < rows.len() ==> #[trigger] rows[j].key@ != key) ==> last_count(
            rows,
            key,
        ) == 0,
{
    if forall|j: int| 0 <= j < rows.len() ==> #[trigger] rows[j].key@ != key {
        lemma_last_count_absent(rows, key);
    }
}

/// Each household stage counter is the count of the row carrying that
/// stage's own key (the last such row, should one repeat), and 0 when no row
/// carries it.
pub proof fn lemma_stage_counters_take_their_own_key(rows: Seq<GroupCountRow>, i: int)
    requires
        0 <= i < rows.len(),
        forall|j: int| i < j < rows.len() ==> #[trigger] rows[j].key@ != rows[i].key@,
    ensures
        rows[i].key@ == "intake"@ ==> stage_counts_of(rows).intake == rows[i].n,
        rows[i].key@ == "assessment"@ ==> stage_counts_of(rows).assessment == rows[i].n,
        rows[i].key@ == "placement"@ ==> stage_counts_of(rows).placement == rows[i].n,
        rows[i].key@ == "follow_up"@ ==> stage_counts_of(rows).follow_up == rows[i].n,
        rows[i].key@ == "exited"@ ==> stage_counts_of(rows).exited == rows[i].n,
        (forall|j: int| 0 <= j < rows.len() ==> #[trigger] rows[j].key@ != "intake"@) ==> stage_counts_of(rows).intake == 0,
        (forall|j: int| 0 <= j < rows.len() ==> #[trigger] rows[j].key@ != "assessment"@) ==> stage_counts_of(rows).assessment == 0,
        (forall|j: int| 0 <= j < rows.len() ==> #[trigger] rows[j].key@ != "placement"@) ==> stage_counts_of(rows).placement == 0,
        (forall|j: int| 0 <= j < rows.len() ==> #[trigger] rows[j].key@ != "follow_up"@) ==> stage_counts_of(rows).follow_up == 0,
        (forall|j: int| 0 <= j < rows.len() ==> #[trigger] rows[j].key@ != "exited"@) ==> stage_counts_of(rows).exited == 0,
{
    lemma_last_count_of(rows, i, "intake"@);
    lemma_last_count_of(rows, i, "assessment"@);
    lemma_last_count_of(rows, i, "placement"@);
    lemma_last_count_of(rows, i, "follow_up"@);
    lemma_last_count_of(rows, i, "exited"@);
    lemma_no_row_counts_zero(rows, "intake"@);
    lemma_no_row_counts_zero(rows, "assessment"@);
    lemma_no_row_counts_zero(rows, "placement"@);
    lemma_no_row_counts_zero(rows, "follow_up"@);
    lemma_no_row_counts_zero(rows, "exited"@);
}

/// Each resource status counter is the count of the row carrying that
/// status's own key (the last such row, should one repeat), and 0 when no
/// row carries it.
pub proof fn lemma_resource_counters_take_their_own_key(rows: Seq<GroupCountRow>, i: int)
    requires
        0 <= i < rows.len(),
        forall|j: int| i < j < rows.len() ==> #[trigger] rows[j].key@ != rows[i].key@,
    ensures
        rows[i].key@ == "available"@ ==> resource_counts_of(rows).available == rows[i].n,
        rows[i].key@ == "held"@ ==> resource_counts_of(rows).held == rows[i].n,
        rows[i].key@ == "occupied"@ ==> resource_counts_of(rows).occupied == rows[i].n,
        rows[i].key@ == "offline"@ ==> resource_counts_of(rows).offline == rows[i].n,
        (forall|j: int| 0 <= j < rows.len() ==> #[trigger] rows[j].key@ != "available"@) ==> resource_counts_of(rows).available == 0,
        (forall|j: int| 0 <= j < rows.len() ==> #[trigger] rows[j].key@ != "held"@) ==> resource_counts_of(rows).held == 0,
        (forall|j: int| 0 <= j < rows.len() ==> #[trigger] rows[j].key@ != "occupied"@) ==> resource_counts_of(rows).occupied == 0,
        (forall|j: int| 0 <= j < rows.len() ==> #[trigger] rows[j].key@ != "offline"@) ==> resource_counts_of(rows).offline == 0,
{
    lemma_last_count_of(rows, i, "available"@);
    lemma_last_count_of(rows, i, "held"@);
    lemma_last_count_of(rows, i, "occupied"@);
    lemma_last_count_of(rows, i, "offline"@);
    lemma_no_row_counts_zero(rows, "available"@);
    lemma_no_row_counts_zero(rows, "held"@);
    lemma_no_row_counts_zero(rows, "occupied"@);
    lemma_no_row_counts_zero(rows, "offline"@);
}

/// Each placement status counter is the count of the row carrying that
/// status's own key (the last such row, should one repeat), and 0 when no
/// row carries it.
pub proof fn lemma_placement_counters_take_their_own_key(rows: Seq<GroupCountRow>, i: int)
    requires
        0 <= i < rows.len(),
        forall|j: int| i < j < rows.len() ==> #[trigger] rows[j].key@ != rows[i].key@,
    ensures
        rows[i].key@ == "proposed"@ ==> placement_counts_of(rows).proposed == rows[i].n,
        rows[i].key@ == "confirmed"@ ==> placement_counts_of(rows).confirmed == rows[i].n,
        rows[i].key@ == "moved_in"@ ==> placement_counts_of(rows).moved_in == rows[i].n,
        rows[i].key@ == "exited"@ ==> placement_counts_of(rows).exited == rows[i].n,
        rows[i].key@ == "cancelled"@ ==> placement_counts_of(rows).cancelled == rows[i].n,
        (forall|j: int| 0 <= j < rows.len() ==> #[trigger] rows[j].key@ != "proposed"@) ==> placement_counts_of(rows).proposed == 0,
        (forall|j: int| 0 <= j < rows.len() ==> #[trigger] rows[j].key@ != "confirmed"@) ==> placement_counts_of(rows).confirmed == 0,
        (forall|j: int| 0 <= j < rows.len() ==> #[trigger] rows[j].key@ != "moved_in"@) ==> placement_counts_of(rows).moved_in == 0,
        (forall|j: int| 0 <= j < rows.len() ==> #[trigger] rows[j].key@ != "exited"@) ==> placement_counts_of(rows).exited == 0,
        (forall|j: int| 0 <= j < rows.len() ==> #[trigger] rows[j].key@ != "cancelled"@) ==> placement_counts_of(rows).cancelled == 0,
{
    lemma_last_count_of(rows, i, "proposed"@);
    lemma_last_count_of(rows, i, "confirmed"@);
    lemma_last_count_of(rows, i, "moved_in"@);
    lemma_last_count_of(rows, i, "exited"@);
    lemma_last_count_of(rows, i, "cancelled"@);
    lemma_no_row_counts_zero(rows, "proposed"@);
    lemma_no_row_counts_zero(rows, "confirmed"@);
    lemma_no_row_counts_zero(rows, "moved_in"@);
    lemma_no_row_counts_zero(rows, "exited"@);
    lemma_no_row_counts_zero(rows, "cancelled"@);
}

} // verus!
