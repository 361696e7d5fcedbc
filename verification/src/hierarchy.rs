//! The hierarchy inferencer: missing month bounds from child records.
//!
//! A task record may omit its begin or end month. The effective bound then
//! comes from its child records, those whose `parent` field holds the
//! task's id: the minimum begin month among them (a child without one
//! counts as 29), or the maximum end month (a child without one counts as
//! 0). A task with no
//! children falls back to begin month 29 and end month 0. Each task is
//! evaluated independently against the full input list.

use vstd::prelude::*;
use crate::datetime::MAX_MONTH_OFFSET;
use crate::records::{TaskRecord, TaskRecordView};

verus! {

/// The month value of an optional bound, with `d` for an absent one.
pub open spec fn month_or(m: Option<int>, d: int) -> int {
    match m {
        Some(v) => v,
        None => d,
    }
}

/// The minimum begin month among the records whose parent is `parent_id`,
/// a record without a begin month counting as 29; 29 when no such record
/// exists.
pub open spec fn min_child_begin(tasks: Seq<TaskRecordView>, parent_id: int) -> int
    decreases tasks.len(),
{
    if tasks.len() == 0 {
        29
    } else {
        let prev = min_child_begin(tasks.drop_last(), parent_id);
        let t = tasks.last();
        if t.parent == Some(parent_id) && month_or(t.begin_month, 29) < prev {
            month_or(t.begin_month, 29)
        } else {
            prev
        }
    }
}

/// The maximum end month among the records whose parent is `parent_id`,
/// a record without an end month counting as 0; 0 when no such record
/// exists.
pub open spec fn max_child_end(tasks: Seq<TaskRecordView>, parent_id: int) -> int
    decreases tasks.len(),
{
    if tasks.len() == 0 {
        0
    } else {
        let prev = max_child_end(tasks.drop_last(), parent_id);
        let t = tasks.last();
        if t.parent == Some(parent_id) && month_or(t.end_month, 0) > prev {
            month_or(t.end_month, 0)
        } else {
            prev
        }
    }
}

/// The start bound of task `i` as a month offset from the project start:
/// its explicit begin month less one, or the inferred child minimum less
/// one.
pub open spec fn begin_offset_months(tasks: Seq<TaskRecordView>, i: int) -> int {
    match tasks[i].begin_month {
        Some(b) => b - 1,
        None => min_child_begin(tasks, tasks[i].id) - 1,
    }
}

/// The finish bound of task `i` as a month offset from the project start:
/// its explicit end month, or the inferred child maximum.
pub open spec fn end_offset_months(tasks: Seq<TaskRecordView>, i: int) -> int {
    match tasks[i].end_month {
        Some(e) => e,
        None => max_child_end(tasks, tasks[i].id),
    }
}

/// The month bounds a single record must respect: an explicit begin month
/// is at least 1 (the offset subtracts one from it) and every explicit
/// month is small enough for the date arithmetic.
pub open spec fn month_bounds_ok(t: TaskRecordView) -> bool {
    &&& (t.begin_month matches Some(b) ==> 1 <= b <= MAX_MONTH_OFFSET as int)
    &&& (t.end_month matches Some(e) ==> 0 <= e <= MAX_MONTH_OFFSET as int)
}

/// Every record of the batch respects the month bounds.
pub open spec fn months_wf(tasks: Seq<TaskRecordView>) -> bool {
    forall|i: int| 0 <= i < tasks.len() ==> month_bounds_ok(#[trigger] tasks[i])
}

/// The inferred begin month lies between 1 and 29 on a well-bounded batch.
pub proof fn lemma_min_child_begin_bounds(tasks: Seq<TaskRecordView>, parent_id: int)
    requires
        months_wf(tasks),
    ensures
        1 <= min_child_begin(tasks, parent_id) <= 29,
    decreases tasks.len(),
{
    if tasks.len() > 0 {
        assert(months_wf(tasks.drop_last())) by {
            assert(forall|i: int|
                0 <= i < tasks.drop_last().len() ==> tasks.drop_last()[i] == tasks[i]);
        }
        lemma_min_child_begin_bounds(tasks.drop_last(), parent_id);
        assert(month_bounds_ok(tasks.last()));
    }
}

/// The inferred end month lies between 0 and the month-offset cap on a
/// well-bounded batch.
pub proof fn lemma_max_child_end_bounds(tasks: Seq<TaskRecordView>, parent_id: int)
    requires
        months_wf(tasks),
    ensures
        0 <= max_child_end(tasks, parent_id) <= MAX_MONTH_OFFSET as int,
    decreases tasks.len(),
{
    if tasks.len() > 0 {
        assert(months_wf(tasks.drop_last())) by {
            assert(forall|i: int|
                0 <= i < tasks.drop_last().len() ==> tasks.drop_last()[i] == tasks[i]);
        }
        lemma_max_child_end_bounds(tasks.drop_last(), parent_id);
        assert(month_bounds_ok(tasks.last()));
    }
}

/// The inferred begin month is the minimum over the children: it is a lower
/// bound of every child's begin month, and it is 29 or attained by a child.
pub proof fn lemma_min_child_begin_correct(tasks: Seq<TaskRecordView>, parent_id: int)
    ensures
        min_child_begin(tasks, parent_id) <= 29,
        forall|j: int|
            0 <= j < tasks.len() && (#[trigger] tasks[j]).parent == Some(parent_id)
                ==> min_child_begin(tasks, parent_id) <= month_or(tasks[j].begin_month, 29),
        min_child_begin(tasks, parent_id) == 29 || exists|j: int|
            0 <= j < tasks.len() && (#[trigger] tasks[j]).parent == Some(parent_id)
                && month_or(tasks[j].begin_month, 29) == min_child_begin(tasks, parent_id),
    decreases tasks.len(),
{
    if tasks.len() > 0 {
        lemma_min_child_begin_correct(tasks.drop_last(), parent_id);
        assert(forall|i: int|
            0 <= i < tasks.drop_last().len() ==> tasks.drop_last()[i] == tasks[i]);
        let m = min_child_begin(tasks, parent_id);
        if m != 29 {
            let prev = min_child_begin(tasks.drop_last(), parent_id);
            if tasks.last().parent == Some(parent_id) && month_or(
                tasks.last().begin_month,
                29,
            ) < prev {
                assert(tasks[tasks.len() - 1].parent == Some(parent_id) && month_or(
                    tasks[tasks.len() - 1].begin_month,
                    29,
                ) == m);
            }
        }
    }
}

/// The inferred end month is the maximum over the children: it is an upper
/// bound of every child's end month, and it is 0 or attained by a child.
pub proof fn lemma_max_child_end_correct(tasks: Seq<TaskRecordView>, parent_id: int)
    ensures
        max_child_end(tasks, parent_id) >= 0,
        forall|j: int|
            0 <= j < tasks.len() && (#[trigger] tasks[j]).parent == Some(parent_id)
                ==> max_child_end(tasks, parent_id) >= month_or(tasks[j].end_month, 0),
        max_child_end(tasks, parent_id) == 0 || exists|j: int|
            0 <= j < tasks.len() && (#[trigger] tasks[j]).parent == Some(parent_id)
                && month_or(tasks[j].end_month, 0) == max_child_end(tasks, parent_id),
    decreases tasks.len(),
{
    if tasks.len() > 0 {
        lemma_max_child_end_correct(tasks.drop_last(), parent_id);
        assert(forall|i: int|
            0 <= i < tasks.drop_last().len() ==> tasks.drop_last()[i] == tasks[i]);
        let m = max_child_end(tasks, parent_id);
        if m != 0 {
            let prev = max_child_end(tasks.drop_last(), parent_id);
            if tasks.last().parent == Some(parent_id) && month_or(tasks.last().end_month, 0)
                > prev {
                assert(tasks[tasks.len() - 1].parent == Some(parent_id) && month_or(
                    tasks[tasks.len() - 1].end_month,
                    0,
                ) == m);
            }
        }
    }
}

/// A task that no record names as its parent and that carries no explicit
/// months falls back to a start offset of 28 months (begin month 29) and a
/// finish offset of 0 months.
pub proof fn lemma_default_fallback(tasks: Seq<TaskRecordView>, i: int)
    requires
        0 <= i < tasks.len(),
        tasks[i].begin_month is None,
        tasks[i].end_month is None,
        forall|j: int| 0 <= j < tasks.len() ==> (#[trigger] tasks[j]).parent != Some(tasks[i].id),
    ensures
        begin_offset_months(tasks, i) == 28,
        end_offset_months(tasks, i) == 0,
{
    lemma_no_child_defaults(tasks, tasks[i].id);
}

/// With no record naming `parent_id` as its parent, the child scan returns
/// its defaults.
proof fn lemma_no_child_defaults(tasks: Seq<TaskRecordView>, parent_id: int)
    requires
        forall|j: int| 0 <= j < tasks.len() ==> (#[trigger] tasks[j]).parent != Some(parent_id),
    ensures
        min_child_begin(tasks, parent_id) == 29,
        max_child_end(tasks, parent_id) == 0,
    decreases tasks.len(),
{
    if tasks.len() > 0 {
        assert(forall|i: int|
            0 <= i < tasks.drop_last().len() ==> tasks.drop_last()[i] == tasks[i]);
        lemma_no_child_defaults(tasks.drop_last(), parent_id);
        assert(tasks.last() == tasks[tasks.len() - 1]);
    }
}

/// The minimum begin month among the records whose parent is `parent_id`.
pub fn infer_begin_month(tasks: &Vec<TaskRecord>, parent_id: u32) -> (r: u32)
    ensures
        r as int == min_child_begin(tasks.deep_view(), parent_id as int),
{
    let mut m: u32 = 29;
    let mut i: usize = 0;
    proof {
        assert(tasks.deep_view().take(0) =~= Seq::<TaskRecordView>::empty());
    }
    while i < tasks.len()
        invariant
            i <= tasks@.len(),
            m as int == min_child_begin(tasks.deep_view().take(i as int), parent_id as int),
        decreases tasks@.len() - i,
    {
        proof {
            assert(tasks.deep_view().take(i as int + 1).drop_last() =~= tasks.deep_view().take(
                i as int,
            ));
            assert(tasks.deep_view().take(i as int + 1).last() == tasks@[i as int]@);
        }
        let t = &tasks[i];
        if let Some(p) = t.parent {
            if p == parent_id {
                let b = match t.begin_month {
                    Some(b) => b,
                    None => 29,
                };
                if b < m {
                    m = b;
                }
            }
        }
        i = i + 1;
    }
    proof {
        assert(tasks.deep_view().take(tasks@.len() as int) =~= tasks.deep_view());
    }
    m
}

/// The maximum end month among the records whose parent is `parent_id`.
pub fn infer_end_month(tasks: &Vec<TaskRecord>, parent_id: u32) -> (r: u32)
    ensures
        r as int == max_child_end(tasks.deep_view(), parent_id as int),
{
    let mut m: u32 = 0;
    let mut i: usize = 0;
    proof {
        assert(tasks.deep_view().take(0) =~= Seq::<TaskRecordView>::empty());
    }
    while i < tasks.len()
        invariant
            i <= tasks@.len(),
            m as int == max_child_end(tasks.deep_view().take(i as int), parent_id as int),
        decreases tasks@.len() - i,
    {
        proof {
            assert(tasks.deep_view().take(i as int + 1).drop_last() =~= tasks.deep_view().take(
                i as int,
            ));
            assert(tasks.deep_view().take(i as int + 1).last() == tasks@[i as int]@);
        }
        let t = &tasks[i];
        if let Some(p) = t.parent {
            if p == parent_id {
                let e = match t.end_month {
                    Some(e) => e,
                    None => 0,
                };
                if e > m {
                    m = e;
                }
            }
        }
        i = i + 1;
    }
    proof {
        assert(tasks.deep_view().take(tasks@.len() as int) =~= tasks.deep_view());
    }
    m
}

} // verus!
