//! The guarantees the pool's operations give together, stated and proved
//! over the transition relations that the operations' own contracts use.

use vstd::prelude::*;

use crate::task::{
    claim_step, distinct_ids, is_first_init, lemma_first_init_unique, no_init, Task, TaskState,
};
use crate::pool::{owned_running, report_step, select_tasks, selected};

verus! {

/// Two successive claims never hand out the same task: the first claim
/// moves it out of `Init`, so the second must pick a different record.
pub proof fn lemma_at_most_one_claim(
    s0: Seq<Task>,
    s1: Seq<Task>,
    s2: Seq<Task>,
    t1: Task,
    t2: Task,
    w1: Seq<char>,
    w2: Seq<char>,
)
    requires
        distinct_ids(s0),
        claim_step(s0, s1, t1, w1),
        claim_step(s1, s2, t2, w2),
    ensures
        t1.id@ != t2.id@,
{
    let i = choose|i: int|
        {
            &&& #[trigger] is_first_init(s0, i)
            &&& s1.len() == s0.len()
            &&& crate::task::claim_rel(s0[i], s1[i], w1)
            &&& t1 == s1[i]
            &&& forall|j: int| 0 <= j < s0.len() && j != i ==> s1[j] == s0[j]
        };
    let k = choose|k: int|
        {
            &&& #[trigger] is_first_init(s1, k)
            &&& s2.len() == s1.len()
            &&& crate::task::claim_rel(s1[k], s2[k], w2)
            &&& t2 == s2[k]
            &&& forall|j: int| 0 <= j < s1.len() && j != k ==> s2[j] == s1[j]
        };
    assert(s1[i].state == TaskState::Running);
    assert(k != i);
    assert(s1[k] == s0[k]);
    if i < k {
        assert(s0[i].id@ != s0[k].id@);
    } else {
        assert(s0[k].id@ != s0[i].id@);
    }
}

/// As long as any task is still in `Init`, there is an oldest one: a claim
/// can only answer "no task available" on a queue with nothing claimable.
pub proof fn lemma_first_init_exists(s: Seq<Task>)
    requires
        !no_init(s),
    ensures
        exists|i: int| is_first_init(s, i),
    decreases s.len(),
{
    let k = choose|k: int| 0 <= k < s.len() && s[k].state == TaskState::Init;
    if s[0].state == TaskState::Init {
        assert(is_first_init(s, 0));
    } else {
        let rest = s.subrange(1, s.len() as int);
        assert(rest[k - 1].state == TaskState::Init);
        assert(!no_init(rest));
        lemma_first_init_exists(rest);
        let i = choose|i: int| is_first_init(rest, i);
        assert forall|j: int| 0 <= j < i + 1 implies (#[trigger] s[j]).state != TaskState::Init by {
            if j > 0 {
                assert(rest[j - 1] == s[j]);
            }
        }
        assert(s[i + 1] == rest[i]);
        assert(is_first_init(s, i + 1));
    }
}

/// FIFO fairness: a claim returns the oldest `Init` task, never a younger
/// one.
pub proof fn lemma_fifo_fairness(
    s0: Seq<Task>,
    s1: Seq<Task>,
    t: Task,
    w: Seq<char>,
    i: int,
    j: int,
)
    requires
        distinct_ids(s0),
        claim_step(s0, s1, t, w),
        is_first_init(s0, i),
        i < j < s0.len(),
    ensures
        t.id@ == s0[i].id@,
        t.id@ != s0[j].id@,
{
    let k = choose|k: int|
        {
            &&& #[trigger] is_first_init(s0, k)
            &&& s1.len() == s0.len()
            &&& crate::task::claim_rel(s0[k], s1[k], w)
            &&& t == s1[k]
            &&& forall|m: int| 0 <= m < s0.len() && m != k ==> s1[m] == s0[m]
        };
    lemma_first_init_unique(s0, i, k);
    assert(s0[i].id@ != s0[j].id@);
}

/// Terminal immutability: no report transition leaves a task that already
/// reached `Completed` or `Error`. Together with the report operations'
/// contracts (failure leaves the pool untouched), a stored result can never
/// change.
pub proof fn lemma_terminal_immutable(
    s0: Seq<Task>,
    s1: Seq<Task>,
    tid: Seq<char>,
    w: Seq<char>,
    st: TaskState,
    payload: Seq<char>,
    i: int,
)
    requires
        distinct_ids(s0),
        0 <= i < s0.len(),
        s0[i].id@ == tid,
        s0[i].state == TaskState::Completed || s0[i].state == TaskState::Error,
    ensures
        !report_step(s0, s1, tid, w, st, payload),
{
    if report_step(s0, s1, tid, w, st, payload) {
        let k = choose|k: int|
            {
                &&& 0 <= k < s0.len()
                &&& (#[trigger] s0[k]).id@ == tid
                &&& s0[k].state == TaskState::Running
                &&& s0[k].worker_id@ == w
                &&& s1.len() == s0.len()
                &&& crate::task::report_rel(s0[k], s1[k], st, payload)
                &&& forall|j: int| 0 <= j < s0.len() && j != k ==> s1[j] == s0[j]
            };
        if k < i {
            assert(s0[k].id@ != s0[i].id@);
        } else if i < k {
            assert(s0[i].id@ != s0[k].id@);
        }
    }
}

/// Ownership check: a worker other than the one holding the claim cannot
/// report on the task.
pub proof fn lemma_ownership_check(
    s0: Seq<Task>,
    s1: Seq<Task>,
    tid: Seq<char>,
    wa: Seq<char>,
    wb: Seq<char>,
    st: TaskState,
    payload: Seq<char>,
    i: int,
)
    requires
        distinct_ids(s0),
        0 <= i < s0.len(),
        s0[i].id@ == tid,
        s0[i].state == TaskState::Running,
        s0[i].worker_id@ == wa,
        wa != wb,
    ensures
        !report_step(s0, s1, tid, wb, st, payload),
{
    if report_step(s0, s1, tid, wb, st, payload) {
        let k = choose|k: int|
            {
                &&& 0 <= k < s0.len()
                &&& (#[trigger] s0[k]).id@ == tid
                &&& s0[k].state == TaskState::Running
                &&& s0[k].worker_id@ == wb
                &&& s1.len() == s0.len()
                &&& crate::task::report_rel(s0[k], s1[k], st, payload)
                &&& forall|j: int| 0 <= j < s0.len() && j != k ==> s1[j] == s0[j]
            };
        if k < i {
            assert(s0[k].id@ != s0[i].id@);
        } else if i < k {
            assert(s0[i].id@ != s0[k].id@);
        }
    }
}

/// At most one of two reports against the same task can go through: the
/// first one leaves the task terminal, so no report transition is left for
/// the second, whoever sends it and whatever it carries.
pub proof fn lemma_at_most_one_report(
    s0: Seq<Task>,
    s1: Seq<Task>,
    s2: Seq<Task>,
    tid: Seq<char>,
    w1: Seq<char>,
    w2: Seq<char>,
    st1: TaskState,
    st2: TaskState,
    p1: Seq<char>,
    p2: Seq<char>,
)
    requires
        distinct_ids(s0),
        report_step(s0, s1, tid, w1, st1, p1),
        st1 == TaskState::Completed || st1 == TaskState::Error,
    ensures
        !report_step(s1, s2, tid, w2, st2, p2),
{
    let k = choose|k: int|
        {
            &&& 0 <= k < s0.len()
            &&& (#[trigger] s0[k]).id@ == tid
            &&& s0[k].state == TaskState::Running
            &&& s0[k].worker_id@ == w1
            &&& s1.len() == s0.len()
            &&& crate::task::report_rel(s0[k], s1[k], st1, p1)
            &&& forall|j: int| 0 <= j < s0.len() && j != k ==> s1[j] == s0[j]
        };
    if report_step(s1, s2, tid, w2, st2, p2) {
        let m = choose|m: int|
            {
                &&& 0 <= m < s1.len()
                &&& (#[trigger] s1[m]).id@ == tid
                &&& s1[m].state == TaskState::Running
                &&& s1[m].worker_id@ == w2
                &&& s2.len() == s1.len()
                &&& crate::task::report_rel(s1[m], s2[m], st2, p2)
                &&& forall|j: int| 0 <= j < s1.len() && j != m ==> s2[j] == s1[j]
            };
        if m == k {
            assert(s1[k].state == st1);
        } else {
            assert(s1[m] == s0[m]);
            if m < k {
                assert(s0[m].id@ != s0[k].id@);
            } else {
                assert(s0[k].id@ != s0[m].id@);
            }
        }
    }
}

/// A task that is `Running` under worker `w` appears in that worker's
/// uncompleted list.
pub proof fn lemma_owned_running_contains(s: Seq<Task>, w: Seq<char>, i: int)
    requires
        0 <= i < s.len(),
        s[i].state == TaskState::Running,
        s[i].worker_id@ == w,
    ensures
        owned_running(s, w).contains(s[i]),
    decreases s.len(),
{
    if i == s.len() - 1 {
        assert(s.last() == s[i]);
        assert(owned_running(s, w).last() == s[i]);
    } else {
        lemma_owned_running_contains(s.drop_last(), w, i);
        assert(s.drop_last()[i] == s[i]);
        let pre = owned_running(s.drop_last(), w);
        let m = choose|m: int| 0 <= m < pre.len() && pre[m] == s[i];
        assert(owned_running(s, w)[m] == s[i]);
    }
}

/// Everything in a worker's uncompleted list really is one of the stored
/// tasks, is `Running`, and is owned by that worker.
pub proof fn lemma_owned_running_sound(s: Seq<Task>, w: Seq<char>, k: int)
    requires
        0 <= k < owned_running(s, w).len(),
    ensures
        owned_running(s, w)[k].state == TaskState::Running,
        owned_running(s, w)[k].worker_id@ == w,
        s.contains(owned_running(s, w)[k]),
    decreases s.len(),
{
    let r = owned_running(s, w);
    let pre = owned_running(s.drop_last(), w);
    if k < pre.len() {
        lemma_owned_running_sound(s.drop_last(), w, k);
        let i = choose|i: int| 0 <= i < s.drop_last().len() && s.drop_last()[i] == pre[k];
        assert(s[i] == r[k]);
    } else {
        assert(r[k] == s.last());
        assert(s[s.len() - 1] == r[k]);
    }
}

/// Everything a filtered read returns really is one of the stored tasks
/// and passes both filters.
pub proof fn lemma_select_tasks_sound(
    s: Seq<Task>,
    w: Option<Seq<char>>,
    sts: Option<Seq<TaskState>>,
    k: int,
)
    requires
        0 <= k < select_tasks(s, w, sts).len(),
    ensures
        selected(select_tasks(s, w, sts)[k], w, sts),
        s.contains(select_tasks(s, w, sts)[k]),
    decreases s.len(),
{
    let r = select_tasks(s, w, sts);
    let pre = select_tasks(s.drop_last(), w, sts);
    if k < pre.len() {
        lemma_select_tasks_sound(s.drop_last(), w, sts, k);
        let i = choose|i: int| 0 <= i < s.drop_last().len() && s.drop_last()[i] == pre[k];
        assert(s[i] == r[k]);
    } else {
        assert(r[k] == s.last());
        assert(s[s.len() - 1] == r[k]);
    }
}

/// Recovery: right after a worker claims a task, the claimed record stands
/// in that worker's uncompleted list, so a restarted worker that kept its
/// identity finds its in-flight work again.
pub proof fn lemma_recovery(s0: Seq<Task>, s1: Seq<Task>, t: Task, w: Seq<char>)
    requires
        claim_step(s0, s1, t, w),
    ensures
        owned_running(s1, w).contains(t),
{
    let i = choose|i: int|
        {
            &&& #[trigger] is_first_init(s0, i)
            &&& s1.len() == s0.len()
            &&& crate::task::claim_rel(s0[i], s1[i], w)
            &&& t == s1[i]
            &&& forall|j: int| 0 <= j < s0.len() && j != i ==> s1[j] == s0[j]
        };
    lemma_owned_running_contains(s1, w, i);
}

} // verus!
