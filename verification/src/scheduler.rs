//! The decisions of a task scheduler.
//!
//! A task either runs once at a given time or repeats at a fixed cadence.
//! Times are counted in nanoseconds from the scheduler's own epoch; the
//! caller measures the clock, sleeps, runs what `poll` hands back, and
//! supplies each task's id from a counter that never repeats a value.

use vstd::prelude::*;

verus! {

/// How long the loop waits when no task is scheduled: ten milliseconds.
pub const IDLE_WAIT_NANOS: u64 = 10_000_000;

/// Names one scheduled task.
pub struct Handle {
    id: u64,
}

impl View for Handle {
    type V = u64;

    closed spec fn view(&self) -> u64 {
        self.id
    }
}

/// When a task runs: once at the given time, or repeatedly, every given
/// number of nanoseconds, starting one period after it is scheduled.
#[derive(Debug, Clone, Copy, PartialEq, Eq, Structural)]
pub enum Schedule {
    Once(u64),
    Repeating(u64),
}

/// One task: what to run, its period if it repeats, and when it is next due.
pub struct Task<R> {
    pub handle: Handle,
    pub runnable: R,
    pub cadence: Option<u64>,
    pub due_at: u64,
}

/// When a task scheduled at `now` first falls due.
pub open spec fn first_due(schedule: Schedule, now: u64) -> int {
    match schedule {
        Schedule::Once(at) => at as int,
        Schedule::Repeating(cadence) => now + cadence,
    }
}

/// The period a task keeps, if it repeats.
pub open spec fn cadence_of(schedule: Schedule) -> Option<u64> {
    match schedule {
        Schedule::Once(_) => None,
        Schedule::Repeating(cadence) => Some(cadence),
    }
}

/// Whether `schedule` takes a task with the id `id` at time `now`: the id
/// must be unused in the queue and the first due time must be on the clock.
pub open spec fn accepts<R>(tasks: Seq<Task<R>>, schedule: Schedule, now: u64, id: u64) -> bool {
    &&& !has_task(tasks, id)
    &&& first_due(schedule, now) <= u64::MAX
}

/// A repeating task after a run: due one period after the time it was due,
/// so that late runs do not shift the later ones.
pub open spec fn advanced<R>(t: Task<R>) -> Task<R> {
    Task {
        handle: t.handle,
        runnable: t.runnable,
        cadence: t.cadence,
        due_at: (t.due_at + t.cadence->Some_0) as u64,
    }
}

/// The tasks after the task at `k` has run: a repeating task is moved on by
/// one period, a one-off task is gone.
pub open spec fn after_run<R>(tasks: Seq<Task<R>>, k: int) -> Seq<Task<R>> {
    match tasks[k].cadence {
        Some(_) => tasks.remove(k).push(advanced(tasks[k])),
        None => tasks.remove(k),
    }
}

/// No two tasks share an id, and no repeating task has a zero period.
pub open spec fn well_formed<R>(tasks: Seq<Task<R>>) -> bool {
    &&& ids_distinct(tasks)
    &&& forall|i: int| 0 <= i < tasks.len() ==> (#[trigger] tasks[i].cadence matches Some(c) ==> c > 0)
}

/// No two tasks share an id.
pub open spec fn ids_distinct<R>(tasks: Seq<Task<R>>) -> bool {
    forall|i: int, j: int|
        0 <= i < tasks.len() && 0 <= j < tasks.len() && i != j ==> #[trigger] tasks[i].handle@
            != #[trigger] tasks[j].handle@
}

/// Some task carries the id `id`.
pub open spec fn has_task<R>(tasks: Seq<Task<R>>, id: u64) -> bool {
    exists|i: int| 0 <= i < tasks.len() && #[trigger] tasks[i].handle@ == id
}

/// The tasks that remain when every task with the id `id` is removed.
pub open spec fn without<R>(tasks: Seq<Task<R>>, id: u64) -> Seq<Task<R>> {
    tasks.filter(keeps(id))
}

/// Whether a task survives the removal of the id `id`.
pub open spec fn keeps<R>(id: u64) -> spec_fn(Task<R>) -> bool {
    |t: Task<R>| t.handle@ != id
}

/// The task at `k` is due no later than any other.
pub open spec fn is_earliest<R>(tasks: Seq<Task<R>>, k: int) -> bool {
    &&& 0 <= k < tasks.len()
    &&& forall|i: int| 0 <= i < tasks.len() ==> tasks[k].due_at <= #[trigger] tasks[i].due_at
}

/// A repeating task that `poll` at time `now` may run can be moved on by
/// one period without leaving the clock's range.
pub open spec fn run_fits<R>(tasks: Seq<Task<R>>, now: u64) -> bool {
    forall|k: int|
        #[trigger] is_earliest(tasks, k) && tasks[k].due_at <= now && tasks[k].cadence is Some
            ==> tasks[k].due_at + tasks[k].cadence->Some_0 <= u64::MAX
}

/// What the loop should do next.
pub enum Poll<R> {
    /// Wait this many nanoseconds (or until woken by a change of the tasks).
    Sleep(u64),
    /// The runnable of the task that fell due, to be called at once.
    Run(R),
}

/// The tasks, kept as a list; `poll` serves the one due earliest.
pub struct TaskQueue<R> {
    tasks: Vec<Task<R>>,
}

impl<R> TaskQueue<R> {
    /// The tasks held, in no particular order.
    pub closed spec fn tasks(&self) -> Seq<Task<R>> {
        self.tasks@
    }

    /// The queue's invariant: see `well_formed`.
    pub open spec fn wf(&self) -> bool {
        well_formed(self.tasks())
    }

    /// A queue with no tasks.
    pub fn new() -> (q: TaskQueue<R>)
        ensures
            q.wf(),
            q.tasks() == Seq::<Task<R>>::empty(),
    {
        TaskQueue { tasks: Vec::new() }
    }

    /// The number of tasks held.
    pub fn len(&self) -> (n: usize)
        ensures
            n == self.tasks().len(),
    {
        self.tasks.len()
    }

    /// Adds a task under the id `id`, as `schedule` says, at time `now`.
    /// Declines, answering `None` and adding nothing, when a task with that
    /// id is already held or the first due time is past the clock's range;
    /// otherwise answers the new task's handle.
    pub fn schedule(&mut self, runnable: R, schedule: Schedule, now: u64, id: u64) -> (h: Option<Handle>)
        requires
            old(self).wf(),
            schedule matches Schedule::Repeating(cadence) ==> cadence > 0,
        ensures
            final(self).wf(),
            accepts(old(self).tasks(), schedule, now, id) ==> {
                &&& h matches Some(handle)
                &&& handle@ == id
                &&& final(self).tasks() == old(self).tasks().push(final(self).tasks().last())
                &&& final(self).tasks().last().handle@ == id
                &&& final(self).tasks().last().runnable == runnable
                &&& final(self).tasks().last().cadence == cadence_of(schedule)
                &&& final(self).tasks().last().due_at == first_due(schedule, now)
            },
            !accepts(old(self).tasks(), schedule, now, id) ==> {
                &&& h is None
                &&& final(self).tasks() == old(self).tasks()
            },
            !has_task(old(self).tasks(), id) && first_due(schedule, now) <= u64::MAX ==> {
                &&& h is Some
                &&& final(self).tasks().len() == old(self).tasks().len() + 1
                &&& final(self).tasks().drop_last() == old(self).tasks()
            },
            has_task(old(self).tasks(), id) || first_due(schedule, now) > u64::MAX ==> {
                &&& h is None
                &&& final(self).tasks() == old(self).tasks()
            },
    {
        let n = self.tasks.len();
        let mut i: usize = 0;
        while i < n
            invariant
                n == self.tasks@.len(),
                self.tasks@ == old(self).tasks@,
                well_formed(self.tasks@),
                i <= n,
                forall|j: int| 0 <= j < i ==> #[trigger] self.tasks@[j].handle@ != id,
            decreases n - i,
        {
            if self.tasks[i].handle.id == id {
                assert(self.tasks@[i as int].handle@ == id);
                return None;
            }
            i = i + 1;
        }
        let (cadence, due_at) = match schedule {
            Schedule::Once(at) => (None, at),
            Schedule::Repeating(cadence) => {
                if cadence > u64::MAX - now {
                    return None;
                }
                (Some(cadence), now + cadence)
            },
        };
        self.tasks.push(Task { handle: Handle { id }, runnable, cadence, due_at });
        Some(Handle { id })
    }

    /// Removes the task that `handle` names. Returns whether there was one.
    pub fn deschedule(&mut self, handle: Handle) -> (removed: bool)
        requires
            old(self).wf(),
        ensures
            final(self).wf(),
            final(self).tasks() == without(old(self).tasks(), handle@),
            removed == has_task(old(self).tasks(), handle@),
    {
        let id = handle.id;
        let ghost orig = self.tasks@;
        let ghost pred = keeps::<R>(id);
        let mut rest: Vec<Task<R>> = Vec::new();
        std::mem::swap(&mut rest, &mut self.tasks);
        let mut removed = false;
        let ghost mut k: int = 0;
        while rest.len() > 0
            invariant
                pred == keeps::<R>(id),
                0 <= k <= orig.len(),
                rest@ == orig.subrange(k, orig.len() as int),
                self.tasks@ == orig.take(k).filter(pred),
                removed == exists|j: int| 0 <= j < k && #[trigger] orig[j].handle@ == id,
            decreases rest.len(),
        {
            let t = rest.remove(0);
            proof {
                assert(t == orig[k]);
                assert(rest@ =~= orig.subrange(k + 1, orig.len() as int));
                assert(orig.take(k + 1) =~= orig.take(k).push(orig[k]));
                orig.take(k).lemma_filter_push(orig[k], pred);
            }
            if t.handle.id == id {
                removed = true;
                assert(orig[k].handle@ == id);
            } else {
                self.tasks.push(t);
            }
            proof {
                k = k + 1;
            }
        }
        proof {
            assert(orig.take(orig.len() as int) == orig);
            assert forall|i: int| 0 <= i < self.tasks@.len() implies (#[trigger] self.tasks@[i].cadence matches Some(
                c,
            ) ==> c > 0) by {
                orig.lemma_filter_contains_rev(pred, self.tasks@[i]);
            }
            lemma_filter_keeps_ids_distinct(orig, pred);
        }
        removed
    }

    /// Decides the loop's next step at time `now`. With no task, it sleeps
    /// for `IDLE_WAIT_NANOS`. If the earliest task is not yet due, it sleeps
    /// until it is. Otherwise that task runs: a clone of its runnable is
    /// handed back, and the task is moved on by one period or, if it runs
    /// once, removed.
    pub fn poll(&mut self, now: u64) -> (p: Poll<R>)
        where
            R: Clone,
        requires
            old(self).wf(),
            run_fits(old(self).tasks(), now),
        ensures
            final(self).wf(),
            old(self).tasks().len() == 0 ==> {
                &&& p matches Poll::Sleep(d)
                &&& d == IDLE_WAIT_NANOS
                &&& final(self).tasks() == old(self).tasks()
            },
            old(self).tasks().len() > 0 ==> exists|k: int|
                {
                    &&& #[trigger] is_earliest(old(self).tasks(), k)
                    &&& old(self).tasks()[k].due_at > now ==> {
                        &&& p matches Poll::Sleep(d)
                        &&& d == old(self).tasks()[k].due_at - now
                        &&& final(self).tasks() == old(self).tasks()
                    }
                    &&& old(self).tasks()[k].due_at <= now ==> {
                        &&& p matches Poll::Run(r)
                        &&& cloned(old(self).tasks()[k].runnable, r)
                        &&& final(self).tasks() == after_run(old(self).tasks(), k)
                        &&& old(self).tasks()[k].cadence is None ==> final(self).tasks() == old(self).tasks().remove(k)
                        &&& old(self).tasks()[k].cadence is Some ==> {
                            &&& final(self).tasks().len() == old(self).tasks().len()
                            &&& final(self).tasks().drop_last() == old(self).tasks().remove(k)
                            &&& final(self).tasks().last().handle == old(self).tasks()[k].handle
                            &&& final(self).tasks().last().runnable == old(self).tasks()[k].runnable
                            &&& final(self).tasks().last().cadence == old(self).tasks()[k].cadence
                            &&& final(self).tasks().last().due_at == old(self).tasks()[k].due_at
                                + old(self).tasks()[k].cadence->Some_0
                        }
                    }
                },
    {
        let n = self.tasks.len();
        if n == 0 {
            return Poll::Sleep(IDLE_WAIT_NANOS);
        }
        let k = self.earliest();
        let due_at = self.tasks[k].due_at;
        if due_at > now {
            return Poll::Sleep(due_at - now);
        }
        let ghost before = self.tasks@;
        assert(is_earliest(before, k as int));
        let mut task = self.tasks.remove(k);
        let runnable = task.runnable.clone();
        match task.cadence {
            Some(cadence) => {
                task.due_at = task.due_at + cadence;
                self.tasks.push(task);
                proof {
                    assert(self.tasks@ == before.remove(k as int).push(advanced(before[k as int])));
                }
            },
            None => {},
        }
        proof {
            assert(self.tasks@ == after_run(before, k as int));
            assert forall|i: int| 0 <= i < self.tasks@.len() implies (#[trigger] self.tasks@[i].cadence matches Some(
                c,
            ) ==> c > 0) by {
                let oi = if i == n - 1 { k as int } else if i < k { i } else { i + 1 };
                assert(self.tasks@[i].cadence == before[oi].cadence);
            }
            assert forall|i: int, j: int|
                0 <= i < self.tasks@.len() && 0 <= j < self.tasks@.len() && i != j implies #[trigger] self.tasks@[i].handle@
                != #[trigger] self.tasks@[j].handle@ by {
                let oi = if i == n - 1 { k as int } else if i < k { i } else { i + 1 };
                let oj = if j == n - 1 { k as int } else if j < k { j } else { j + 1 };
                assert(self.tasks@[i].handle@ == before[oi].handle@);
                assert(self.tasks@[j].handle@ == before[oj].handle@);
            }
        }
        Poll::Run(runnable)
    }

    /// The first of the tasks that are due earliest.
    fn earliest(&self) -> (k: usize)
        requires
            self.tasks().len() > 0,
        ensures
            is_earliest(self.tasks(), k as int),
    {
        let n = self.tasks.len();
        let mut k: usize = 0;
        let mut i: usize = 1;
        while i < n
            invariant
                n == self.tasks@.len(),
                0 <= k < i <= n,
                forall|j: int| 0 <= j < i ==> self.tasks@[k as int].due_at <= #[trigger] self.tasks@[j].due_at,
            decreases n - i,
        {
            if self.tasks[i].due_at < self.tasks[k].due_at {
                k = i;
            }
            i = i + 1;
        }
        k
    }

    /// Whether `poll` at time `now` can move on whichever task it runs
    /// without leaving the clock's range.
    pub fn fits(&self, now: u64) -> (b: bool)
        ensures
            b == run_fits(self.tasks(), now),
    {
        let n = self.tasks.len();
        if n == 0 {
            return true;
        }
        let k = self.earliest();
        let earliest_due = self.tasks[k].due_at;
        if earliest_due > now {
            assert forall|j: int| #[trigger] is_earliest(self.tasks(), j) implies self.tasks()[j].due_at > now by {
                assert(self.tasks()[k as int].due_at <= self.tasks()[j].due_at);
            }
            return true;
        }
        let mut i: usize = 0;
        while i < n
            invariant
                n == self.tasks@.len(),
                i <= n,
                is_earliest(self.tasks@, k as int),
                earliest_due == self.tasks@[k as int].due_at,
                earliest_due <= now,
                forall|j: int|
                    0 <= j < i && #[trigger] self.tasks@[j].due_at == earliest_due && self.tasks@[j].cadence is Some
                        ==> self.tasks@[j].due_at + self.tasks@[j].cadence->Some_0 <= u64::MAX,
            decreases n - i,
        {
            if self.tasks[i].due_at == earliest_due {
                match self.tasks[i].cadence {
                    Some(cadence) => {
                        if cadence > u64::MAX - earliest_due {
                            assert(is_earliest(self.tasks(), i as int));
                            return false;
                        }
                    },
                    None => {},
                }
            }
            i = i + 1;
        }
        assert forall|j: int|
            #[trigger] is_earliest(self.tasks(), j) && self.tasks()[j].due_at <= now && self.tasks()[j].cadence is Some
                implies self.tasks()[j].due_at + self.tasks()[j].cadence->Some_0 <= u64::MAX by {
            assert(self.tasks()[k as int].due_at <= self.tasks()[j].due_at);
            assert(self.tasks()[j].due_at <= self.tasks()[k as int].due_at);
        }
        true
    }
}

/// Descheduling the handle that `schedule` just returned gives back the
/// queue as it was, and reports that a task was removed.
pub proof fn law_deschedule_undoes_schedule<R>(tasks: Seq<Task<R>>, t: Task<R>)
    requires
        !has_task(tasks, t.handle@),
    ensures
        has_task(tasks.push(t), t.handle@),
        without(tasks.push(t), t.handle@) == tasks,
{
    let id = t.handle@;
    let pushed = tasks.push(t);
    assert(pushed[tasks.len() as int].handle@ == id);
    tasks.lemma_filter_push(t, keeps(id));
    assert(forall|i: int| 0 <= i < tasks.len() ==> #[trigger] keeps::<R>(id)(tasks[i]));
    lemma_filter_all_kept(tasks, keeps(id));
}

/// A deschedule that finds its task removes exactly that one task: the
/// number of tasks is the number scheduled less the number descheduled.
pub proof fn law_deschedule_removes_one<R>(tasks: Seq<Task<R>>, id: u64)
    requires
        ids_distinct(tasks),
        has_task(tasks, id),
    ensures
        without(tasks, id).len() == tasks.len() - 1,
    decreases tasks.len(),
{
    let init = tasks.drop_last();
    let last = tasks.last();
    assert(init.push(last) =~= tasks);
    init.lemma_filter_push(last, keeps(id));
    assert(ids_distinct(init)) by {
        assert forall|i: int, j: int|
            0 <= i < init.len() && 0 <= j < init.len() && i != j implies #[trigger] init[i].handle@
            != #[trigger] init[j].handle@ by {
            assert(init[i] == tasks[i] && init[j] == tasks[j]);
        }
    }
    if last.handle@ == id {
        assert forall|i: int| 0 <= i < init.len() implies #[trigger] keeps::<R>(id)(init[i]) by {
            assert(tasks[i] == init[i]);
            assert(tasks[tasks.len() - 1] == last);
        }
        lemma_filter_all_kept(init, keeps(id));
    } else {
        let i = choose|i: int| 0 <= i < tasks.len() && #[trigger] tasks[i].handle@ == id;
        assert(init[i] == tasks[i]);
        assert(has_task(init, id));
        law_deschedule_removes_one(init, id);
    }
}

/// Removing tasks keeps the remaining ids distinct.
proof fn lemma_filter_keeps_ids_distinct<R>(tasks: Seq<Task<R>>, p: spec_fn(Task<R>) -> bool)
    requires
        ids_distinct(tasks),
    ensures
        ids_distinct(tasks.filter(p)),
    decreases tasks.len(),
{
    if tasks.len() == 0 {
        reveal(Seq::filter);
        assert(tasks.filter(p) =~= tasks);
    } else {
        let init = tasks.drop_last();
        let last = tasks.last();
        assert(ids_distinct(init)) by {
            assert forall|i: int, j: int|
                0 <= i < init.len() && 0 <= j < init.len() && i != j implies #[trigger] init[i].handle@
                != #[trigger] init[j].handle@ by {
                assert(init[i] == tasks[i] && init[j] == tasks[j]);
            }
        }
        lemma_filter_keeps_ids_distinct(init, p);
        assert(init.push(last) =~= tasks);
        init.lemma_filter_push(last, p);
        if p(last) {
            let f = init.filter(p);
            assert forall|a: int| 0 <= a < f.len() implies #[trigger] f[a].handle@ != last.handle@ by {
                init.lemma_filter_contains_rev(p, f[a]);
                let j = choose|j: int| 0 <= j < init.len() && init[j] == f[a];
                assert(tasks[j] == init[j]);
                assert(tasks[tasks.len() - 1] == last);
            }
            let g = f.push(last);
            assert forall|i: int, j: int|
                0 <= i < g.len() && 0 <= j < g.len() && i != j implies #[trigger] g[i].handle@
                != #[trigger] g[j].handle@ by {
                if i == f.len() {
                    assert(f[j].handle@ != last.handle@);
                } else if j == f.len() {
                    assert(f[i].handle@ != last.handle@);
                } else {
                    assert(g[i] == f[i] && g[j] == f[j]);
                }
            }
        }
    }
}

/// Filtering by a predicate that every element satisfies changes nothing.
proof fn lemma_filter_all_kept<A>(s: Seq<A>, p: spec_fn(A) -> bool)
    requires
        forall|i: int| 0 <= i < s.len() ==> #[trigger] p(s[i]),
    ensures
        s.filter(p) == s,
    decreases s.len(),
{
    if s.len() > 0 {
        let init = s.drop_last();
        assert(forall|i: int| 0 <= i < init.len() ==> #[trigger] p(init[i]) == p(s[i]));
        lemma_filter_all_kept(init, p);
        assert(init.push(s.last()) =~= s);
        init.lemma_filter_push(s.last(), p);
    } else {
        reveal(Seq::filter);
        assert(s.filter(p) =~= s);
    }
}

/// Once a handle is descheduled no task with it remains, so no later poll
/// can run that task.
pub proof fn law_descheduled_task_is_gone<R>(tasks: Seq<Task<R>>, id: u64)
    ensures
        !has_task(without(tasks, id), id),
{
    if has_task(without(tasks, id), id) {
        let i = choose|i: int| 0 <= i < without(tasks, id).len() && #[trigger] without(tasks, id)[i].handle@ == id;
        tasks.lemma_filter_pred(keeps(id), i);
    }
}

/// A poll that runs the task at `k` keeps every other task under its
/// handle. A repeating task stays, due exactly one period after the time it
/// was due, so its runs keep to the times it was scheduled for; a one-off
/// task is gone, and the number of tasks drops by one.
pub proof fn law_poll_keeps_tasks<R>(tasks: Seq<Task<R>>, k: int)
    requires
        0 <= k < tasks.len(),
        tasks[k].cadence matches Some(c) ==> c > 0 && tasks[k].due_at + c <= u64::MAX,
    ensures
        tasks[k].cadence is Some ==> {
            &&& after_run(tasks, k).len() == tasks.len()
            &&& forall|id: u64| has_task(after_run(tasks, k), id) == has_task(tasks, id)
            &&& advanced(tasks[k]).due_at == tasks[k].due_at + tasks[k].cadence->Some_0
            &&& advanced(tasks[k]).due_at > tasks[k].due_at
        },
        tasks[k].cadence is None ==> {
            &&& after_run(tasks, k).len() == tasks.len() - 1
            &&& forall|id: u64| id != tasks[k].handle@ ==> has_task(after_run(tasks, k), id) == has_task(tasks, id)
        },
{
    let after = after_run(tasks, k);
    assert forall|id: u64| (tasks[k].cadence is Some || id != tasks[k].handle@) implies has_task(after, id) == has_task(tasks, id) by {
        if has_task(tasks, id) {
            let i = choose|i: int| 0 <= i < tasks.len() && #[trigger] tasks[i].handle@ == id;
            if i < k {
                assert(after[i] == tasks[i]);
            } else if i == k {
                assert(after[tasks.len() - 1].handle@ == id);
            } else {
                assert(after[i - 1] == tasks[i]);
            }
        }
        if has_task(after, id) {
            let i = choose|i: int| 0 <= i < after.len() && #[trigger] after[i].handle@ == id;
            if i < k {
                assert(tasks[i] == after[i]);
            } else if i == tasks.len() - 1 && tasks[k].cadence is Some {
                assert(tasks[k].handle@ == id);
            } else {
                assert(tasks[i + 1] == after[i]);
            }
        }
    }
}

/// Descheduling a handle that names no task leaves the queue as it was.
pub proof fn law_deschedule_unknown_is_noop<R>(tasks: Seq<Task<R>>, id: u64)
    requires
        !has_task(tasks, id),
    ensures
        without(tasks, id) == tasks,
{
    assert(forall|i: int| 0 <= i < tasks.len() ==> #[trigger] keeps::<R>(id)(tasks[i]));
    lemma_filter_all_kept(tasks, keeps(id));
}

/// `schedule` takes a task exactly when its id is unused in the queue and its
/// first due time is on the clock, however many tasks the queue holds. A
/// one-off task is first due at its own time, a repeating one a period after
/// `now`; a one-off task keeps no period, a repeating one keeps its own.
pub proof fn law_schedule_takes_every_fresh_task<R>(tasks: Seq<Task<R>>, schedule: Schedule, now: u64, id: u64)
    ensures
        accepts(tasks, schedule, now, id) == (!(exists|i: int| 0 <= i < tasks.len() && #[trigger] tasks[i].handle@
            == id) && first_due(schedule, now) <= u64::MAX),
        schedule matches Schedule::Once(at) ==> first_due(schedule, now) == at && cadence_of(schedule) is None,
        schedule matches Schedule::Repeating(c) ==> first_due(schedule, now) == now + c && cadence_of(schedule)
            == Some(c),
{
}

/// After a repeating task runs it comes back with its own handle, runnable
/// and period, due one of its own periods after the time it was due; every
/// other task stays as it was. A one-off task that runs is simply removed.
pub proof fn law_run_keeps_the_task_its_own_period<R>(tasks: Seq<Task<R>>, k: int)
    requires
        0 <= k < tasks.len(),
        tasks[k].cadence matches Some(c) ==> tasks[k].due_at + c <= u64::MAX,
    ensures
        tasks[k].cadence is None ==> after_run(tasks, k) == tasks.remove(k),
        tasks[k].cadence is Some ==> {
            &&& after_run(tasks, k).len() == tasks.len()
            &&& after_run(tasks, k).drop_last() == tasks.remove(k)
            &&& after_run(tasks, k).last().handle == tasks[k].handle
            &&& after_run(tasks, k).last().runnable == tasks[k].runnable
            &&& after_run(tasks, k).last().cadence == tasks[k].cadence
            &&& after_run(tasks, k).last().due_at == tasks[k].due_at + tasks[k].cadence->Some_0
        },
{
    if tasks[k].cadence is Some {
        assert(after_run(tasks, k).drop_last() =~= tasks.remove(k));
    }
}

} // verus!
