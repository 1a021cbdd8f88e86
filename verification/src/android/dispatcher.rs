//! The timers of the executor: a queue by deadline that a thread of its own waits on.

use vstd::prelude::*;

verus! {

/// A task that becomes due at a time, in nanoseconds.
#[derive(Clone, Copy, Debug, PartialEq, Eq, Structural)]
pub struct TimerAfter {
    pub deadline: u64,
    pub runnable: u64,
}

/// Timers in the order of their deadlines; of two with one deadline the one set first
/// comes first.
#[derive(Debug)]
pub struct TimerQueue {
    timers: Vec<TimerAfter>,
}

/// Whether no timer stands behind one that is due later.
pub open spec fn in_order(timers: Seq<TimerAfter>) -> bool {
    forall|i: int, j: int|
        0 <= i <= j < timers.len() ==> (#[trigger] timers[i]).deadline <= (
        #[trigger] timers[j]).deadline
}

/// Where a new timer goes: behind every timer that is due no later.
pub open spec fn place(timers: Seq<TimerAfter>, deadline: u64) -> int
    decreases timers.len(),
{
    if timers.len() == 0 || timers.last().deadline <= deadline {
        timers.len() as int
    } else {
        place(timers.drop_last(), deadline)
    }
}

proof fn lemma_place(timers: Seq<TimerAfter>, deadline: u64)
    requires
        in_order(timers),
    ensures
        0 <= place(timers, deadline) <= timers.len(),
        forall|i: int|
            0 <= i < place(timers, deadline) ==> (#[trigger] timers[i]).deadline <= deadline,
        forall|i: int|
            place(timers, deadline) <= i < timers.len() ==> deadline < (
            #[trigger] timers[i]).deadline,
    decreases timers.len(),
{
    if timers.len() == 0 || timers.last().deadline <= deadline {
    } else {
        let rest = timers.drop_last();
        assert forall|i: int, j: int| 0 <= i <= j < rest.len() implies (#[trigger] rest[i]).deadline
            <= (#[trigger] rest[j]).deadline by {
            assert(timers[i].deadline <= timers[j].deadline);
        }
        lemma_place(rest, deadline);
        assert forall|i: int| 0 <= i < place(timers, deadline) implies (
        #[trigger] timers[i]).deadline <= deadline by {
            assert(rest[i] == timers[i]);
        }
        assert forall|i: int| place(timers, deadline) <= i < timers.len() implies deadline < (
        #[trigger] timers[i]).deadline by {
            if i < rest.len() {
                assert(rest[i] == timers[i]);
            }
        }
    }
}

/// How many timers at the front are due.
pub open spec fn due_count(timers: Seq<TimerAfter>, now: u64) -> int
    decreases timers.len(),
{
    if timers.len() == 0 || now < timers[0].deadline {
        0
    } else {
        1 + due_count(timers.drop_first(), now)
    }
}

/// What the timer thread waits for.
#[derive(Clone, Copy, Debug, PartialEq, Eq, Structural)]
pub enum TimerWait {
    /// A new timer.
    Timer,
    /// A new timer, or this many nanoseconds.
    TimerOr(u64),
}

impl View for TimerQueue {
    type V = Seq<TimerAfter>;

    closed spec fn view(&self) -> Seq<TimerAfter> {
        self.timers@
    }
}

impl TimerQueue {
    pub open spec fn wf(self) -> bool {
        in_order(self@)
    }

    pub fn new() -> (queue: TimerQueue)
        ensures
            queue.wf(),
            queue@ == Seq::<TimerAfter>::empty(),
    {
        TimerQueue { timers: Vec::new() }
    }

    /// Sets a timer.
    pub fn push(&mut self, timer: TimerAfter)
        requires
            old(self).wf(),
        ensures
            final(self).wf(),
            final(self)@ == old(self)@.insert(place(old(self)@, timer.deadline), timer),
    {
        let mut index: usize = self.timers.len();
        proof {
            lemma_place(self@, timer.deadline);
        }
        assert(self@.take(index as int) =~= self@);
        while index > 0 && self.timers[index - 1].deadline > timer.deadline
            invariant
                index <= self@.len(),
                place(self@, timer.deadline) == place(self@.take(index as int), timer.deadline),
            decreases index,
        {
            assert(self@.take(index as int).drop_last() =~= self@.take(index - 1));
            index -= 1;
        }
        assert(index == place(self@, timer.deadline));
        self.timers.insert(index, timer);
        assert forall|i: int, j: int| 0 <= i <= j < self@.len() implies (
        #[trigger] self@[i]).deadline <= (#[trigger] self@[j]).deadline by {
            let before = old(self)@;
            if i < index && j > index {
                assert(before[i].deadline <= before[j - 1].deadline);
            } else if i > index {
                assert(before[i - 1].deadline <= before[j - 1].deadline);
            } else if j < index {
                assert(before[i].deadline <= before[j].deadline);
            }
        }
    }

    /// Takes the next timer that is due.
    pub fn pop_due(&mut self, now: u64) -> (due: Option<TimerAfter>)
        requires
            old(self).wf(),
        ensures
            final(self).wf(),
            match due {
                Some(timer) => old(self)@.len() > 0 && timer == old(self)@[0] && timer.deadline <= now
                    && final(self)@ == old(self)@.drop_first(),
                None => final(self)@ == old(self)@ && (old(self)@.len() == 0 || now
                    < old(self)@[0].deadline),
            },
    {
        if self.timers.len() == 0 || now < self.timers[0].deadline {
            return None;
        }
        let timer = self.timers.remove(0);
        assert(self@ =~= old(self)@.drop_first());
        assert forall|i: int, j: int| 0 <= i <= j < self@.len() implies (
        #[trigger] self@[i]).deadline <= (#[trigger] self@[j]).deadline by {
            assert(old(self)@[i + 1].deadline <= old(self)@[j + 1].deadline);
        }
        Some(timer)
    }

    /// Takes every timer that is due, in the order of their deadlines.
    pub fn take_due(&mut self, now: u64) -> (due: Vec<TimerAfter>)
        requires
            old(self).wf(),
        ensures
            final(self).wf(),
            0 <= due_count(old(self)@, now) <= old(self)@.len(),
            due@ == old(self)@.take(due_count(old(self)@, now)),
            final(self)@ == old(self)@.skip(due_count(old(self)@, now)),
    {
        let mut due: Vec<TimerAfter> = Vec::new();
        assert(self@.skip(0) =~= self@);
        assert(due@ =~= self@.take(0));
        loop
            invariant_except_break
                self.wf(),
                due@.len() <= old(self)@.len(),
                due@ == old(self)@.take(due@.len() as int),
                self@ == old(self)@.skip(due@.len() as int),
                due_count(old(self)@, now) == due@.len() + due_count(self@, now),
            ensures
                self.wf(),
                due@.len() <= old(self)@.len(),
                due@ == old(self)@.take(due@.len() as int),
                self@ == old(self)@.skip(due@.len() as int),
                due_count(old(self)@, now) == due@.len(),
            decreases self@.len(),
        {
            match self.pop_due(now) {
                Some(timer) => {
                    due.push(timer);
                },
                None => {
                    break;
                },
            }
        }
        due
    }

    /// What to wait for, once no timer is due.
    pub fn wait(&self, now: u64) -> (wait: TimerWait)
        ensures
            wait == if self@.len() == 0 {
                TimerWait::Timer
            } else {
                TimerWait::TimerOr(crate::touch::since(self@[0].deadline, now) as u64)
            },
    {
        if self.timers.len() == 0 {
            TimerWait::Timer
        } else {
            TimerWait::TimerOr(crate::touch::nanos_since(self.timers[0].deadline, now))
        }
    }
}

/// How many background threads there are: one for each processor, and at least two.
pub fn thread_count(parallelism: Option<usize>) -> (count: usize)
    ensures
        count == (match parallelism {
            Some(count) => if count < 2 {
                2
            } else {
                count
            },
            None => 2,
        }),
{
    match parallelism {
        Some(count) => if count < 2 {
            2
        } else {
            count
        },
        None => 2,
    }
}

/// No timer fires early or out of turn, and none that is due is left behind.
pub proof fn law_due_timers_fire(timers: Seq<TimerAfter>, now: u64)
    requires
        in_order(timers),
    ensures
        0 <= due_count(timers, now) <= timers.len(),
        forall|i: int|
            0 <= i < due_count(timers, now) ==> (#[trigger] timers[i]).deadline <= now,
        forall|i: int|
            due_count(timers, now) <= i < timers.len() ==> now < (#[trigger] timers[i]).deadline,
    decreases timers.len(),
{
    if timers.len() > 0 && timers[0].deadline <= now {
        let rest = timers.drop_first();
        assert forall|i: int, j: int| 0 <= i <= j < rest.len() implies (#[trigger] rest[i]).deadline
            <= (#[trigger] rest[j]).deadline by {
            assert(timers[i + 1].deadline <= timers[j + 1].deadline);
        }
        law_due_timers_fire(rest, now);
        assert forall|i: int| 0 <= i < due_count(timers, now) implies (
        #[trigger] timers[i]).deadline <= now by {
            if i > 0 {
                assert(rest[i - 1] == timers[i]);
            }
        }
        assert forall|i: int| due_count(timers, now) <= i < timers.len() implies now < (
        #[trigger] timers[i]).deadline by {
            assert(rest[i - 1] == timers[i]);
        }
    }
}

/// A timer that is set is kept, and every other one with it.
pub proof fn law_setting_keeps_timers(timers: Seq<TimerAfter>, timer: TimerAfter)
    requires
        in_order(timers),
    ensures
        timers.insert(place(timers, timer.deadline), timer).to_multiset()
            == timers.to_multiset().insert(timer),
{
    lemma_place(timers, timer.deadline);
    vstd::seq_lib::to_multiset_insert(timers, place(timers, timer.deadline), timer);
}

} // verus!
