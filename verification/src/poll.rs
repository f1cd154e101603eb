//! Bounded polling: the decision half of every "wait until a status bit is
//! set, but give up after N looks" loop in the drivers.
//!
//! The driver reads the status register and hands the observation to
//! [`PollBudget::observe`], which says whether the condition was met, whether
//! to look again, or that the budget is spent.
use vstd::prelude::*;

verus! {

/// Outcome of one observation of a polled condition.
#[derive(Debug, Clone, Copy, PartialEq, Eq, Structural)]
pub enum PollStep {
    /// The condition held on this observation.
    Ready,
    /// The condition did not hold; look again.
    Retry,
    /// The condition did not hold and the budget of observations is spent.
    Exhausted,
}

/// A budget of at most `limit` observations of a condition.
#[derive(Debug, Clone, Copy)]
pub struct PollBudget {
    limit: u32,
    used: u32,
}

impl PollBudget {
    /// The number of observations allowed.
    pub closed spec fn limit_spec(&self) -> nat {
        self.limit as nat
    }

    /// The number of failed observations so far.
    pub closed spec fn used_spec(&self) -> nat {
        self.used as nat
    }

    /// Well-formedness: never more failed observations than allowed.
    pub open spec fn wf(&self) -> bool {
        self.used_spec() <= self.limit_spec()
    }

    /// A fresh budget of `limit` observations.
    pub fn new(limit: u32) -> (b: Self)
        ensures
            b.wf(),
            b.limit_spec() == limit,
            b.used_spec() == 0,
    {
        PollBudget { limit, used: 0 }
    }

    /// Record one observation of the condition.
    ///
    /// A met condition answers `Ready` and leaves the budget alone. An unmet
    /// one is counted; once `limit` unmet observations have been counted the
    /// answer is `Exhausted`, before that `Retry`. A budget of zero answers
    /// `Exhausted` to any unmet observation.
    pub fn observe(&mut self, ready: bool) -> (step: PollStep)
        requires
            old(self).wf(),
            old(self).used_spec() < old(self).limit_spec() || old(self).limit_spec() == 0,
        ensures
            final(self).wf(),
            final(self).limit_spec() == old(self).limit_spec(),
            ready ==> step == PollStep::Ready && final(self).used_spec() == old(self).used_spec(),
            !ready && old(self).limit_spec() == 0 ==> step == PollStep::Exhausted
                && final(self).used_spec() == 0,
            !ready && old(self).limit_spec() > 0 ==> final(self).used_spec() == old(self).used_spec() + 1
                && (step == PollStep::Exhausted <==> final(self).used_spec() == old(self).limit_spec())
                && (step == PollStep::Retry <==> final(self).used_spec() < old(self).limit_spec()),
    {
        if ready {
            PollStep::Ready
        } else if self.limit == 0 {
            PollStep::Exhausted
        } else {
            self.used = self.used + 1;
            if self.used == self.limit {
                PollStep::Exhausted
            } else {
                PollStep::Retry
            }
        }
    }

    /// Whether the budget is spent.
    pub fn is_exhausted(&self) -> (r: bool)
        requires
            self.wf(),
        ensures
            r == (self.used_spec() == self.limit_spec()),
    {
        self.used == self.limit
    }

    /// The number of unmet observations so far.
    pub fn used(&self) -> (r: u32)
        ensures
            r == self.used_spec(),
    {
        self.used
    }
}

/// A record of polls: the `i`-th poll was made on closure state `states[i]`
/// and answered `answers[i]`; the first was made on `start`, and every answer
/// but the last was `false`.
pub open spec fn poll_trace<F: FnMut() -> bool>(start: F, states: Seq<F>, answers: Seq<bool>) -> bool {
    &&& states.len() == answers.len()
    &&& states.len() > 0 ==> states[0] == start
    &&& forall|i: int| 0 <= i < states.len() ==> #[trigger] call_ensures(states[i], (), answers[i])
    &&& forall|i: int| 0 <= i < answers.len() - 1 ==> #[trigger] answers[i] == false
}

/// What a bounded poll of `start` reports as `ready`: the polls made, at
/// most `limit` of them, ended on a `true` answer exactly when `ready`, and a
/// poll that never saw `true` made all `limit` polls.
pub open spec fn poll_result<F: FnMut() -> bool>(start: F, limit: nat, ready: bool) -> bool {
    exists|states: Seq<F>, answers: Seq<bool>|
        #[trigger] poll_trace(start, states, answers) && answers.len() <= limit && (ready <==> (
        answers.len() > 0 && answers.last())) && (!ready ==> answers.len() == limit)
}

/// Poll `ready` until it answers `true`, at most `limit` times.
///
/// Returns `true` as soon as one call answers `true` (no further calls are
/// made) and `false` once `limit` calls have all answered `false`.
pub fn poll_until<F: FnMut() -> bool>(ready: &mut F, limit: u32) -> (r: bool)
    requires
        forall|| call_requires(*old(ready), ()),
    ensures
        poll_result(*old(ready), limit as nat, r),
        limit == 0 ==> !r,
{
    let ghost start = *ready;
    let ghost mut states: Seq<F> = Seq::empty();
    let ghost mut answers: Seq<bool> = Seq::empty();
    let mut budget = PollBudget::new(limit);
    if limit == 0 {
        assert(poll_trace(start, states, answers));
        return false;
    }
    loop
        invariant
            budget.wf(),
            budget.limit_spec() == limit,
            budget.used_spec() < limit,
            limit > 0,
            start == *old(ready),
            forall|| call_requires(*ready, ()),
            states.len() == budget.used_spec(),
            states.len() == 0 ==> *ready == start,
            poll_trace(start, states, answers),
            forall|i: int| 0 <= i < answers.len() ==> #[trigger] answers[i] == false,
        decreases limit - budget.used_spec(),
    {
        let ghost pre = *ready;
        let seen = ready();
        proof {
            states = states.push(pre);
            answers = answers.push(seen);
        }
        assert(poll_trace(start, states, answers));
        match budget.observe(seen) {
            PollStep::Ready => {
                return true;
            },
            PollStep::Exhausted => {
                return false;
            },
            PollStep::Retry => {},
        }
    }
}

/// A record of the accesses made through one closure `bus`: access `i` was
/// `calls[i]`, made on closure state `states[i]`, and answered `answers[i]`;
/// the first was made on `start`. The order of `calls` is the order in which
/// the accesses were made.
pub open spec fn access_trace<A, R, B: FnMut(A) -> R>(
    start: B,
    calls: Seq<A>,
    states: Seq<B>,
    answers: Seq<R>,
) -> bool {
    &&& states.len() == calls.len()
    &&& answers.len() == calls.len()
    &&& states.len() > 0 ==> states[0] == start
    &&& forall|i: int| 0 <= i < calls.len() ==> #[trigger] call_ensures(states[i], (calls[i],), answers[i])
}

/// Whether a polled word `v` shows the awaited condition: the bits of
/// `mask` all set when `want_set`, all clear otherwise.
pub open spec fn bit_ready(v: u32, mask: u32, want_set: bool) -> bool {
    if want_set {
        v & mask == mask
    } else {
        v & mask == 0
    }
}

/// Every access in `calls` is `a`.
pub open spec fn all_calls<A>(calls: Seq<A>, a: A) -> bool {
    forall|i: int| 0 <= i < calls.len() ==> #[trigger] calls[i] == a
}

/// The answers of a bounded poll: at most `limit` looks, none but the last
/// showing the condition, and fewer than `limit` only when the last one
/// showed it.
pub open spec fn bounded_poll(answers: Seq<u32>, mask: u32, want_set: bool, limit: nat) -> bool {
    &&& answers.len() <= limit
    &&& forall|i: int| 0 <= i < answers.len() - 1 ==> !bit_ready(#[trigger] answers[i], mask, want_set)
    &&& answers.len() < limit ==> answers.len() > 0 && bit_ready(answers.last(), mask, want_set)
}

/// Whether a bounded poll ended on a look that showed the condition.
pub open spec fn poll_met(answers: Seq<u32>, mask: u32, want_set: bool) -> bool {
    answers.len() > 0 && bit_ready(answers.last(), mask, want_set)
}

/// Two traces made one after the other form one trace.
pub proof fn lemma_trace_append<A, R, B: FnMut(A) -> R>(
    start: B,
    c1: Seq<A>,
    s1: Seq<B>,
    a1: Seq<R>,
    mid: B,
    c2: Seq<A>,
    s2: Seq<B>,
    a2: Seq<R>,
)
    requires
        access_trace(start, c1, s1, a1),
        access_trace(mid, c2, s2, a2),
        c1.len() > 0,
    ensures
        access_trace(start, c1 + c2, s1 + s2, a1 + a2),
{
    assert forall|i: int| 0 <= i < (c1 + c2).len() implies #[trigger] call_ensures(
        (s1 + s2)[i],
        ((c1 + c2)[i],),
        (a1 + a2)[i],
    ) by {
        if i < c1.len() {
            assert(call_ensures(s1[i], (c1[i],), a1[i]));
        } else {
            assert(call_ensures(s2[i - c1.len()], (c2[i - c1.len()],), a2[i - c1.len()]));
        }
    }
}

/// Look at `bus(a)` until it shows the condition (`mask`, `want_set`), at
/// most `limit` times: `true` as soon as a look shows it (no further look is
/// made), `false` once `limit` looks have not.
pub fn poll_bus<A: Copy, B: FnMut(A) -> u32>(bus: &mut B, a: A, mask: u32, want_set: bool, limit: u32) -> (r:
    bool)
    requires
        forall|x: A| call_requires(*old(bus), (x,)),
        limit > 0,
    ensures
        forall|x: A| call_requires(*final(bus), (x,)),
        exists|calls: Seq<A>, states: Seq<B>, answers: Seq<u32>|
            #[trigger] access_trace(*old(bus), calls, states, answers) && all_calls(calls, a) && bounded_poll(
                answers,
                mask,
                want_set,
                limit as nat,
            ) && answers.len() > 0 && r == poll_met(answers, mask, want_set),
{
    let ghost start = *bus;
    let ghost mut calls: Seq<A> = Seq::empty();
    let ghost mut states: Seq<B> = Seq::empty();
    let ghost mut answers: Seq<u32> = Seq::empty();
    let mut n: u32 = 0;
    loop
        invariant
            n < limit,
            forall|x: A| call_requires(*bus, (x,)),
            start == *old(bus),
            calls.len() == n,
            n == 0 ==> *bus == start,
            access_trace(start, calls, states, answers),
            all_calls(calls, a),
            forall|i: int| 0 <= i < answers.len() ==> !bit_ready(#[trigger] answers[i], mask, want_set),
        decreases limit - n,
    {
        let ghost pre = *bus;
        let v = bus(a);
        proof {
            calls = calls.push(a);
            states = states.push(pre);
            answers = answers.push(v);
        }
        assert(access_trace(start, calls, states, answers));
        if (want_set && v & mask == mask) || (!want_set && v & mask == 0) {
            return true;
        }
        n += 1;
        if n == limit {
            return false;
        }
    }
}

/// Appending to a sequence leaves its prefixes as they were.
pub proof fn lemma_prefix_push<R>(s: Seq<R>, v: R)
    ensures
        s.push(v).drop_last() == s,
        s.push(v).take(s.len() as int) == s,
        forall|j: int| 0 <= j <= s.len() ==> #[trigger] s.push(v).take(j) == s.take(j),
{
    assert(s.push(v).drop_last() =~= s);
    assert(s.push(v).take(s.len() as int) =~= s);
    assert forall|j: int| 0 <= j <= s.len() implies #[trigger] s.push(v).take(j) == s.take(j) by {
        assert(s.push(v).take(j) =~= s.take(j));
    }
}

} // verus!
