//! Lua-side event bus.
//!
//! Plugins subscribe to host events with `ttymap.on_event(name, fn)`
//! (or `ttymap.api.frame.on_tick(fn)`, sugar for the `"tick"` event).
//! Each event name owns one bucket of subscribers, kept in registration
//! order; firing an event runs its bucket in that order.
use vstd::prelude::*;
use crate::text::str_is;

verus! {

/// Subscribers per event name. Each name has at most one bucket.
pub struct LuaEventBus<S> {
    pub buckets: Vec<(String, Vec<S>)>,
}

/// The subscribers for `event` across `b`, bucket by bucket, each in
/// registration order.
pub open spec fn spec_subs<S>(b: Seq<(String, Vec<S>)>, event: Seq<char>) -> Seq<S>
    decreases b.len(),
{
    if b.len() == 0 {
        Seq::empty()
    } else {
        spec_subs(b.drop_last(), event) + if b.last().0@ == event {
            b.last().1@
        } else {
            Seq::empty()
        }
    }
}

/// Number of subscribers for `event` across `b`.
pub open spec fn spec_count<S>(b: Seq<(String, Vec<S>)>, event: Seq<char>) -> nat {
    spec_subs(b, event).len()
}

/// Number of subscribers across every bucket of `b`.
pub open spec fn spec_total<S>(b: Seq<(String, Vec<S>)>) -> nat
    decreases b.len(),
{
    if b.len() == 0 {
        0
    } else {
        spec_total(b.drop_last()) + b.last().1@.len()
    }
}

/// No two buckets share an event name.
pub open spec fn spec_names_distinct<S>(b: Seq<(String, Vec<S>)>) -> bool {
    forall|i: int, j: int| 0 <= i < j < b.len() ==> #[trigger] b[i].0@ != #[trigger] b[j].0@
}

proof fn lemma_total_update<S>(b: Seq<(String, Vec<S>)>, i: int, x: (String, Vec<S>))
    requires
        0 <= i < b.len(),
    ensures
        spec_total(b.update(i, x)) + b[i].1@.len() == spec_total(b) + x.1@.len(),
    decreases b.len(),
{
    let n = b.update(i, x);
    if i == b.len() - 1 {
        assert(n.drop_last() =~= b.drop_last());
    } else {
        lemma_total_update(b.drop_last(), i, x);
        assert(n.drop_last() =~= b.drop_last().update(i, x));
    }
}

proof fn lemma_count_absent<S>(b: Seq<(String, Vec<S>)>, event: Seq<char>)
    requires
        forall|k: int| 0 <= k < b.len() ==> (#[trigger] b[k]).0@ != event,
    ensures
        spec_subs(b, event) == Seq::<S>::empty(),
    decreases b.len(),
{
    if b.len() > 0 {
        assert forall|k: int| 0 <= k < b.drop_last().len() implies (#[trigger] b.drop_last()[k]).0@ != event by {
            assert(b.drop_last()[k] == b[k]);
        }
        lemma_count_absent(b.drop_last(), event);
        assert(b[b.len() - 1] == b.last());
        assert(spec_subs(b, event) =~= Seq::<S>::empty());
    }
}

proof fn lemma_count_one<S>(b: Seq<(String, Vec<S>)>, i: int, event: Seq<char>)
    requires
        0 <= i < b.len(),
        b[i].0@ == event,
        spec_names_distinct(b),
    ensures
        spec_subs(b, event) == b[i].1@,
    decreases b.len(),
{
    let p = b.drop_last();
    if i == b.len() - 1 {
        assert forall|k: int| 0 <= k < p.len() implies (#[trigger] p[k]).0@ != event by {
            assert(p[k] == b[k]);
            assert(b[k].0@ != b[i].0@);
        }
        lemma_count_absent(p, event);
        assert(spec_subs(b, event) =~= b[i].1@);
    } else {
        assert forall|k: int, j: int| 0 <= k < j < p.len() implies #[trigger] p[k].0@ != #[trigger] p[j].0@ by {
            assert(p[k] == b[k] && p[j] == b[j]);
        }
        assert(p[i] == b[i]);
        lemma_count_one(p, i, event);
        assert(b.last().0@ != b[i].0@) by {
            assert(b[b.len() - 1] == b.last());
        }
        assert(spec_subs(b, event) =~= b[i].1@);
    }
}

impl<S> LuaEventBus<S> {
    /// Bus invariant: one bucket per event name.
    pub open spec fn wf(&self) -> bool {
        spec_names_distinct(self.buckets@)
    }

    /// The subscribers of `event`, in registration order.
    pub open spec fn spec_subscribers_of(&self, event: Seq<char>) -> Seq<S> {
        spec_subs(self.buckets@, event)
    }

    /// Number of subscribers of `event`.
    pub open spec fn spec_count_of(&self, event: Seq<char>) -> nat {
        spec_count(self.buckets@, event)
    }

    /// An empty bus.
    pub fn new() -> (r: Self)
        ensures
            r.wf(),
            spec_total(r.buckets@) == 0,
            forall|e: Seq<char>| r.spec_subscribers_of(e) == Seq::<S>::empty(),
            forall|e: Seq<char>| r.spec_count_of(e) == 0,
    {
        LuaEventBus { buckets: Vec::new() }
    }

    fn find(&self, event_name: &str) -> (r: Option<usize>)
        ensures
            match r {
                Some(i) => i < self.buckets@.len() && self.buckets@[i as int].0@ == event_name@,
                None => forall|k: int| 0 <= k < self.buckets@.len() ==> (#[trigger] self.buckets@[k]).0@ != event_name@,
            },
    {
        let mut i: usize = 0;
        while i < self.buckets.len()
            invariant
                i <= self.buckets@.len(),
                forall|k: int| 0 <= k < i ==> (#[trigger] self.buckets@[k]).0@ != event_name@,
            decreases self.buckets@.len() - i,
        {
            if str_is(self.buckets[i].0.as_str(), event_name) {
                return Some(i);
            }
            i = i + 1;
        }
        None
    }

    /// Add a callback to the bucket for `event_name`, after the ones
    /// already there.
    pub fn subscribe(&mut self, event_name: &str, sub: S)
        requires
            old(self).wf(),
        ensures
            final(self).wf(),
            spec_total(final(self).buckets@) == spec_total(old(self).buckets@) + 1,
            forall|e: Seq<char>| #[trigger] final(self).spec_subscribers_of(e) == if e == event_name@ {
                old(self).spec_subscribers_of(e).push(sub)
            } else {
                old(self).spec_subscribers_of(e)
            },
            forall|e: Seq<char>| #[trigger] final(self).spec_count_of(e) == old(self).spec_count_of(e) + if e == event_name@ {
                1nat
            } else {
                0nat
            },
    {
        match self.find(event_name) {
            Some(i) => {
                let ghost b = self.buckets@;
                let (name, mut subs) = self.buckets.remove(i);
                subs.push(sub);
                let ghost x = (name, subs);
                self.buckets.insert(i, (name, subs));
                proof {
                    assert(self.buckets@ =~= b.update(i as int, x));
                    lemma_total_update(b, i as int, x);
                    let n = self.buckets@;
                    assert forall|k: int, j: int| 0 <= k < j < n.len() implies #[trigger] n[k].0@ != #[trigger] n[j].0@ by {
                        assert(b[k].0@ != b[j].0@);
                    }
                    assert forall|e: Seq<char>| #[trigger] spec_subs(n, e) == if e == event_name@ {
                        spec_subs(b, e).push(sub)
                    } else {
                        spec_subs(b, e)
                    } by {
                        if e == event_name@ {
                            lemma_count_one(b, i as int, e);
                            lemma_count_one(n, i as int, e);
                        } else if exists|j: int| 0 <= j < b.len() && (#[trigger] b[j]).0@ == e {
                            let j = choose|j: int| 0 <= j < b.len() && (#[trigger] b[j]).0@ == e;
                            lemma_count_one(b, j, e);
                            lemma_count_one(n, j, e);
                        } else {
                            lemma_count_absent(b, e);
                            assert forall|k: int| 0 <= k < n.len() implies (#[trigger] n[k]).0@ != e by {
                                assert(b[k].0@ != e);
                            }
                            lemma_count_absent(n, e);
                        }
                    }
                }
            },
            None => {
                let ghost b = self.buckets@;
                let mut subs: Vec<S> = Vec::new();
                subs.push(sub);
                let name = event_name.to_owned();
                self.buckets.push((name, subs));
                proof {
                    let n = self.buckets@;
                    assert(n.drop_last() =~= b);
                    lemma_count_absent(b, event_name@);
                    assert forall|k: int, j: int| 0 <= k < j < n.len() implies #[trigger] n[k].0@ != #[trigger] n[j].0@ by {
                        if j == b.len() {
                            assert(n[k] == b[k]);
                        } else {
                            assert(n[k] == b[k] && n[j] == b[j]);
                        }
                    }
                    assert forall|e: Seq<char>| #[trigger] spec_subs(n, e) == if e == event_name@ {
                        spec_subs(b, e).push(sub)
                    } else {
                        spec_subs(b, e)
                    } by {
                        if e == event_name@ {
                            assert(spec_subs(n, e) =~= spec_subs(b, e).push(sub));
                        } else {
                            assert(spec_subs(n, e) =~= spec_subs(b, e));
                        }
                    }
                }
            },
        }
    }

    /// Total number of subscribers across every event.
    pub fn len(&self) -> (r: usize)
        requires
            spec_total(self.buckets@) <= usize::MAX,
        ensures
            r == spec_total(self.buckets@),
    {
        let mut total: usize = 0;
        let mut i: usize = 0;
        while i < self.buckets.len()
            invariant
                i <= self.buckets@.len(),
                total == spec_total(self.buckets@.take(i as int)),
                spec_total(self.buckets@) <= usize::MAX,
            decreases self.buckets@.len() - i,
        {
            proof {
                assert(self.buckets@.take(i + 1).drop_last() =~= self.buckets@.take(i as int));
                lemma_total_prefix(self.buckets@, i + 1);
            }
            total = total + self.buckets[i].1.len();
            i = i + 1;
        }
        assert(self.buckets@.take(i as int) =~= self.buckets@);
        total
    }

    /// Number of subscribers for `event_name`.
    pub fn count(&self, event_name: &str) -> (r: usize)
        requires
            self.wf(),
        ensures
            r == self.spec_count_of(event_name@),
    {
        match self.find(event_name) {
            Some(i) => {
                proof {
                    lemma_count_one(self.buckets@, i as int, event_name@);
                }
                self.buckets[i].1.len()
            },
            None => {
                proof {
                    lemma_count_absent(self.buckets@, event_name@);
                }
                0
            },
        }
    }

    /// `true` iff no event has a subscriber.
    pub fn is_empty(&self) -> (r: bool)
        ensures
            r == (spec_total(self.buckets@) == 0),
    {
        let mut i: usize = 0;
        while i < self.buckets.len()
            invariant
                i <= self.buckets@.len(),
                spec_total(self.buckets@.take(i as int)) == 0,
            decreases self.buckets@.len() - i,
        {
            assert(self.buckets@.take(i + 1).drop_last() =~= self.buckets@.take(i as int));
            if self.buckets[i].1.len() > 0 {
                proof {
                    lemma_total_prefix(self.buckets@, i + 1);
                }
                return false;
            }
            i = i + 1;
        }
        assert(self.buckets@.take(i as int) =~= self.buckets@);
        true
    }

    /// The subscribers of `event_name`, in registration order.
    pub fn subscribers(&self, event_name: &str) -> (r: Option<&Vec<S>>)
        requires
            self.wf(),
        ensures
            match r {
                Some(v) => v@ == self.spec_subscribers_of(event_name@),
                None => self.spec_subscribers_of(event_name@) == Seq::<S>::empty(),
            },
    {
        match self.find(event_name) {
            Some(i) => {
                proof {
                    lemma_count_one(self.buckets@, i as int, event_name@);
                }
                Some(&self.buckets[i].1)
            },
            None => {
                proof {
                    lemma_count_absent(self.buckets@, event_name@);
                }
                None
            },
        }
    }
}

impl<S> LuaEventBus<S> {
    /// Fire `event_name`: hand each of its subscribers to `call`, once
    /// each, in registration order. A failing call (one that answers
    /// `false`) does not stop the ones after it, so one broken plugin
    /// cannot starve the others. Returns each call's answer, in order.
    pub fn dispatch<F: Fn(&S) -> bool>(&self, event_name: &str, call: F) -> (r: Vec<bool>)
        requires
            self.wf(),
            forall|s: &S| #[trigger] call.requires((s,)),
        ensures
            r@.len() == self.spec_count_of(event_name@),
            forall|i: int|
                0 <= i < r@.len() ==> call.ensures((&self.spec_subscribers_of(event_name@)[i],), #[trigger] r@[i]),
    {
        let mut out: Vec<bool> = Vec::new();
        match self.subscribers(event_name) {
            None => out,
            Some(subs) => {
                let mut i: usize = 0;
                while i < subs.len()
                    invariant
                        i <= subs@.len(),
                        out@.len() == i,
                        forall|s: &S| #[trigger] call.requires((s,)),
                        forall|j: int| 0 <= j < i ==> call.ensures((&subs@[j],), #[trigger] out@[j]),
                    decreases subs@.len() - i,
                {
                    let answer = call(&subs[i]);
                    out.push(answer);
                    i = i + 1;
                }
                out
            },
        }
    }
}

/// The event names of the buckets of `b`, in order.
pub open spec fn spec_names<S>(b: Seq<(String, Vec<S>)>) -> Seq<Seq<char>> {
    b.map_values(|p: (String, Vec<S>)| p.0@)
}

/// The sum of the counts in `b` of each name of `names`.
pub open spec fn spec_count_sum<S>(b: Seq<(String, Vec<S>)>, names: Seq<Seq<char>>) -> nat
    decreases names.len(),
{
    if names.len() == 0 {
        0
    } else {
        spec_count_sum(b, names.drop_last()) + spec_count(b, names.last())
    }
}

proof fn lemma_count_sum_prefix<S>(b: Seq<(String, Vec<S>)>, k: int)
    requires
        spec_names_distinct(b),
        0 <= k <= b.len(),
    ensures
        spec_count_sum(b, spec_names(b).take(k)) == spec_total(b.take(k)),
    decreases k,
{
    if k > 0 {
        lemma_count_sum_prefix(b, k - 1);
        assert(spec_names(b).take(k).drop_last() =~= spec_names(b).take(k - 1));
        assert(b.take(k).drop_last() =~= b.take(k - 1));
        lemma_count_one(b, k - 1, b[k - 1].0@);
    }
}

/// Every subscriber of the bus is counted under exactly one event name:
/// the total is the sum of the counts of the names the bus holds, and
/// every other name counts none.
pub proof fn law_total_is_sum_of_counts<S>(bus: LuaEventBus<S>)
    requires
        bus.wf(),
    ensures
        spec_total(bus.buckets@) == spec_count_sum(bus.buckets@, spec_names(bus.buckets@)),
        forall|e: Seq<char>| !spec_names(bus.buckets@).contains(e) ==> #[trigger] bus.spec_count_of(e) == 0,
{
    let b = bus.buckets@;
    lemma_count_sum_prefix(b, b.len() as int);
    assert(spec_names(b).take(b.len() as int) =~= spec_names(b));
    assert(b.take(b.len() as int) =~= b);
    assert forall|e: Seq<char>| !spec_names(b).contains(e) implies #[trigger] bus.spec_count_of(e) == 0 by {
        assert forall|k: int| 0 <= k < b.len() implies (#[trigger] b[k]).0@ != e by {
            assert(spec_names(b)[k] == b[k].0@);
        }
        lemma_count_absent(b, e);
    }
}

/// The total over a prefix never exceeds the total.
proof fn lemma_total_prefix<S>(b: Seq<(String, Vec<S>)>, n: int)
    requires
        0 <= n <= b.len(),
    ensures
        spec_total(b.take(n)) <= spec_total(b),
    decreases b.len(),
{
    if n < b.len() {
        lemma_total_prefix(b.drop_last(), n);
        assert(b.drop_last().take(n) =~= b.take(n));
    } else {
        assert(b.take(n) =~= b);
    }
}

} // verus!
