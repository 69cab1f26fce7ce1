use vstd::prelude::*;
use std::collections::VecDeque;
use crate::text::str_eq;

verus! {

/// How many ids a filter built with capacity `cap` holds at most: `cap`,
/// or one when `cap` is zero (the newest id is always kept).
pub open spec fn window_bound(cap: nat) -> nat {
    if cap == 0 {
        1
    } else {
        cap
    }
}

/// No id occurs twice in `w`.
pub open spec fn no_repeats(w: Seq<Seq<char>>) -> bool {
    forall|i: int, j: int| 0 <= i < w.len() && 0 <= j < w.len() && i != j ==> w[i] != w[j]
}

/// The window of remembered ids after `id`, not yet in `w`, is accepted by a
/// filter of capacity `cap`: once `cap` ids are held the oldest one leaves,
/// then `id` joins at the newest end.
pub open spec fn remember(w: Seq<Seq<char>>, cap: nat, id: Seq<char>) -> Seq<Seq<char>> {
    let kept = if w.len() >= cap && w.len() > 0 {
        w.drop_first()
    } else {
        w
    };
    kept.push(id)
}

/// The window after the ids `ids` are offered one after another, starting
/// from `w`: an id already remembered is refused and changes nothing.
pub open spec fn offer_all(w: Seq<Seq<char>>, cap: nat, ids: Seq<Seq<char>>) -> Seq<Seq<char>>
    decreases ids.len(),
{
    if ids.len() == 0 {
        w
    } else {
        let before = offer_all(w, cap, ids.drop_last());
        if before.contains(ids.last()) {
            before
        } else {
            remember(before, cap, ids.last())
        }
    }
}

/// The last `n` elements of `s` (all of them when it has fewer).
pub open spec fn newest(s: Seq<Seq<char>>, n: nat) -> Seq<Seq<char>> {
    if s.len() <= n {
        s
    } else {
        s.subrange(s.len() - n, s.len() as int)
    }
}

/// One call made on a filter: `should_process` with an optional id, or `reset`.
pub enum FilterCall {
    Offer(Option<Seq<char>>),
    Reset,
}

/// The text of an optional id.
pub open spec fn opt_id(o: Option<&str>) -> Option<Seq<char>> {
    match o {
        Some(id) => Some(id@),
        None => None,
    }
}

/// Whether offering `id` to a filter whose window is `w` is answered `true`.
pub open spec fn offer_accepted(w: Seq<Seq<char>>, id: Option<Seq<char>>) -> bool {
    match id {
        Some(i) => !w.contains(i),
        None => true,
    }
}

/// The window after the call `c`, starting from `w`.
pub open spec fn window_after_call(w: Seq<Seq<char>>, cap: nat, c: FilterCall) -> Seq<Seq<char>> {
    match c {
        FilterCall::Reset => Seq::empty(),
        FilterCall::Offer(id) => match id {
            Some(i) => if w.contains(i) {
                w
            } else {
                remember(w, cap, i)
            },
            None => w,
        },
    }
}

/// The window of a filter of capacity `cap` after it is made empty and the
/// calls `calls` are made on it in turn.
pub open spec fn window_after_calls(cap: nat, calls: Seq<FilterCall>) -> Seq<Seq<char>>
    decreases calls.len(),
{
    if calls.len() == 0 {
        Seq::empty()
    } else {
        window_after_call(window_after_calls(cap, calls.drop_last()), cap, calls.last())
    }
}

/// How many of the calls `calls` since the last `reset` (or since the
/// filter was made) offered an id and were answered `true`.
pub open spec fn accepted_since_reset(cap: nat, calls: Seq<FilterCall>) -> nat
    decreases calls.len(),
{
    if calls.len() == 0 {
        0
    } else {
        let before = window_after_calls(cap, calls.drop_last());
        match calls.last() {
            FilterCall::Reset => 0,
            FilterCall::Offer(id) => accepted_since_reset(cap, calls.drop_last()) + if id is Some
                && offer_accepted(before, id) {
                1nat
            } else {
                0nat
            },
        }
    }
}

/// Decides whether a received message is new, remembering the ids of the
/// most recent messages accepted (first in, first out).
pub struct IdempotenceFilter {
    max_size: usize,
    order: VecDeque<String>,
}

impl IdempotenceFilter {
    /// The number of ids the filter was built to remember.
    pub closed spec fn capacity(&self) -> nat {
        self.max_size as nat
    }

    /// The remembered ids, oldest first.
    pub closed spec fn window(&self) -> Seq<Seq<char>> {
        self.order@.map_values(|s: String| s@)
    }

    #[verifier::type_invariant]
    closed spec fn well_formed(&self) -> bool {
        &&& self.window().len() <= window_bound(self.capacity())
        &&& no_repeats(self.window())
    }

    /// An empty filter that remembers up to `max_size` ids.
    pub fn new(max_size: usize) -> (r: Self)
        ensures
            r.capacity() == max_size,
            r.window() == Seq::<Seq<char>>::empty(),
    {
        let r = IdempotenceFilter { max_size, order: VecDeque::new() };
        assert(r.window() =~= Seq::<Seq<char>>::empty());
        r
    }

    /// Whether `id` is among the remembered ids.
    fn remembers(&self, id: &str) -> (r: bool)
        ensures
            r == self.window().contains(id@),
    {
        let n = self.order.len();
        let mut i: usize = 0;
        while i < n
            invariant
                i <= n,
                n == self.order@.len(),
                forall|j: int| 0 <= j < i ==> self.window()[j] != id@,
            decreases n - i,
        {
            let e: &String = &self.order[i];
            if str_eq(e.as_str(), id) {
                assert(self.window()[i as int] == id@);
                return true;
            }
            i = i + 1;
        }
        proof {
            if self.window().contains(id@) {
                let k = choose|k: int| 0 <= k < self.window().len() && self.window()[k] == id@;
                assert(self.window()[k] != id@);
            }
        }
        false
    }

    /// Returns `true` when the message should be handled, `false` when its
    /// id was seen recently. A message without an id is always handled and
    /// leaves the filter as it was; a new id is remembered, the oldest
    /// remembered id leaving once `max_size` ids are held.
    pub fn should_process(&mut self, message_id: Option<&str>) -> (r: bool)
        ensures
            final(self).capacity() == old(self).capacity(),
            r == offer_accepted(old(self).window(), opt_id(message_id)),
            final(self).window() == window_after_call(
                old(self).window(),
                old(self).capacity(),
                FilterCall::Offer(opt_id(message_id)),
            ),
            match message_id {
                None => r && final(self).window() == old(self).window(),
                Some(id) => {
                    &&& r == !old(self).window().contains(id@)
                    &&& final(self).window() == if r {
                        remember(old(self).window(), old(self).capacity(), id@)
                    } else {
                        old(self).window()
                    }
                },
            },
    {
        proof {
            use_type_invariant(&*self);
        }
        let id = match message_id {
            None => {
                return true;
            },
            Some(id) => id,
        };
        if self.remembers(id) {
            return false;
        }
        let owned: String = id.to_owned();
        let ghost w = self.window();
        let ghost cap = self.capacity();
        let mut order: VecDeque<String> = VecDeque::new();
        std::mem::swap(&mut order, &mut self.order);
        assert(order@.map_values(|s: String| s@) =~= w);
        if order.len() >= self.max_size {
            let _oldest = order.pop_front();
        }
        let ghost kept = order@.map_values(|s: String| s@);
        assert(kept =~= if w.len() >= cap && w.len() > 0 { w.drop_first() } else { w });
        order.push_back(owned);
        assert(order@.map_values(|s: String| s@) =~= remember(w, cap, id@));
        proof {
            lemma_remember_keeps_invariant(w, cap, id@);
        }
        self.order = order;
        true
    }

    /// Forgets every remembered id.
    pub fn reset(&mut self)
        ensures
            final(self).capacity() == old(self).capacity(),
            final(self).window() == Seq::<Seq<char>>::empty(),
            final(self).window() == window_after_call(old(self).window(), old(self).capacity(), FilterCall::Reset),
    {
        self.order = VecDeque::new();
        assert(self.window() =~= Seq::<Seq<char>>::empty());
    }

    /// How many ids are remembered.
    pub fn len(&self) -> (r: usize)
        ensures
            r == self.window().len(),
            r <= window_bound(self.capacity()),
            no_repeats(self.window()),
    {
        proof {
            use_type_invariant(self);
        }
        self.order.len()
    }

    /// Whether no id is remembered.
    pub fn is_empty(&self) -> (r: bool)
        ensures
            r == (self.window().len() == 0),
    {
        self.len() == 0
    }
}

/// Remembering a new id keeps the window within its bound and free of repeats.
pub proof fn lemma_remember_keeps_invariant(w: Seq<Seq<char>>, cap: nat, id: Seq<char>)
    requires
        w.len() <= window_bound(cap),
        no_repeats(w),
        !w.contains(id),
    ensures
        remember(w, cap, id).len() <= window_bound(cap),
        no_repeats(remember(w, cap, id)),
        remember(w, cap, id).contains(id),
{
    let r = remember(w, cap, id);
    let kept = if w.len() >= cap && w.len() > 0 { w.drop_first() } else { w };
    assert(r[r.len() - 1] == id);
    assert forall|i: int, j: int| 0 <= i < r.len() && 0 <= j < r.len() && i != j implies r[i] != r[j] by {
        if i < kept.len() && j < kept.len() {
            if kept.len() < w.len() {
                assert(kept[i] == w[i + 1] && kept[j] == w[j + 1]);
            }
        } else if i < kept.len() {
            if kept.len() < w.len() {
                assert(kept[i] == w[i + 1]);
            } else {
                assert(kept[i] == w[i]);
            }
        } else if j < kept.len() {
            if kept.len() < w.len() {
                assert(kept[j] == w[j + 1]);
            } else {
                assert(kept[j] == w[j]);
            }
        }
    }
}


/// Law: an id that has just been accepted is refused when it is offered again.
pub proof fn law_accepted_id_refused_next(w: Seq<Seq<char>>, cap: nat, id: Seq<char>)
    ensures
        remember(w, cap, id).contains(id),
{
    assert(remember(w, cap, id)[remember(w, cap, id).len() - 1] == id);
}

/// Law: accepting a new id leaves the newest `window_bound(cap)` ids of the
/// window followed by that id, in the order they were accepted.
pub proof fn law_remember_keeps_newest(w: Seq<Seq<char>>, cap: nat, id: Seq<char>)
    requires
        w.len() <= window_bound(cap),
    ensures
        remember(w, cap, id) == newest(w.push(id), window_bound(cap)),
{
    let b = window_bound(cap);
    let s = w.push(id);
    if s.len() > b {
        assert(remember(w, cap, id) =~= s.subrange(s.len() - b, s.len() as int));
    } else {
        assert(remember(w, cap, id) =~= s);
    }
}

proof fn lemma_newest_push(s: Seq<Seq<char>>, b: nat, x: Seq<char>)
    requires
        b >= 1,
    ensures
        newest(newest(s, b).push(x), b) == newest(s.push(x), b),
{
    let t = s.push(x);
    if s.len() <= b {
        assert(newest(s, b) == s);
    } else {
        let n = newest(s, b);
        assert(n.len() == b);
        assert(newest(n.push(x), b) =~= t.subrange(t.len() - b, t.len() as int));
    }
}

/// Law: offered ids that are all new and all different are remembered first
/// in, first out: the window then holds the newest `window_bound(cap)` of the
/// old window followed by those ids.
pub proof fn law_fresh_ids_first_in_first_out(w: Seq<Seq<char>>, cap: nat, fresh: Seq<Seq<char>>)
    requires
        w.len() <= window_bound(cap),
        no_repeats(w + fresh),
    ensures
        offer_all(w, cap, fresh) == newest(w + fresh, window_bound(cap)),
    decreases fresh.len(),
{
    let b = window_bound(cap);
    if fresh.len() == 0 {
        assert(w + fresh =~= w);
    } else {
        let f = fresh.drop_last();
        let x = fresh.last();
        assert((w + f) + seq![x] =~= w + fresh);
        assert(no_repeats(w + f)) by {
            assert forall|i: int, j: int|
                0 <= i < (w + f).len() && 0 <= j < (w + f).len() && i != j implies (w + f)[i] != (
                w + f)[j] by {
                assert((w + f)[i] == (w + fresh)[i]);
                assert((w + f)[j] == (w + fresh)[j]);
            }
        }
        law_fresh_ids_first_in_first_out(w, cap, f);
        let before = offer_all(w, cap, f);
        assert(before == newest(w + f, b));
        assert(!before.contains(x)) by {
            if before.contains(x) {
                let k = choose|k: int| 0 <= k < before.len() && before[k] == x;
                let wf = w + f;
                let idx = if wf.len() <= b { k } else { wf.len() - b + k };
                assert(wf[idx] == x);
                assert((w + fresh)[idx] == (w + fresh)[(w + fresh).len() - 1]);
            }
        }
        assert(before.len() <= b);
        law_remember_keeps_newest(before, cap, x);
        lemma_newest_push(w + f, b, x);
        assert((w + f).push(x) =~= w + fresh);
    }
}

/// Law: among ids that are all new and all different, offered one after
/// another, the one offered at position `j` is still remembered (and so
/// would be refused) exactly when fewer than `window_bound(cap)` ids were
/// accepted after it.
pub proof fn law_fresh_id_remembered_until_evicted(
    w: Seq<Seq<char>>,
    cap: nat,
    fresh: Seq<Seq<char>>,
    j: int,
)
    requires
        w.len() <= window_bound(cap),
        no_repeats(w + fresh),
        0 <= j < fresh.len(),
    ensures
        offer_all(w, cap, fresh).contains(fresh[j]) <==> fresh.len() - j <= window_bound(cap),
{
    law_fresh_ids_first_in_first_out(w, cap, fresh);
    let b = window_bound(cap);
    let s = w + fresh;
    let p = w.len() + j;
    assert(s[p] == fresh[j]);
    let r = newest(s, b);
    let start: int = if s.len() <= b { 0 } else { s.len() - b };
    assert(forall|k: int| 0 <= k < r.len() ==> r[k] == s[start + k]);
    if fresh.len() - j <= b {
        assert(r[p - start] == fresh[j]);
    } else {
        if r.contains(fresh[j]) {
            let k = choose|k: int| 0 <= k < r.len() && r[k] == fresh[j];
            assert(s[start + k] == s[p]);
        }
    }
}

/// Law: after a filter of capacity `cap` is made and any sequence of
/// `should_process` and `reset` calls is made on it, it holds exactly
/// `min(k, window_bound(cap))` ids, where `k` counts the calls since the
/// last reset that offered an id and were answered `true`; no id is held
/// twice.
pub proof fn law_len_counts_accepted_ids(cap: nat, calls: Seq<FilterCall>)
    ensures
        window_after_calls(cap, calls).len() == if accepted_since_reset(cap, calls) < window_bound(cap) {
            accepted_since_reset(cap, calls)
        } else {
            window_bound(cap)
        },
        no_repeats(window_after_calls(cap, calls)),
    decreases calls.len(),
{
    if calls.len() > 0 {
        let prev = calls.drop_last();
        law_len_counts_accepted_ids(cap, prev);
        let w = window_after_calls(cap, prev);
        match calls.last() {
            FilterCall::Reset => {
                assert(no_repeats(Seq::<Seq<char>>::empty()));
            },
            FilterCall::Offer(id) => match id {
                Some(i) => {
                    if !w.contains(i) {
                        lemma_remember_keeps_invariant(w, cap, i);
                    }
                },
                None => {},
            },
        }
    }
}

/// Law: a filter built to remember `cap >= 1` ids keeps every new id
/// without evicting anything while it holds fewer than `cap` ids.
pub proof fn law_no_eviction_below_capacity(w: Seq<Seq<char>>, cap: nat, id: Seq<char>)
    requires
        cap >= 1,
        w.len() < cap,
    ensures
        remember(w, cap, id) == w.push(id),
        remember(w, cap, id).len() == w.len() + 1,
{
}

/// Law: a filter built to remember `cap >= 1` ids that holds `cap` ids
/// evicts exactly its oldest id when it accepts a new one, and so keeps
/// holding `cap` ids.
pub proof fn law_full_window_evicts_oldest(w: Seq<Seq<char>>, cap: nat, id: Seq<char>)
    requires
        cap >= 1,
        w.len() == cap,
    ensures
        remember(w, cap, id) == w.subrange(1, w.len() as int).push(id),
        remember(w, cap, id).len() == cap,
{
}

/// Law: for any capacity `cap >= 1`, after any sequence of calls a filter
/// holds `min(k, cap)` ids, `k` being the ids accepted since the last reset;
/// so `cap` distinct new ids are all held at once, whatever `cap` is.
pub proof fn law_len_counts_accepted_ids_up_to_capacity(cap: nat, calls: Seq<FilterCall>)
    requires
        cap >= 1,
    ensures
        window_after_calls(cap, calls).len() == if accepted_since_reset(cap, calls) < cap {
            accepted_since_reset(cap, calls)
        } else {
            cap
        },
{
    law_len_counts_accepted_ids(cap, calls);
}

/// Law: an id accepted by a filter of capacity `cap >= 1` that starts
/// empty is still refused after `cap - 1` further new ids are accepted,
/// and no longer after `cap` of them.
pub proof fn law_id_refused_for_capacity_acceptances(cap: nat, fresh: Seq<Seq<char>>)
    requires
        cap >= 1,
        fresh.len() >= 1,
        no_repeats(fresh),
    ensures
        offer_all(Seq::empty(), cap, fresh).contains(fresh[0]) <==> fresh.len() <= cap,
{
    assert(Seq::<Seq<char>>::empty() + fresh =~= fresh);
    law_fresh_id_remembered_until_evicted(Seq::empty(), cap, fresh, 0);
}

} // verus!
