//! The subscriptions of the publisher: who receives the events of which log-id of which
//! crate, and who receives all events.
//!
//! Subscribers are numbered; the publisher keeps a channel per number and sends each event
//! to the subscribers these subscriptions name for it.
use crate::log_id::{LogId, LogIdView};
use crate::text::{chars_eq, chars_of};
use vstd::prelude::*;
use vstd::std_specs::cmp::PartialEqSpecImpl;

verus! {

/// The key of the subscriptions to the log-id `log_id` of the crate `crate_name`.
#[derive(Debug, Hash)]
pub struct SubscriptionKey {
    crate_name: &'static str,
    log_id: LogId,
}

/// The mathematical model of a [`SubscriptionKey`].
#[verifier::ext_equal]
pub struct SubscriptionKeyView {
    pub crate_name: Seq<char>,
    pub log_id: LogIdView,
}

impl View for SubscriptionKey {
    type V = SubscriptionKeyView;

    closed spec fn view(&self) -> SubscriptionKeyView {
        SubscriptionKeyView { crate_name: self.crate_name@, log_id: self.log_id@ }
    }
}

impl SubscriptionKey {
    /// The key of the subscriptions to the log-id `log_id` of the crate `crate_name`.
    pub fn new(crate_name: &'static str, log_id: LogId) -> (r: Self)
        ensures
            r@ == (SubscriptionKeyView { crate_name: crate_name@, log_id: log_id@ }),
    {
        SubscriptionKey { crate_name, log_id }
    }

    /// The crate of this key.
    pub fn get_crate_name(&self) -> (r: &'static str)
        ensures
            r@ == self@.crate_name,
    {
        self.crate_name
    }

    /// The log-id of this key.
    pub fn get_log_id(&self) -> (r: LogId)
        ensures
            r@ == self@.log_id,
    {
        self.log_id
    }
}

impl PartialEq for SubscriptionKey {
    fn eq(&self, other: &Self) -> (r: bool) {
        let a = chars_of(self.crate_name);
        let b = chars_of(other.crate_name);
        chars_eq(&a, &b) && self.log_id == other.log_id
    }
}

impl PartialEqSpecImpl for SubscriptionKey {
    open spec fn obeys_eq_spec() -> bool {
        true
    }

    open spec fn eq_spec(&self, other: &SubscriptionKey) -> bool {
        self@ == other@
    }
}

impl Eq for SubscriptionKey {

}

/// The subscriber numbers listed under `key`, in the order they subscribed; none if the key
/// has no list.
pub open spec fn listed(keys: Seq<SubscriptionKeyView>, lists: Seq<Seq<usize>>, key: SubscriptionKeyView) -> Seq<usize>
    decreases keys.len(),
{
    if keys.len() == 0 || lists.len() == 0 {
        Seq::empty()
    } else if keys.last() == key {
        lists.last()
    } else {
        listed(keys.drop_last(), lists.drop_last(), key)
    }
}

/// The mathematical model of [`Subscriptions`].
pub struct SubscriptionsView {
    /// The keys that have a list, each once.
    pub keys: Seq<SubscriptionKeyView>,
    /// The list of each key.
    pub lists: Seq<Seq<usize>>,
    /// The subscribers of all events.
    pub any_event: Seq<usize>,
}

impl SubscriptionsView {
    /// The subscribers of the events of `key`.
    pub open spec fn of(self, key: SubscriptionKeyView) -> Seq<usize> {
        listed(self.keys, self.lists, key)
    }
}

/// The subscriptions of the publisher.
pub struct Subscriptions {
    keys: Vec<SubscriptionKey>,
    lists: Vec<Vec<usize>>,
    any_event: Vec<usize>,
}

/// The model of the lists `v`.
pub open spec fn lists_view(v: Seq<Vec<usize>>) -> Seq<Seq<usize>> {
    v.map_values(|l: Vec<usize>| l@)
}

/// The model of the keys `v`.
pub open spec fn keys_view(v: Seq<SubscriptionKey>) -> Seq<SubscriptionKeyView> {
    v.map_values(|k: SubscriptionKey| k@)
}

impl View for Subscriptions {
    type V = SubscriptionsView;

    closed spec fn view(&self) -> SubscriptionsView {
        SubscriptionsView {
            keys: keys_view(self.keys@),
            lists: lists_view(self.lists@),
            any_event: self.any_event@,
        }
    }
}

/// The subscribers of `key` after `s` subscribed to each key of `keys`, one after the other.
pub open spec fn after_subscribing(before: Seq<usize>, keys: Seq<SubscriptionKeyView>, key: SubscriptionKeyView, s: usize) -> Seq<usize>
    decreases keys.len(),
{
    if keys.len() == 0 {
        before
    } else if keys.last() == key {
        after_subscribing(before, keys.drop_last(), key, s).push(s)
    } else {
        after_subscribing(before, keys.drop_last(), key, s)
    }
}

/// The entries of `v` whose delivery did not fail: the entry at position `i` stays unless
/// `sent` has a position `i` that does not hold; entries beyond `sent` stay.
pub open spec fn keep_delivered(v: Seq<usize>, sent: Seq<bool>) -> Seq<usize>
    decreases v.len(),
{
    if v.len() == 0 {
        Seq::empty()
    } else if v.len() - 1 < sent.len() && !sent[v.len() - 1] {
        keep_delivered(v.drop_last(), sent)
    } else {
        keep_delivered(v.drop_last(), sent).push(v.last())
    }
}

/// The keys of the log-ids `ids` of the crate `crate_name`.
pub open spec fn crate_keys(crate_name: &'static str, ids: Seq<LogId>) -> Seq<SubscriptionKeyView> {
    ids.map_values(|id: LogId| SubscriptionKeyView { crate_name: crate_name@, log_id: id@ })
}

/// The keys of the log-ids of each crate of `crate_logs`, crate by crate.
pub open spec fn all_keys(crate_logs: Seq<(&'static str, Vec<LogId>)>) -> Seq<SubscriptionKeyView>
    decreases crate_logs.len(),
{
    if crate_logs.len() == 0 {
        Seq::empty()
    } else {
        all_keys(crate_logs.drop_last()) + crate_keys(crate_logs.last().0, crate_logs.last().1@)
    }
}

/// The keys `keys` are listed once each, and each has a list in `lists`.
spec fn parts_wf(keys: Seq<SubscriptionKey>, lists: Seq<Vec<usize>>) -> bool {
    &&& keys.len() == lists.len()
    &&& forall|a: int, b: int| 0 <= a < keys.len() && 0 <= b < keys.len() && a != b ==> keys[a]@ != keys[b]@
}

/// The subscribers listed under `key` in the parts `keys` and `lists`.
spec fn parts_of(keys: Seq<SubscriptionKey>, lists: Seq<Vec<usize>>, key: SubscriptionKeyView) -> Seq<usize> {
    listed(keys_view(keys), lists_view(lists), key)
}

/// The index of `key` among `keys`, if it is there.
fn position(keys: &Vec<SubscriptionKey>, key: &SubscriptionKey) -> (r: Option<usize>)
    ensures
        match r {
            Some(i) => i < keys.len() && keys@[i as int]@ == key@,
            None => forall|i: int| 0 <= i < keys.len() ==> keys@[i]@ != key@,
        },
{
    let mut i: usize = 0;
    while i < keys.len()
        invariant
            i <= keys.len(),
            forall|j: int| 0 <= j < i ==> keys@[j]@ != key@,
        decreases keys.len() - i,
    {
        if keys[i] == *key {
            return Some(i);
        }
        i = i + 1;
    }
    None
}

/// The list of the key at index `i` is what is listed under that key.
proof fn lemma_listed_at(keys: Seq<SubscriptionKey>, lists: Seq<Vec<usize>>, i: int)
    requires
        parts_wf(keys, lists),
        0 <= i < keys.len(),
    ensures
        parts_of(keys, lists, keys[i]@) == lists[i]@,
{
    lemma_listed_distinct(keys_view(keys), lists_view(lists), i);
}

/// A key that is not among `keys` has no subscribers.
proof fn lemma_listed_absent(keys: Seq<SubscriptionKey>, lists: Seq<Vec<usize>>, key: SubscriptionKeyView)
    requires
        forall|i: int| 0 <= i < keys.len() ==> keys[i]@ != key,
    ensures
        parts_of(keys, lists, key) == Seq::<usize>::empty(),
{
    lemma_listed_missing(keys_view(keys), lists_view(lists), key);
}

impl Subscriptions {
    /// The keys are listed once each, and each has a list.
    #[verifier::type_invariant]
    spec fn wf(&self) -> bool {
        parts_wf(self.keys@, self.lists@)
    }

    /// No subscriptions.
    pub fn new() -> (r: Self)
        ensures
            forall|k: SubscriptionKeyView| r@.of(k).len() == 0,
            r@.any_event.len() == 0,
    {
        Subscriptions { keys: Vec::new(), lists: Vec::new(), any_event: Vec::new() }
    }

    /// Takes the parts out of these subscriptions, leaving none.
    fn take_parts(&mut self) -> (r: (Vec<SubscriptionKey>, Vec<Vec<usize>>, Vec<usize>))
        ensures
            r.0@ == old(self).keys@,
            r.1@ == old(self).lists@,
            r.2@ == old(self).any_event@,
            parts_wf(r.0@, r.1@),
    {
        proof {
            use_type_invariant(&*self);
        }
        let mut this = Subscriptions::new();
        std::mem::swap(&mut this, self);
        let Subscriptions { keys, lists, any_event } = this;
        (keys, lists, any_event)
    }

    /// The subscribers of the events of `key`, in the order they subscribed.
    pub fn subscribers(&self, key: &SubscriptionKey) -> (r: Vec<usize>)
        ensures
            r@ == self@.of(key@),
    {
        proof {
            use_type_invariant(&*self);
        }
        match position(&self.keys, key) {
            Some(i) => {
                proof {
                    lemma_listed_at(self.keys@, self.lists@, i as int);
                }
                let l = &self.lists[i];
                let mut r: Vec<usize> = Vec::new();
                let mut j: usize = 0;
                while j < l.len()
                    invariant
                        j <= l.len(),
                        r@ == l@.take(j as int),
                    decreases l.len() - j,
                {
                    r.push(l[j]);
                    j = j + 1;
                    assert(r@ =~= l@.take(j as int));
                }
                assert(l@.take(l.len() as int) =~= l@);
                r
            },
            None => {
                proof {
                    lemma_listed_absent(self.keys@, self.lists@, key@);
                }
                Vec::new()
            },
        }
    }

    /// The subscribers of all events, in the order they subscribed.
    pub fn all_event_subscribers(&self) -> (r: &Vec<usize>)
        ensures
            r@ == self@.any_event,
    {
        &self.any_event
    }
}

/// Replacing the list at `i` changes what is listed under the key at `i` only.
proof fn lemma_listed_update(keys: Seq<SubscriptionKeyView>, lists: Seq<Seq<usize>>, i: int, x: Seq<usize>, key: SubscriptionKeyView)
    requires
        keys.len() == lists.len(),
        0 <= i < keys.len(),
        forall|a: int, b: int| 0 <= a < keys.len() && 0 <= b < keys.len() && a != b ==> keys[a] != keys[b],
    ensures
        listed(keys, lists.update(i, x), key) == if key == keys[i] {
            x
        } else {
            listed(keys, lists, key)
        },
    decreases keys.len(),
{
    let upd = lists.update(i, x);
    if i == keys.len() - 1 {
        assert(upd.drop_last() =~= lists.drop_last());
        if key != keys[i] {
        }
    } else {
        assert(upd.drop_last() =~= lists.drop_last().update(i, x));
        assert(keys.drop_last()[i] == keys[i]);
        assert(keys.last() != keys[i]);
        lemma_listed_update(keys.drop_last(), lists.drop_last(), i, x, key);
    }
}

/// Keeps in `l` the entries whose delivery did not fail (see [`keep_delivered`]).
fn drop_undelivered(l: &mut Vec<usize>, sent: &Vec<bool>)
    ensures
        final(l)@ == keep_delivered(old(l)@, sent@),
{
    let mut kept: Vec<usize> = Vec::new();
    let mut i: usize = 0;
    while i < l.len()
        invariant
            i <= l.len(),
            l@ == old(l)@,
            kept@ == keep_delivered(l@.take(i as int), sent@),
        decreases l.len() - i,
    {
        assert(l@.take(i + 1).drop_last() =~= l@.take(i as int));
        assert(l@.take(i + 1).last() == l@[i as int]);
        if i >= sent.len() || sent[i] {
            kept.push(l[i]);
        }
        i = i + 1;
    }
    assert(l@.take(l.len() as int) =~= l@);
    *l = kept;
}

impl Subscriptions {
    /// Subscribes the subscriber `s` to the events of `key`.
    pub fn subscribe(&mut self, key: SubscriptionKey, s: usize)
        ensures
            forall|k: SubscriptionKeyView| #[trigger] final(self)@.of(k) == if k == key@ {
                old(self)@.of(k).push(s)
            } else {
                old(self)@.of(k)
            },
            final(self)@.any_event == old(self)@.any_event,
    {
        let (mut keys, mut lists, any_event) = self.take_parts();
        let ghost kv = keys_view(keys@);
        let ghost lv = lists_view(lists@);
        assert(forall|k: SubscriptionKeyView| old(self)@.of(k) == parts_of(keys@, lists@, k));
        match position(&keys, &key) {
            Some(i) => {
                proof {
                    lemma_listed_at(keys@, lists@, i as int);
                }
                let ghost before = lists@[i as int]@;
                lists[i].push(s);
                proof {
                    assert(lists_view(lists@) =~= lv.update(i as int, before.push(s)));
                    assert(keys_view(keys@) == kv);
                    assert forall|k: SubscriptionKeyView| #[trigger] parts_of(keys@, lists@, k) == if k == key@ {
                        old(self)@.of(k).push(s)
                    } else {
                        old(self)@.of(k)
                    } by {
                        lemma_listed_update(kv, lv, i as int, before.push(s), k);
                    }
                }
            },
            None => {
                proof {
                    lemma_listed_absent(keys@, lists@, key@);
                }
                let ghost kk = key@;
                keys.push(key);
                let single: Vec<usize> = vec![s];
                assert(single@ =~= seq![s]);
                lists.push(single);
                proof {
                    assert(keys_view(keys@) =~= kv.push(kk));
                    assert(lists_view(lists@) =~= lv.push(seq![s]));
                    assert(keys_view(keys@).drop_last() =~= kv);
                    assert(lists_view(lists@).drop_last() =~= lv);
                    assert(old(self)@.of(kk) =~= Seq::<usize>::empty());
                    assert(seq![s] =~= Seq::<usize>::empty().push(s));
                    assert forall|k: SubscriptionKeyView| #[trigger] parts_of(keys@, lists@, k) == if k == kk {
                        old(self)@.of(k).push(s)
                    } else {
                        old(self)@.of(k)
                    } by {}
                    assert forall|a: int, b: int| 0 <= a < keys.len() && 0 <= b < keys.len() && a != b
                        implies keys@[a]@ != keys@[b]@ by {
                        if a < keys.len() - 1 && b < keys.len() - 1 {
                            assert(keys@[a] == old(self).keys@[a]);
                            assert(keys@[b] == old(self).keys@[b]);
                        } else if a == keys.len() - 1 {
                            assert(keys@[b] == old(self).keys@[b]);
                        } else {
                            assert(keys@[a] == old(self).keys@[a]);
                        }
                    }
                }
            },
        }
        let ghost fk = keys@;
        let ghost fl = lists@;
        *self = Subscriptions { keys, lists, any_event };
        assert(forall|k: SubscriptionKeyView| #[trigger] self@.of(k) == parts_of(fk, fl, k));
    }

    /// Subscribes the subscriber `s` to the events of each log-id of each crate of
    /// `crate_logs`.
    pub fn subscribe_to_crates(&mut self, crate_logs: &Vec<(&'static str, Vec<LogId>)>, s: usize)
        ensures
            forall|k: SubscriptionKeyView| #[trigger] final(self)@.of(k) == after_subscribing(
                old(self)@.of(k),
                all_keys(crate_logs@),
                k,
                s,
            ),
            final(self)@.any_event == old(self)@.any_event,
    {
        let mut i: usize = 0;
        while i < crate_logs.len()
            invariant
                i <= crate_logs.len(),
                self@.any_event == old(self)@.any_event,
                forall|k: SubscriptionKeyView| #[trigger] self@.of(k) == after_subscribing(
                    old(self)@.of(k),
                    all_keys(crate_logs@.take(i as int)),
                    k,
                    s,
                ),
            decreases crate_logs.len() - i,
        {
            let crate_name = crate_logs[i].0;
            let ids = &crate_logs[i].1;
            let ghost done = all_keys(crate_logs@.take(i as int));
            let mut j: usize = 0;
            while j < ids.len()
                invariant
                    j <= ids.len(),
                    self@.any_event == old(self)@.any_event,
                    forall|k: SubscriptionKeyView| #[trigger] self@.of(k) == after_subscribing(
                        old(self)@.of(k),
                        done + crate_keys(crate_name, ids@.take(j as int)),
                        k,
                        s,
                    ),
                decreases ids.len() - j,
            {
                let key = SubscriptionKey::new(crate_name, ids[j]);
                let ghost kk = key@;
                let ghost prev = done + crate_keys(crate_name, ids@.take(j as int));
                self.subscribe(key, s);
                proof {
                    let next = done + crate_keys(crate_name, ids@.take(j + 1));
                    assert(crate_keys(crate_name, ids@.take(j + 1)) =~= crate_keys(crate_name, ids@.take(j as int)).push(kk));
                    assert(next =~= prev.push(kk));
                    assert(next.drop_last() =~= prev);
                    assert forall|k: SubscriptionKeyView| #[trigger] self@.of(k) == after_subscribing(
                        old(self)@.of(k),
                        next,
                        k,
                        s,
                    ) by {}
                }
                j = j + 1;
            }
            proof {
                assert(ids@.take(ids.len() as int) =~= ids@);
                assert(crate_logs@.take(i + 1).drop_last() =~= crate_logs@.take(i as int));
                assert(crate_logs@.take(i + 1).last() == crate_logs@[i as int]);
                assert(all_keys(crate_logs@.take(i + 1)) == done + crate_keys(crate_name, ids@));
            }
            i = i + 1;
        }
        assert(crate_logs@.take(crate_logs.len() as int) =~= crate_logs@);
    }

    /// Subscribes the subscriber `s` to the events of each of the log-ids `log_ids` of the
    /// crate `crate_name`: the same as subscribing it to the one-crate list of them.
    pub fn subscribe_to_logs(&mut self, crate_name: &'static str, log_ids: Vec<LogId>, s: usize)
        ensures
            forall|k: SubscriptionKeyView| #[trigger] final(self)@.of(k) == after_subscribing(
                old(self)@.of(k),
                crate_keys(crate_name, log_ids@),
                k,
                s,
            ),
            final(self)@.any_event == old(self)@.any_event,
    {
        let crate_logs = vec![(crate_name, log_ids)];
        proof {
            lemma_one_crate_keys(crate_logs@);
        }
        self.subscribe_to_crates(&crate_logs, s);
    }

    /// Subscribes the subscriber `s` to all events.
    pub fn subscribe_to_all_events(&mut self, s: usize)
        ensures
            final(self)@.keys == old(self)@.keys,
            final(self)@.lists == old(self)@.lists,
            final(self)@.any_event == old(self)@.any_event.push(s),
    {
        let (keys, lists, mut any_event) = self.take_parts();
        any_event.push(s);
        *self = Subscriptions { keys, lists, any_event };
    }

    /// Drops from the subscribers of `key` those whose delivery failed: `sent` tells, for
    /// each listed subscriber in order, whether the event reached it; subscribers beyond
    /// `sent` stay.
    pub fn remove_undelivered(&mut self, key: &SubscriptionKey, sent: &Vec<bool>)
        ensures
            forall|k: SubscriptionKeyView| #[trigger] final(self)@.of(k) == if k == key@ {
                keep_delivered(old(self)@.of(k), sent@)
            } else {
                old(self)@.of(k)
            },
            final(self)@.any_event == old(self)@.any_event,
    {
        let (keys, mut lists, any_event) = self.take_parts();
        let ghost kv = keys_view(keys@);
        let ghost lv = lists_view(lists@);
        assert(forall|k: SubscriptionKeyView| old(self)@.of(k) == parts_of(keys@, lists@, k));
        match position(&keys, key) {
            Some(i) => {
                proof {
                    lemma_listed_at(keys@, lists@, i as int);
                }
                let ghost before = lists@[i as int]@;
                drop_undelivered(&mut lists[i], sent);
                proof {
                    let after = keep_delivered(before, sent@);
                    assert(lists_view(lists@) =~= lv.update(i as int, after));
                    assert(keys_view(keys@) == kv);
                    assert forall|k: SubscriptionKeyView| #[trigger] parts_of(keys@, lists@, k) == if k == key@ {
                        keep_delivered(old(self)@.of(k), sent@)
                    } else {
                        old(self)@.of(k)
                    } by {
                        lemma_listed_update(kv, lv, i as int, after, k);
                    }
                }
            },
            None => {
                proof {
                    lemma_listed_absent(keys@, lists@, key@);
                    assert(old(self)@.of(key@) =~= Seq::<usize>::empty());
                    assert(keep_delivered(Seq::<usize>::empty(), sent@) =~= Seq::<usize>::empty());
                }
            },
        }
        let ghost fk = keys@;
        let ghost fl = lists@;
        *self = Subscriptions { keys, lists, any_event };
        assert(forall|k: SubscriptionKeyView| #[trigger] self@.of(k) == parts_of(fk, fl, k));
    }

    /// Drops from the subscribers of all events those whose delivery failed: `sent` tells, for
    /// each of them in order, whether the event reached it; subscribers beyond `sent` stay.
    pub fn remove_undelivered_any(&mut self, sent: &Vec<bool>)
        ensures
            final(self)@.keys == old(self)@.keys,
            final(self)@.lists == old(self)@.lists,
            final(self)@.any_event == keep_delivered(old(self)@.any_event, sent@),
    {
        let (keys, lists, mut any_event) = self.take_parts();
        drop_undelivered(&mut any_event, sent);
        *self = Subscriptions { keys, lists, any_event };
    }
}

/// The keys of a one-crate list are those of its crate's log-ids.
pub proof fn lemma_one_crate_keys(crate_logs: Seq<(&'static str, Vec<LogId>)>)
    requires
        crate_logs.len() == 1,
    ensures
        all_keys(crate_logs) == crate_keys(crate_logs[0].0, crate_logs[0].1@),
{
    assert(crate_logs.drop_last() =~= Seq::<(&'static str, Vec<LogId>)>::empty());
    assert(all_keys(crate_logs.drop_last()) =~= Seq::<SubscriptionKeyView>::empty());
    assert(Seq::<SubscriptionKeyView>::empty() + crate_keys(crate_logs[0].0, crate_logs[0].1@)
        =~= crate_keys(crate_logs[0].0, crate_logs[0].1@));
}

/// Subscribing to the one log-id `id` of the crate `crate_name` adds the subscriber to the
/// list of that key alone, as [`Subscriptions::subscribe`] does with its key.
pub proof fn lemma_subscribe_one(before: Seq<usize>, crate_name: &'static str, id: LogId, k: SubscriptionKeyView, s: usize)
    ensures
        after_subscribing(before, crate_keys(crate_name, seq![id]), k, s) == if k == (SubscriptionKeyView {
            crate_name: crate_name@,
            log_id: id@,
        }) {
            before.push(s)
        } else {
            before
        },
{
    let keys = crate_keys(crate_name, seq![id]);
    assert(keys.len() == 1);
    assert(keys.drop_last() =~= Seq::<SubscriptionKeyView>::empty());
    assert(keys.last() == SubscriptionKeyView { crate_name: crate_name@, log_id: id@ });
    assert(after_subscribing(before, keys.drop_last(), k, s) == before);
}

/// In a sequence of distinct keys, the list of the key at `i` is what is listed under it.
proof fn lemma_listed_distinct(keys: Seq<SubscriptionKeyView>, lists: Seq<Seq<usize>>, i: int)
    requires
        keys.len() == lists.len(),
        0 <= i < keys.len(),
        forall|a: int, b: int| 0 <= a < keys.len() && 0 <= b < keys.len() && a != b ==> keys[a] != keys[b],
    ensures
        listed(keys, lists, keys[i]) == lists[i],
    decreases keys.len(),
{
    if i < keys.len() - 1 {
        assert(keys.last() != keys[i]);
        assert(keys.drop_last()[i] == keys[i]);
        lemma_listed_distinct(keys.drop_last(), lists.drop_last(), i);
    }
}

/// A key that is not among the keys has no list.
proof fn lemma_listed_missing(keys: Seq<SubscriptionKeyView>, lists: Seq<Seq<usize>>, key: SubscriptionKeyView)
    requires
        forall|i: int| 0 <= i < keys.len() ==> keys[i] != key,
    ensures
        listed(keys, lists, key) == Seq::<usize>::empty(),
    decreases keys.len(),
{
    if keys.len() > 0 && lists.len() > 0 {
        assert(keys[keys.len() - 1] != key);
        lemma_listed_missing(keys.drop_last(), lists.drop_last(), key);
    }
}

} // verus!
