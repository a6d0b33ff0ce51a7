use vstd::prelude::*;

verus! {

broadcast use vstd::seq_lib::group_to_multiset_ensures;

/// One entry of a feed, reduced to what is stored and rendered.
#[derive(Debug)]
pub struct DatabaseFeedItem {
    /// The feed's identifier.
    pub feed_name: String,
    /// The entry's stable identifier within the feed.
    pub external_id: String,
    /// Publication instant, in seconds since the Unix epoch (0 when unknown).
    pub published_at: i64,
    /// Template variables, name then value.
    pub variables: Vec<(String, String)>,
}

/// Publication times never decrease along `s`.
pub open spec fn sorted_by_published(s: Seq<DatabaseFeedItem>) -> bool {
    forall|i: int, j: int| 0 <= i < j < s.len() ==> s[i].published_at <= s[j].published_at
}

/// The items of `s` published at instant `t`, in their order in `s`.
pub open spec fn published_at_time(s: Seq<DatabaseFeedItem>, t: i64) -> Seq<DatabaseFeedItem>
    decreases s.len(),
{
    if s.len() == 0 {
        Seq::empty()
    } else if s.last().published_at == t {
        published_at_time(s.drop_last(), t).push(s.last())
    } else {
        published_at_time(s.drop_last(), t)
    }
}

proof fn lemma_published_at_time_concat(a: Seq<DatabaseFeedItem>, b: Seq<DatabaseFeedItem>, t: i64)
    ensures
        published_at_time(a + b, t) == published_at_time(a, t) + published_at_time(b, t),
    decreases b.len(),
{
    if b.len() == 0 {
        assert(a + b =~= a);
        assert(published_at_time(a, t) + published_at_time(b, t) =~= published_at_time(a, t));
    } else {
        assert((a + b).drop_last() =~= a + b.drop_last());
        lemma_published_at_time_concat(a, b.drop_last(), t);
        assert(published_at_time(a + b, t) =~= published_at_time(a, t) + published_at_time(b, t));
    }
}

proof fn lemma_published_at_time_none(s: Seq<DatabaseFeedItem>, t: i64)
    requires
        forall|i: int| 0 <= i < s.len() ==> s[i].published_at != t,
    ensures
        published_at_time(s, t) == Seq::<DatabaseFeedItem>::empty(),
    decreases s.len(),
{
    if s.len() > 0 {
        lemma_published_at_time_none(s.drop_last(), t);
    }
}

/// Inserting `x` after every item published no later than it and before every
/// item published after it puts `x` last among the items of its instant.
proof fn lemma_published_at_time_insert(s: Seq<DatabaseFeedItem>, pos: int, x: DatabaseFeedItem, t: i64)
    requires
        0 <= pos <= s.len(),
        forall|i: int| pos <= i < s.len() ==> s[i].published_at > x.published_at,
    ensures
        published_at_time(s.insert(pos, x), t) == if x.published_at == t {
            published_at_time(s, t).push(x)
        } else {
            published_at_time(s, t)
        },
{
    let a = s.take(pos);
    let b = s.skip(pos);
    assert(s =~= a + b);
    assert(s.insert(pos, x) =~= (a + seq![x]) + b);
    lemma_published_at_time_concat(a, b, t);
    lemma_published_at_time_concat(a + seq![x], b, t);
    lemma_published_at_time_concat(a, seq![x], t);
    assert(seq![x].drop_last() =~= Seq::<DatabaseFeedItem>::empty());
    assert(seq![x].last() == x);
    assert(published_at_time(Seq::<DatabaseFeedItem>::empty(), t) =~= Seq::<DatabaseFeedItem>::empty());
    if x.published_at == t {
        lemma_published_at_time_none(b, t);
        assert(published_at_time(a, t) + Seq::<DatabaseFeedItem>::empty() =~= published_at_time(a, t));
        assert(published_at_time(seq![x], t) =~= Seq::<DatabaseFeedItem>::empty().push(x));
        assert(published_at_time(a, t) + seq![x] + Seq::<DatabaseFeedItem>::empty() =~= published_at_time(a, t).push(x));
    } else {
        assert(published_at_time(seq![x], t) =~= Seq::<DatabaseFeedItem>::empty());
        assert(published_at_time(a, t) + Seq::<DatabaseFeedItem>::empty() =~= published_at_time(a, t));
    }
}

/// Puts the items in ascending order of publication; items published at the same
/// instant keep their relative order.
pub fn sort_by_published(items: Vec<DatabaseFeedItem>) -> (r: Vec<DatabaseFeedItem>)
    ensures
        sorted_by_published(r@),
        forall|t: i64| #[trigger] published_at_time(r@, t) == published_at_time(items@, t),
        r@.to_multiset() == items@.to_multiset(),
{
    let ghost all = items@;
    let ghost mut k: int = 0;
    let mut rest = items;
    let mut out: Vec<DatabaseFeedItem> = Vec::new();
    while rest.len() > 0
        invariant
            0 <= k <= all.len(),
            rest@ == all.skip(k),
            sorted_by_published(out@),
            forall|t: i64| #[trigger] published_at_time(out@, t) == published_at_time(all.take(k), t),
            out@.to_multiset().add(rest@.to_multiset()) == all.to_multiset(),
        decreases rest@.len(),
    {
        let ghost before = rest@;
        let x = rest.remove(0);
        proof {
            vstd::seq_lib::to_multiset_remove(before, 0);
        }
        let mut pos: usize = 0;
        while pos < out.len() && out[pos].published_at <= x.published_at
            invariant
                pos <= out@.len(),
                forall|m: int| 0 <= m < pos ==> out@[m].published_at <= x.published_at,
            decreases out@.len() - pos,
        {
            pos = pos + 1;
        }
        let ghost prev = out@;
        out.insert(pos, x);
        proof {
            vstd::seq_lib::to_multiset_insert(prev, pos as int, x);
            assert(out@.to_multiset().add(rest@.to_multiset()) =~= all.to_multiset());
            assert(all.take(k + 1).drop_last() =~= all.take(k));
            assert(all.take(k + 1).last() == x);
            assert forall|t: i64| #[trigger] published_at_time(out@, t) == published_at_time(all.take(k + 1), t) by {
                lemma_published_at_time_insert(prev, pos as int, x, t);
            }
            k = k + 1;
            assert(rest@ =~= all.skip(k));
        }
    }
    proof {
        assert(rest@ =~= Seq::<DatabaseFeedItem>::empty());
        assert(all.take(k) =~= all);
        assert(out@.to_multiset() =~= all.to_multiset());
    }
    out
}

/// Whether some string of `ids` equals `id`.
pub open spec fn has_id(ids: Seq<String>, id: Seq<char>) -> bool {
    exists|k: int| 0 <= k < ids.len() && ids[k]@ == id
}

/// Whether `id` is one of `ids`, computed.
pub fn contains_id(ids: &Vec<String>, id: &String) -> (r: bool)
    ensures
        r == has_id(ids@, id@),
{
    let mut k: usize = 0;
    while k < ids.len()
        invariant
            k <= ids@.len(),
            forall|m: int| 0 <= m < k ==> ids@[m]@ != id@,
        decreases ids@.len() - k,
    {
        if ids[k] == *id {
            return true;
        }
        k = k + 1;
    }
    false
}

/// The items of `s` whose external id is one of `ids`, in their order in `s`.
pub open spec fn with_ids(s: Seq<DatabaseFeedItem>, ids: Seq<String>) -> Seq<DatabaseFeedItem>
    decreases s.len(),
{
    if s.len() == 0 {
        Seq::empty()
    } else if has_id(ids, s.last().external_id@) {
        with_ids(s.drop_last(), ids).push(s.last())
    } else {
        with_ids(s.drop_last(), ids)
    }
}

/// Keeps the items that the store reported as newly inserted, in their order.
pub fn select_new(items: Vec<DatabaseFeedItem>, new_ids: &Vec<String>) -> (r: Vec<DatabaseFeedItem>)
    ensures
        r@ == with_ids(items@, new_ids@),
{
    let ghost all = items@;
    let mut rest = items;
    let mut out: Vec<DatabaseFeedItem> = Vec::new();
    let ghost mut k: int = 0;
    while rest.len() > 0
        invariant
            0 <= k <= all.len(),
            rest@ == all.skip(k),
            out@ == with_ids(all.take(k), new_ids@),
        decreases rest@.len(),
    {
        let x = rest.remove(0);
        proof {
            assert(all.take(k + 1).drop_last() =~= all.take(k));
            assert(all.take(k + 1).last() == x);
        }
        if contains_id(new_ids, &x.external_id) {
            out.push(x);
        }
        proof {
            k = k + 1;
            assert(rest@ =~= all.skip(k));
        }
    }
    assert(all.take(k) =~= all);
    out
}


/// Whether the items of `s` are in ascending order of publication is kept by
/// selecting some of them: new items are notified in the order they were published.
pub proof fn lemma_selected_items_keep_publication_order(items: Seq<DatabaseFeedItem>, ids: Seq<String>)
    requires
        sorted_by_published(items),
    ensures
        sorted_by_published(with_ids(items, ids)),
    decreases items.len(),
{
    if items.len() > 0 {
        let rest = items.drop_last();
        assert(sorted_by_published(rest));
        lemma_selected_items_keep_publication_order(rest, ids);
        lemma_with_ids_from(rest, ids);
    }
}

/// Every item selected from `s` is an item of `s`.
pub proof fn lemma_with_ids_from(s: Seq<DatabaseFeedItem>, ids: Seq<String>)
    ensures
        forall|k: int| 0 <= k < with_ids(s, ids).len() ==> exists|j: int| 0 <= j < s.len() && s[j] == #[trigger] with_ids(s, ids)[k],
    decreases s.len(),
{
    if s.len() > 0 {
        lemma_with_ids_from(s.drop_last(), ids);
        let prev = with_ids(s.drop_last(), ids);
        assert forall|k: int| 0 <= k < with_ids(s, ids).len() implies exists|j: int| 0 <= j < s.len() && s[j] == #[trigger] with_ids(s, ids)[k] by {
            if k < prev.len() {
                let j = choose|j: int| 0 <= j < s.drop_last().len() && s.drop_last()[j] == prev[k];
                assert(s[j] == with_ids(s, ids)[k]);
            } else {
                assert(s[s.len() - 1] == with_ids(s, ids)[k]);
            }
        }
    }
}

/// The key under which the store records an item: its feed and external id.
pub open spec fn item_key(i: DatabaseFeedItem) -> (Seq<char>, Seq<char>) {
    (i.feed_name@, i.external_id@)
}

/// The keys of the items of `s`.
pub open spec fn batch_keys(s: Seq<DatabaseFeedItem>) -> Set<(Seq<char>, Seq<char>)> {
    Set::new(|key: (Seq<char>, Seq<char>)| exists|i: int| 0 <= i < s.len() && item_key(s[i]) == key)
}

/// The external ids that inserting batch `s` into a store holding the keys `seen`
/// reports as new: each item whose key neither the store nor an earlier item of
/// the batch holds, in batch order.
pub open spec fn fresh_ids(seen: Set<(Seq<char>, Seq<char>)>, s: Seq<DatabaseFeedItem>) -> Seq<Seq<char>>
    decreases s.len(),
{
    if s.len() == 0 {
        Seq::empty()
    } else if seen.union(batch_keys(s.drop_last())).contains(item_key(s.last())) {
        fresh_ids(seen, s.drop_last())
    } else {
        fresh_ids(seen, s.drop_last()).push(s.last().external_id@)
    }
}

/// A deduplication store held in memory: the set of (feed, external id) keys seen.
/// Inserting is append-only; a key already held is left as it is.
#[derive(Debug)]
pub struct MemoryDatabase {
    keys: Vec<(String, String)>,
}

impl MemoryDatabase {
    /// The keys the store holds.
    pub closed spec fn view(&self) -> Set<(Seq<char>, Seq<char>)> {
        Set::new(|key: (Seq<char>, Seq<char>)| exists|i: int| 0 <= i < self.keys@.len() && (self.keys@[i].0@, self.keys@[i].1@) == key)
    }

    /// An empty store.
    pub fn new() -> (r: Self)
        ensures
            r.view() == Set::<(Seq<char>, Seq<char>)>::empty(),
    {
        let r = MemoryDatabase { keys: Vec::new() };
        assert(r.view() =~= Set::<(Seq<char>, Seq<char>)>::empty());
        r
    }

    /// Whether the store holds the key (`feed`, `id`).
    pub fn contains(&self, feed: &String, id: &String) -> (r: bool)
        ensures
            r == self.view().contains((feed@, id@)),
    {
        let mut k: usize = 0;
        while k < self.keys.len()
            invariant
                k <= self.keys@.len(),
                forall|m: int| 0 <= m < k ==> (self.keys@[m].0@, self.keys@[m].1@) != (feed@, id@),
            decreases self.keys@.len() - k,
        {
            if self.keys[k].0 == *feed && self.keys[k].1 == *id {
                return true;
            }
            k = k + 1;
        }
        false
    }

    /// Records every item of the batch whose key is not held yet and returns the
    /// external ids of exactly those items, in batch order.
    pub fn insert_and_select_feed_items(&mut self, items: &Vec<DatabaseFeedItem>) -> (r: Vec<String>)
        ensures
            final(self).view() == old(self).view().union(batch_keys(items@)),
            r@.map_values(|s: String| s@) == fresh_ids(old(self).view(), items@),
    {
        let ghost seen = self.view();
        let mut out: Vec<String> = Vec::new();
        let mut k: usize = 0;
        while k < items.len()
            invariant
                k <= items@.len(),
                self.view() == seen.union(batch_keys(items@.take(k as int))),
                out@.map_values(|s: String| s@) == fresh_ids(seen, items@.take(k as int)),
            decreases items@.len() - k,
        {
            let item = &items[k];
            let ghost pre = items@.take(k + 1);
            proof {
                assert(pre.drop_last() =~= items@.take(k as int));
                assert(pre.last() == *item);
            }
            if !self.contains(&item.feed_name, &item.external_id) {
                let ghost before = self.view();
                let ghost before_keys = self.keys@;
                self.keys.push((item.feed_name.clone(), item.external_id.clone()));
                out.push(item.external_id.clone());
                proof {
                    assert(self.view() =~= before.insert(item_key(*item))) by {
                        assert forall|key: (Seq<char>, Seq<char>)| before.insert(item_key(*item)).contains(key) implies self.view().contains(key) by {
                            if key == item_key(*item) {
                                assert((self.keys@[self.keys@.len() - 1].0@, self.keys@[self.keys@.len() - 1].1@) == key);
                            } else {
                                let i = choose|i: int| 0 <= i < before_keys.len() && (before_keys[i].0@, before_keys[i].1@) == key;
                                assert(self.keys@[i] == before_keys[i]);
                            }
                        }
                    }
                }
            }
            proof {
                assert(batch_keys(pre) =~= batch_keys(items@.take(k as int)).insert(item_key(*item))) by {
                    assert forall|key: (Seq<char>, Seq<char>)| batch_keys(pre).contains(key) implies batch_keys(items@.take(k as int)).insert(item_key(*item)).contains(key) by {
                        let i = choose|i: int| 0 <= i < pre.len() && item_key(pre[i]) == key;
                        if i < k {
                            assert(items@.take(k as int)[i] == pre[i]);
                        }
                    }
                    assert forall|key: (Seq<char>, Seq<char>)| batch_keys(items@.take(k as int)).insert(item_key(*item)).contains(key) implies batch_keys(pre).contains(key) by {
                        if key == item_key(*item) {
                            assert(item_key(pre[k as int]) == key);
                        } else {
                            let i = choose|i: int| 0 <= i < k && item_key(items@.take(k as int)[i]) == key;
                            assert(pre[i] == items@.take(k as int)[i]);
                        }
                    }
                }
                assert(self.view() =~= seen.union(batch_keys(pre)));
                assert(out@.map_values(|s: String| s@) =~= fresh_ids(seen, pre));
            }
            k = k + 1;
        }
        assert(items@.take(k as int) =~= items@);
        out
    }
}

/// A batch whose keys the store already holds all gives no new ids.
pub proof fn lemma_held_batch_gives_nothing(seen: Set<(Seq<char>, Seq<char>)>, items: Seq<DatabaseFeedItem>)
    requires
        batch_keys(items).subset_of(seen),
    ensures
        fresh_ids(seen, items) == Seq::<Seq<char>>::empty(),
    decreases items.len(),
{
    if items.len() > 0 {
        let p = items.drop_last();
        assert(batch_keys(items).contains(item_key(items[items.len() - 1])));
        assert forall|key| batch_keys(p).contains(key) implies seen.contains(key) by {
            let i = choose|i: int| 0 <= i < p.len() && item_key(p[i]) == key;
            assert(item_key(items[i]) == key);
        }
        lemma_held_batch_gives_nothing(seen, p);
    }
}

/// Into a store that holds none of its keys, a batch gives every one of its external ids.
pub proof fn lemma_unseen_batch_gives_all(seen: Set<(Seq<char>, Seq<char>)>, items: Seq<DatabaseFeedItem>)
    requires
        seen.disjoint(batch_keys(items)),
    ensures
        forall|id: Seq<char>| #[trigger] fresh_ids(seen, items).contains(id) <==> exists|i: int| 0 <= i < items.len() && items[i].external_id@ == id,
    decreases items.len(),
{
    if items.len() > 0 {
        let p = items.drop_last();
        let last = items[items.len() - 1];
        assert(batch_keys(items).contains(item_key(last)));
        assert forall|key| batch_keys(p).contains(key) implies batch_keys(items).contains(key) by {
            let i = choose|i: int| 0 <= i < p.len() && item_key(p[i]) == key;
            assert(item_key(items[i]) == key);
        }
        lemma_unseen_batch_gives_all(seen, p);
        let fp = fresh_ids(seen, p);
        if seen.union(batch_keys(p)).contains(item_key(last)) {
            let j = choose|j: int| 0 <= j < p.len() && item_key(p[j]) == item_key(last);
            assert forall|id: Seq<char>| #[trigger] fresh_ids(seen, items).contains(id) <==> exists|i: int| 0 <= i < items.len() && items[i].external_id@ == id by {
                if exists|i: int| 0 <= i < items.len() && items[i].external_id@ == id {
                    let i = choose|i: int| 0 <= i < items.len() && items[i].external_id@ == id;
                    if i == items.len() - 1 {
                        assert(p[j].external_id@ == id);
                    } else {
                        assert(p[i].external_id@ == id);
                    }
                }
                if fp.contains(id) {
                    let i = choose|i: int| 0 <= i < p.len() && p[i].external_id@ == id;
                    assert(items[i].external_id@ == id);
                }
            }
        } else {
            assert forall|id: Seq<char>| #[trigger] fresh_ids(seen, items).contains(id) <==> exists|i: int| 0 <= i < items.len() && items[i].external_id@ == id by {
                assert(fresh_ids(seen, items) == fp.push(last.external_id@));
                if exists|i: int| 0 <= i < items.len() && items[i].external_id@ == id {
                    let i = choose|i: int| 0 <= i < items.len() && items[i].external_id@ == id;
                    if i == items.len() - 1 {
                        assert(fp.push(last.external_id@)[fp.len() as int] == id);
                    } else {
                        assert(p[i].external_id@ == id);
                        assert(fp.contains(id));
                        let m = choose|m: int| 0 <= m < fp.len() && fp[m] == id;
                        assert(fp.push(last.external_id@)[m] == id);
                    }
                }
                if fp.push(last.external_id@).contains(id) {
                    let m = choose|m: int| 0 <= m < fp.len() + 1 && fp.push(last.external_id@)[m] == id;
                    if m == fp.len() {
                        assert(items[items.len() - 1].external_id@ == id);
                    } else {
                        assert(fp[m] == id);
                        assert(fp.contains(id));
                        let i = choose|i: int| 0 <= i < p.len() && p[i].external_id@ == id;
                        assert(items[i].external_id@ == id);
                    }
                }
            }
        }
    }
}

/// Inserting the same batch twice: the first insertion into a store that holds
/// none of its keys reports every external id of the batch, and the second,
/// into the store that the first left, reports none.
pub proof fn lemma_insert_twice(seen: Set<(Seq<char>, Seq<char>)>, items: Seq<DatabaseFeedItem>)
    requires
        seen.disjoint(batch_keys(items)),
    ensures
        forall|id: Seq<char>| #[trigger] fresh_ids(seen, items).contains(id) <==> exists|i: int| 0 <= i < items.len() && items[i].external_id@ == id,
        fresh_ids(seen.union(batch_keys(items)), items) == Seq::<Seq<char>>::empty(),
{
    lemma_unseen_batch_gives_all(seen, items);
    lemma_held_batch_gives_nothing(seen.union(batch_keys(items)), items);
}

} // verus!
