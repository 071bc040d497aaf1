//! Sequences of items kept under distinct string keys, and the maps they
//! stand for: the rules of the policy engine and the secrets of the
//! in-memory store are kept this way.
use vstd::prelude::*;

verus! {

/// An item kept under a string key.
pub trait Keyed {
    /// What the item stands for in the map.
    type V;

    /// The item's key.
    spec fn key_view(&self) -> Seq<char>;

    /// The item's value in the map.
    spec fn value_view(&self) -> Self::V;

    /// The item's key.
    fn key(&self) -> (r: &String)
        ensures
            r@ == self.key_view(),
    ;
}

/// No two items share a key.
pub open spec fn distinct_keys<T: Keyed>(items: Seq<T>) -> bool {
    forall|i: int, j: int|
        0 <= i < items.len() && 0 <= j < items.len() && i != j ==> #[trigger] items[i].key_view()
            != #[trigger] items[j].key_view()
}

/// The map from key to value that items with distinct keys stand for.
pub open spec fn keyed_map<T: Keyed>(items: Seq<T>) -> Map<Seq<char>, T::V> {
    Map::new(
        |k: Seq<char>| exists|i: int| 0 <= i < items.len() && #[trigger] items[i].key_view() == k,
        |k: Seq<char>|
            items[choose|i: int| 0 <= i < items.len() && #[trigger] items[i].key_view() == k].value_view(),
    )
}

pub proof fn lemma_keyed_map_at<T: Keyed>(items: Seq<T>, i: int)
    requires
        distinct_keys(items),
        0 <= i < items.len(),
    ensures
        keyed_map(items).contains_key(items[i].key_view()),
        keyed_map(items)[items[i].key_view()] == items[i].value_view(),
{
    let k = items[i].key_view();
    assert(items[i].key_view() == k);
    let j = choose|j: int| 0 <= j < items.len() && #[trigger] items[j].key_view() == k;
    assert(j == i);
}

pub proof fn lemma_keyed_map_update<T: Keyed>(items: Seq<T>, i: int, e: T)
    requires
        distinct_keys(items),
        0 <= i < items.len(),
        items[i].key_view() == e.key_view(),
    ensures
        distinct_keys(items.update(i, e)),
        keyed_map(items.update(i, e)) == keyed_map(items).insert(e.key_view(), e.value_view()),
{
    let new_items = items.update(i, e);
    assert forall|a: int, b: int|
        0 <= a < new_items.len() && 0 <= b < new_items.len() && a != b implies #[trigger] new_items[a].key_view()
        != #[trigger] new_items[b].key_view() by {
        assert(items[a].key_view() != items[b].key_view());
    }
    let m1 = keyed_map(new_items);
    let m2 = keyed_map(items).insert(e.key_view(), e.value_view());
    assert forall|k: Seq<char>| #[trigger] m1.contains_key(k) <==> m2.contains_key(k) by {
        if m2.contains_key(k) && k != e.key_view() {
            let j = choose|j: int| 0 <= j < items.len() && #[trigger] items[j].key_view() == k;
            assert(new_items[j].key_view() == k);
        }
        if m1.contains_key(k) {
            let j = choose|j: int| 0 <= j < new_items.len() && #[trigger] new_items[j].key_view() == k;
            if j != i {
                assert(items[j].key_view() == k);
            }
        }
        if k == e.key_view() {
            assert(new_items[i].key_view() == k);
        }
    }
    assert forall|k: Seq<char>| #[trigger] m1.contains_key(k) implies m1[k] == m2[k] by {
        let j = choose|j: int| 0 <= j < new_items.len() && #[trigger] new_items[j].key_view() == k;
        lemma_keyed_map_at(new_items, j);
        if j != i {
            lemma_keyed_map_at(items, j);
        }
    }
    assert(m1 =~= m2);
}

pub proof fn lemma_keyed_map_push<T: Keyed>(items: Seq<T>, e: T)
    requires
        distinct_keys(items),
        !keyed_map(items).contains_key(e.key_view()),
    ensures
        distinct_keys(items.push(e)),
        keyed_map(items.push(e)) == keyed_map(items).insert(e.key_view(), e.value_view()),
{
    let new_items = items.push(e);
    let n = items.len() as int;
    assert forall|a: int, b: int|
        0 <= a < new_items.len() && 0 <= b < new_items.len() && a != b implies #[trigger] new_items[a].key_view()
        != #[trigger] new_items[b].key_view() by {
        if a == n {
            assert(items[b].key_view() == new_items[b].key_view());
        } else if b == n {
            assert(items[a].key_view() == new_items[a].key_view());
        } else {
            assert(items[a].key_view() != items[b].key_view());
        }
    }
    let m1 = keyed_map(new_items);
    let m2 = keyed_map(items).insert(e.key_view(), e.value_view());
    assert forall|k: Seq<char>| #[trigger] m1.contains_key(k) <==> m2.contains_key(k) by {
        if m2.contains_key(k) && k != e.key_view() {
            let j = choose|j: int| 0 <= j < items.len() && #[trigger] items[j].key_view() == k;
            assert(new_items[j].key_view() == k);
        }
        if m1.contains_key(k) {
            let j = choose|j: int| 0 <= j < new_items.len() && #[trigger] new_items[j].key_view() == k;
            if j != n {
                assert(items[j].key_view() == k);
            }
        }
        if k == e.key_view() {
            assert(new_items[n].key_view() == k);
        }
    }
    assert forall|k: Seq<char>| #[trigger] m1.contains_key(k) implies m1[k] == m2[k] by {
        let j = choose|j: int| 0 <= j < new_items.len() && #[trigger] new_items[j].key_view() == k;
        lemma_keyed_map_at(new_items, j);
        if j != n {
            lemma_keyed_map_at(items, j);
        }
    }
    assert(m1 =~= m2);
}

pub proof fn lemma_keyed_map_remove<T: Keyed>(items: Seq<T>, i: int)
    requires
        distinct_keys(items),
        0 <= i < items.len(),
    ensures
        distinct_keys(items.remove(i)),
        keyed_map(items.remove(i)) == keyed_map(items).remove(items[i].key_view()),
{
    let new_items = items.remove(i);
    let gone = items[i].key_view();
    // position in `items` of position `a` of `new_items`
    assert forall|a: int| 0 <= a < new_items.len() implies #[trigger] new_items[a] == items[if a
        < i {
        a
    } else {
        a + 1
    }] by {}
    assert forall|a: int, b: int|
        0 <= a < new_items.len() && 0 <= b < new_items.len() && a != b implies #[trigger] new_items[a].key_view()
        != #[trigger] new_items[b].key_view() by {
        let oa = if a < i {
            a
        } else {
            a + 1
        };
        let ob = if b < i {
            b
        } else {
            b + 1
        };
        assert(new_items[a] == items[oa]);
        assert(new_items[b] == items[ob]);
        assert(items[oa].key_view() != items[ob].key_view());
    }
    let m1 = keyed_map(new_items);
    let m2 = keyed_map(items).remove(gone);
    assert forall|k: Seq<char>| #[trigger] m1.contains_key(k) <==> m2.contains_key(k) by {
        if m2.contains_key(k) {
            let j = choose|j: int| 0 <= j < items.len() && #[trigger] items[j].key_view() == k;
            assert(j != i);
            let nj = if j < i {
                j
            } else {
                j - 1
            };
            assert(new_items[nj] == items[j]);
            assert(new_items[nj].key_view() == k);
        }
        if m1.contains_key(k) {
            let j = choose|j: int| 0 <= j < new_items.len() && #[trigger] new_items[j].key_view() == k;
            let oj = if j < i {
                j
            } else {
                j + 1
            };
            assert(new_items[j] == items[oj]);
            assert(items[oj].key_view() == k);
            assert(oj != i);
            assert(items[oj].key_view() != items[i].key_view());
        }
    }
    assert forall|k: Seq<char>| #[trigger] m1.contains_key(k) implies m1[k] == m2[k] by {
        let j = choose|j: int| 0 <= j < new_items.len() && #[trigger] new_items[j].key_view() == k;
        let oj = if j < i {
            j
        } else {
            j + 1
        };
        assert(new_items[j] == items[oj]);
        lemma_keyed_map_at(new_items, j);
        lemma_keyed_map_at(items, oj);
    }
    assert(m1 =~= m2);
}

/// The index of the item kept under `key`, if there is one.
pub fn find_key<T: Keyed>(items: &Vec<T>, key: &String) -> (r: Option<usize>)
    ensures
        match r {
            Some(i) => i < items@.len() && items@[i as int].key_view() == key@,
            None => !keyed_map(items@).contains_key(key@),
        },
{
    let mut i: usize = 0;
    while i < items.len()
        invariant
            i <= items@.len(),
            forall|j: int| 0 <= j < i ==> items@[j].key_view() != key@,
        decreases items@.len() - i,
    {
        if *items[i].key() == *key {
            return Some(i);
        }
        i = i + 1;
    }
    None
}

} // verus!
