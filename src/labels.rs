//! The unique accumulator: an ordered list of labels with set semantics on
//! insertion.

use vstd::prelude::*;

verus! {

/// The text of each label in a list of strings.
pub open spec fn names(v: Seq<String>) -> Seq<Seq<char>> {
    v.map_values(|s: String| s@)
}

/// `acc` after each label of `new`, in order, has been appended unless an
/// equal label is already present.
pub open spec fn insert_all(acc: Seq<Seq<char>>, new: Seq<Seq<char>>) -> Seq<Seq<char>>
    decreases new.len(),
{
    if new.len() == 0 {
        acc
    } else {
        let prev = insert_all(acc, new.drop_last());
        if prev.contains(new.last()) {
            prev
        } else {
            prev.push(new.last())
        }
    }
}

/// Whether some label of `v` has the text `s`.
pub fn contains_label(v: &Vec<String>, s: &String) -> (r: bool)
    ensures
        r == names(v@).contains(s@),
{
    let mut i: usize = 0;
    while i < v.len()
        invariant
            i <= v.len(),
            forall|k: int| 0 <= k < i ==> v@[k]@ != s@,
        decreases v.len() - i,
    {
        if v[i] == *s {
            assert(names(v@)[i as int] == s@);
            return true;
        }
        i += 1;
    }
    proof {
        if names(v@).contains(s@) {
            let k = choose|k: int| 0 <= k < names(v@).len() && names(v@)[k] == s@;
            assert(v@[k]@ == s@);
        }
    }
    false
}

/// Appends each entry of `new_entries`, in order, that `existing` does not
/// already hold.
pub fn append_unique(existing: &mut Vec<String>, new_entries: Vec<String>)
    ensures
        names(final(existing)@) == insert_all(names(old(existing)@), names(new_entries@)),
{
    let ghost start = names(existing@);
    let mut i: usize = 0;
    while i < new_entries.len()
        invariant
            i <= new_entries.len(),
            names(existing@) == insert_all(start, names(new_entries@).take(i as int)),
        decreases new_entries.len() - i,
    {
        let entry = &new_entries[i];
        let ghost taken = names(new_entries@).take(i as int + 1);
        assert(taken.drop_last() =~= names(new_entries@).take(i as int));
        assert(taken.last() == entry@);
        let ghost before = existing@;
        if !contains_label(existing, entry) {
            existing.push(entry.clone());
            assert(names(existing@) =~= names(before).push(entry@));
        }
        i += 1;
    }
    assert(names(new_entries@).take(new_entries.len() as int) =~= names(new_entries@));
}

/// Appends the genre names of one fetched item, then its tag names, each
/// unless an equal label is already held.
pub fn add_item_labels(acc: &mut Vec<String>, genres: Option<Vec<String>>, tags: Option<Vec<String>>)
    ensures
        names(final(acc)@) == insert_all(names(old(acc)@), item_labels(genres, tags)),
{
    let ghost start = names(acc@);
    proof {
        lemma_insert_all_concat(start, opt_names(genres), opt_names(tags));
    }
    match genres {
        Some(g) => append_unique(acc, g),
        None => {
            assert(insert_all(start, Seq::empty()) == start);
        },
    }
    match tags {
        Some(t) => append_unique(acc, t),
        None => {},
    }
    assert(opt_names(genres) + Seq::<Seq<char>>::empty() =~= opt_names(genres));
}

/// The labels of one fetched item: its genre names, then its tag names.
pub open spec fn item_labels(genres: Option<Vec<String>>, tags: Option<Vec<String>>) -> Seq<Seq<char>> {
    opt_names(genres) + opt_names(tags)
}

/// The names of an optional list; an absent list contributes nothing.
pub open spec fn opt_names(v: Option<Vec<String>>) -> Seq<Seq<char>> {
    match v {
        Some(l) => names(l@),
        None => Seq::empty(),
    }
}

/// All labels of a sequence of items, item by item.
pub open spec fn all_labels(items: Seq<Seq<Seq<char>>>) -> Seq<Seq<char>>
    decreases items.len(),
{
    if items.len() == 0 {
        Seq::empty()
    } else {
        all_labels(items.drop_last()) + items.last()
    }
}

/// The accumulator that a harvest over `items` ends with.
pub open spec fn harvest(items: Seq<Seq<Seq<char>>>) -> Seq<Seq<char>> {
    insert_all(Seq::empty(), all_labels(items))
}

/// One more fetched item extends a harvest by that item's labels.
pub proof fn lemma_harvest_push(items: Seq<Seq<Seq<char>>>, item: Seq<Seq<char>>)
    ensures
        harvest(items.push(item)) == insert_all(harvest(items), item),
{
    assert(items.push(item).drop_last() =~= items);
    lemma_insert_all_concat(Seq::empty(), all_labels(items), item);
}

/// Inserting `s` and then `t` is inserting `s + t`.
pub proof fn lemma_insert_all_concat(acc: Seq<Seq<char>>, s: Seq<Seq<char>>, t: Seq<Seq<char>>)
    ensures
        insert_all(insert_all(acc, s), t) == insert_all(acc, s + t),
    decreases t.len(),
{
    if t.len() == 0 {
        assert(s + t =~= s);
    } else {
        lemma_insert_all_concat(acc, s, t.drop_last());
        assert((s + t).drop_last() =~= s + t.drop_last());
        assert((s + t).last() == t.last());
    }
}

/// The accumulator keeps what it held, and holds every inserted label.
pub proof fn lemma_insert_all_holds(acc: Seq<Seq<char>>, new: Seq<Seq<char>>)
    ensures
        forall|x: Seq<char>| acc.contains(x) ==> #[trigger] insert_all(acc, new).contains(x),
        forall|x: Seq<char>| new.contains(x) ==> #[trigger] insert_all(acc, new).contains(x),
        forall|x: Seq<char>|
            #[trigger] insert_all(acc, new).contains(x) ==> acc.contains(x) || new.contains(x),
    decreases new.len(),
{
    if new.len() > 0 {
        let prev = insert_all(acc, new.drop_last());
        lemma_insert_all_holds(acc, new.drop_last());
        assert forall|x: Seq<char>| prev.contains(x) implies #[trigger] insert_all(acc, new).contains(x) by {
            if !prev.contains(new.last()) {
                let k = choose|k: int| 0 <= k < prev.len() && prev[k] == x;
                assert(prev.push(new.last())[k] == x);
            }
        }
        assert forall|x: Seq<char>| new.contains(x) implies #[trigger] insert_all(acc, new).contains(x) by {
            let k = choose|k: int| 0 <= k < new.len() && new[k] == x;
            if k < new.len() - 1 {
                assert(new.drop_last()[k] == x);
                assert(new.drop_last().contains(x));
                assert(prev.contains(x));
            } else if !prev.contains(x) {
                assert(prev.push(x)[prev.len() as int] == x);
            }
        }
        assert forall|x: Seq<char>| acc.contains(x) implies #[trigger] insert_all(acc, new).contains(x) by {
            assert(prev.contains(x));
        }
        assert forall|x: Seq<char>| #[trigger] insert_all(acc, new).contains(x) implies acc.contains(x) || new.contains(x) by {
            if !prev.contains(x) {
                assert(x == new.last());
                assert(new[new.len() - 1] == x);
            } else if !acc.contains(x) {
                let k = choose|k: int| 0 <= k < new.drop_last().len() && new.drop_last()[k] == x;
                assert(new[k] == x);
            }
        }
    }
}

/// Labels already held change nothing.
pub proof fn lemma_insert_all_held(acc: Seq<Seq<char>>, new: Seq<Seq<char>>)
    requires
        forall|x: Seq<char>| new.contains(x) ==> acc.contains(x),
    ensures
        insert_all(acc, new) == acc,
    decreases new.len(),
{
    if new.len() > 0 {
        assert forall|x: Seq<char>| new.drop_last().contains(x) implies acc.contains(x) by {
            let k = choose|k: int| 0 <= k < new.drop_last().len() && new.drop_last()[k] == x;
            assert(new[k] == x);
        }
        lemma_insert_all_held(acc, new.drop_last());
        assert(new.contains(new[new.len() - 1]));
    }
}

/// Inserting the same labels twice gives what inserting them once gives.
pub proof fn lemma_insert_twice(acc: Seq<Seq<char>>, labels: Seq<Seq<char>>)
    ensures
        insert_all(insert_all(acc, labels), labels) == insert_all(acc, labels),
{
    lemma_insert_all_holds(acc, labels);
    lemma_insert_all_held(insert_all(acc, labels), labels);
}

/// `a` occurs in `s` before every occurrence of `b`.
pub open spec fn seen_before(s: Seq<Seq<char>>, a: Seq<char>, b: Seq<char>) -> bool {
    forall|k: int| 0 <= k < s.len() && #[trigger] s[k] == b ==> exists|m: int| 0 <= m < k && s[m] == a
}

proof fn lemma_first_seen_order(flat: Seq<Seq<char>>)
    ensures
        insert_all(Seq::empty(), flat).no_duplicates(),
        forall|x: Seq<char>| #[trigger] insert_all(Seq::empty(), flat).contains(x) <==> flat.contains(x),
        forall|i: int, j: int|
            0 <= i < j < insert_all(Seq::empty(), flat).len() ==> seen_before(
                flat,
                #[trigger] insert_all(Seq::empty(), flat)[i],
                #[trigger] insert_all(Seq::empty(), flat)[j],
            ),
    decreases flat.len(),
{
    lemma_insert_all_holds(Seq::empty(), flat);
    if flat.len() > 0 {
        let f = flat.drop_last();
        let x = flat.last();
        let r = insert_all(Seq::empty(), f);
        let r2 = insert_all(Seq::empty(), flat);
        lemma_first_seen_order(f);
        assert forall|i: int, j: int| 0 <= i < j < r2.len() implies seen_before(flat, #[trigger] r2[i], #[trigger] r2[j]) by {
            assert forall|k: int| 0 <= k < flat.len() && #[trigger] flat[k] == r2[j] implies exists|m: int| 0 <= m < k && flat[m] == r2[i] by {
                if k < f.len() {
                    assert(f[k] == flat[k]);
                    if j < r.len() {
                        assert(r2[j] == r[j] && r2[i] == r[i]);
                        assert(seen_before(f, r[i], r[j]));
                        let m = choose|m: int| 0 <= m < k && f[m] == r[i];
                        assert(flat[m] == r2[i]);
                    } else {
                        assert(r2[j] == x);
                        assert(f.contains(x));
                    }
                } else {
                    assert(r2[i] == r[i]);
                    assert(r.contains(r[i]));
                    let m = choose|m: int| 0 <= m < f.len() && f[m] == r[i];
                    assert(flat[m] == r2[i]);
                }
            }
        }
        assert forall|y: Seq<char>| flat.contains(y) implies #[trigger] r2.contains(y) by {}
        if !r.contains(x) {
            assert forall|i: int, j: int| 0 <= i < j < r2.len() implies r2[i] != r2[j] by {
                if j == r.len() {
                    assert(r.contains(r[i]));
                }
            }
        }
    }
}

/// A harvest holds each distinct label of the fetched items exactly once,
/// ordered by where it is first seen: item by item, genres before tags.
pub proof fn lemma_harvest_dedup_order(items: Seq<Seq<Seq<char>>>)
    ensures
        harvest(items).no_duplicates(),
        forall|x: Seq<char>| #[trigger] harvest(items).contains(x) <==> all_labels(items).contains(x),
        forall|i: int, j: int|
            0 <= i < j < harvest(items).len() ==> seen_before(
                all_labels(items),
                #[trigger] harvest(items)[i],
                #[trigger] harvest(items)[j],
            ),
{
    lemma_first_seen_order(all_labels(items));
}

} // verus!
