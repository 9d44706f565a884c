//! Small tables keyed by text, kept in the order in which their keys first
//! came. A key stands at most once in a table that is `distinct`; looking a key
//! up means finding its first place.

use crate::text::same_text;
use vstd::prelude::*;

verus! {

/// One entry of a table.
pub struct Entry<V> {
    pub key: String,
    pub value: V,
}

/// A table over characters: keys with what stands for their values.
pub type Rows<X> = Seq<(Seq<char>, X)>;

/// The rows of a table whose values are seen through their views.
pub open spec fn rows<V: View>(entries: Seq<Entry<V>>) -> Rows<V::V> {
    entries.map_values(|e: Entry<V>| (e.key@, e.value@))
}

/// The first place at which `key` stands among `rows`.
pub open spec fn position<X>(rows: Rows<X>, key: Seq<char>) -> Option<int>
    decreases rows.len(),
{
    if rows.len() == 0 {
        None
    } else {
        match position(rows.drop_last(), key) {
            Some(i) => Some(i),
            None => if rows.last().0 == key {
                Some(rows.len() - 1)
            } else {
                None
            },
        }
    }
}

/// What stands under `key`.
pub open spec fn lookup<X>(rows: Rows<X>, key: Seq<char>) -> Option<X> {
    match position(rows, key) {
        Some(i) => Some(rows[i].1),
        None => None,
    }
}

/// The table with `value` under `key`: in the key's place where it has one, at
/// the end where it has none.
pub open spec fn put<X>(rows: Rows<X>, key: Seq<char>, value: X) -> Rows<X> {
    match position(rows, key) {
        Some(i) => rows.update(i, (key, value)),
        None => rows.push((key, value)),
    }
}

/// The table without `key`.
pub open spec fn without<X>(rows: Rows<X>, key: Seq<char>) -> Rows<X> {
    match position(rows, key) {
        Some(i) => rows.remove(i),
        None => rows,
    }
}

/// No key stands twice.
pub open spec fn distinct<X>(rows: Rows<X>) -> bool {
    forall|i: int, j: int| 0 <= i < j < rows.len() ==> rows[i].0 != rows[j].0
}

/// `position` finds the first place of a key, and nothing exactly where the
/// key stands nowhere.
pub proof fn position_is_first<X>(rows: Rows<X>, key: Seq<char>)
    ensures
        match position(rows, key) {
            Some(i) => 0 <= i < rows.len() && rows[i].0 == key && forall|j: int|
                0 <= j < i ==> rows[j].0 != key,
            None => forall|j: int| 0 <= j < rows.len() ==> rows[j].0 != key,
        },
    decreases rows.len(),
{
    if rows.len() > 0 {
        let front = rows.drop_last();
        position_is_first(front, key);
        assert forall|j: int| 0 <= j < front.len() implies front[j] == rows[j] by {}
        match position(front, key) {
            Some(i) => {
                assert(front[i] == rows[i]);
                assert forall|j: int| 0 <= j < i implies rows[j].0 != key by {
                    assert(front[j] == rows[j]);
                }
            },
            None => {
                assert forall|j: int| 0 <= j < rows.len() - 1 implies rows[j].0 != key by {
                    assert(front[j] == rows[j]);
                }
            },
        }
    }
}

/// A place that holds the key and has no earlier one that does is the key's
/// position.
pub proof fn position_found<X>(rows: Rows<X>, key: Seq<char>, i: int)
    requires
        0 <= i < rows.len(),
        rows[i].0 == key,
        forall|j: int| 0 <= j < i ==> rows[j].0 != key,
    ensures
        position(rows, key) == Some(i),
{
    position_is_first(rows, key);
}

/// A key that stands nowhere has no position.
pub proof fn position_absent<X>(rows: Rows<X>, key: Seq<char>)
    requires
        forall|j: int| 0 <= j < rows.len() ==> rows[j].0 != key,
    ensures
        position(rows, key) is None,
{
    position_is_first(rows, key);
}

/// Where `key` stands after a change that left every key in its place, or
/// that is known place by place.
proof fn position_by_places<X>(before: Rows<X>, after: Rows<X>, other: Seq<char>, shift: int)
    requires
        match position(before, other) {
            Some(k) => 0 <= k + shift < after.len() && after[k + shift].0 == other && forall|
                j: int,
            | 0 <= j < k + shift ==> after[j].0 != other,
            None => forall|j: int| 0 <= j < after.len() ==> after[j].0 != other,
        },
    ensures
        position(after, other) == match position(before, other) {
            Some(k) => Some(k + shift),
            None => None,
        },
{
    match position(before, other) {
        Some(k) => position_found(after, other, k + shift),
        None => position_absent(after, other),
    }
}

/// After a value was put under a key, the key holds the value and every
/// other key holds what it held.
pub proof fn put_then_lookup<X>(rows: Rows<X>, key: Seq<char>, value: X)
    ensures
        lookup(put(rows, key, value), key) == Some(value),
        forall|other: Seq<char>|
            other != key ==> #[trigger] lookup(put(rows, key, value), other) == lookup(
                rows,
                other,
            ),
{
    position_is_first(rows, key);
    let after = put(rows, key, value);
    match position(rows, key) {
        Some(i) => {
            assert forall|j: int| 0 <= j < i implies after[j].0 != key by {
                assert(after[j] == rows[j]);
            }
            position_found(after, key, i);
        },
        None => {
            assert forall|j: int| 0 <= j < rows.len() implies after[j].0 != key by {
                assert(after[j] == rows[j]);
            }
            position_found(after, key, rows.len() as int);
        },
    }
    assert forall|other: Seq<char>| other != key implies #[trigger] lookup(after, other)
        == lookup(rows, other) by {
        position_is_first(rows, other);
        match position(rows, other) {
            Some(k) => {
                assert(after[k] == rows[k]);
                assert forall|j: int| 0 <= j < k implies after[j].0 != other by {
                    if position(rows, key) == Some(j) {
                    } else {
                        assert(after[j] == rows[j]);
                    }
                }
            },
            None => {
                assert forall|j: int| 0 <= j < after.len() implies after[j].0 != other by {
                    if j < rows.len() && position(rows, key) != Some(j) {
                        assert(after[j] == rows[j]);
                    }
                }
            },
        }
        position_by_places(rows, after, other, 0);
    }
}

/// Putting a value keeps the keys distinct.
pub proof fn put_keeps_distinct<X>(rows: Rows<X>, key: Seq<char>, value: X)
    requires
        distinct(rows),
    ensures
        distinct(put(rows, key, value)),
{
    position_is_first(rows, key);
}

/// After a key was taken out, every other key holds what it held.
pub proof fn without_then_lookup<X>(rows: Rows<X>, key: Seq<char>)
    ensures
        forall|other: Seq<char>|
            other != key ==> #[trigger] lookup(without(rows, key), other) == lookup(rows, other),
{
    position_is_first(rows, key);
    let after = without(rows, key);
    match position(rows, key) {
        Some(i) => {
            assert forall|other: Seq<char>| other != key implies #[trigger] lookup(after, other)
                == lookup(rows, other) by {
                position_is_first(rows, other);
                match position(rows, other) {
                    Some(k) => {
                        let k1 = if k < i { k } else { k - 1 };
                        assert(after[k1] == rows[k]);
                        assert forall|j: int| 0 <= j < k1 implies after[j].0 != other by {
                            if j < i {
                                assert(after[j] == rows[j]);
                            } else {
                                assert(after[j] == rows[j + 1]);
                            }
                        }
                        position_found(after, other, k1);
                    },
                    None => {
                        assert forall|j: int| 0 <= j < after.len() implies after[j].0
                            != other by {
                            if j < i {
                                assert(after[j] == rows[j]);
                            } else {
                                assert(after[j] == rows[j + 1]);
                            }
                        }
                        position_absent(after, other);
                    },
                }
            }
        },
        None => {},
    }
}

/// Taking a key out keeps the keys distinct, and the key is then gone.
pub proof fn without_keeps_distinct<X>(rows: Rows<X>, key: Seq<char>)
    requires
        distinct(rows),
    ensures
        distinct(without(rows, key)),
        lookup(without(rows, key), key) is None,
{
    position_is_first(rows, key);
    let after = without(rows, key);
    match position(rows, key) {
        Some(i) => {
            assert forall|j: int| 0 <= j < after.len() implies after[j].0 != key by {
                if j < i {
                    assert(after[j] == rows[j]);
                } else {
                    assert(after[j] == rows[j + 1]);
                }
            }
            position_absent(after, key);
            assert forall|a: int, b: int| 0 <= a < b < after.len() implies after[a].0
                != after[b].0 by {
                let a0 = if a < i { a } else { a + 1 };
                let b0 = if b < i { b } else { b + 1 };
                assert(after[a] == rows[a0]);
                assert(after[b] == rows[b0]);
            }
        },
        None => {},
    }
}

/// What holds of every value of a table and of a new value holds of every
/// value after the new one was put.
pub proof fn put_keeps_all<X>(rows: Rows<X>, key: Seq<char>, value: X, p: spec_fn(X) -> bool)
    requires
        forall|i: int| 0 <= i < rows.len() ==> p(#[trigger] rows[i].1),
        p(value),
    ensures
        forall|i: int|
            0 <= i < put(rows, key, value).len() ==> p(#[trigger] put(rows, key, value)[i].1),
{
    position_is_first(rows, key);
    let after = put(rows, key, value);
    assert forall|i: int| 0 <= i < after.len() implies p(#[trigger] after[i].1) by {
        if i < rows.len() && position(rows, key) != Some(i) {
            assert(after[i] == rows[i]);
        }
    }
}

/// What holds of every value of a table holds of every value after a key was
/// taken out.
pub proof fn without_keeps_all<X>(rows: Rows<X>, key: Seq<char>, p: spec_fn(X) -> bool)
    requires
        forall|i: int| 0 <= i < rows.len() ==> p(#[trigger] rows[i].1),
    ensures
        forall|i: int| 0 <= i < without(rows, key).len() ==> p(#[trigger] without(rows, key)[i].1),
{
    position_is_first(rows, key);
    let after = without(rows, key);
    match position(rows, key) {
        Some(k) => {
            assert forall|i: int| 0 <= i < after.len() implies p(#[trigger] after[i].1) by {
                if i < k {
                    assert(after[i] == rows[i]);
                } else {
                    assert(after[i] == rows[i + 1]);
                }
            }
        },
        None => {},
    }
}

/// What a table holds under a key stands in the table.
pub proof fn lookup_is_a_row<X>(rows: Rows<X>, key: Seq<char>)
    ensures
        match lookup(rows, key) {
            Some(value) => exists|i: int| 0 <= i < rows.len() && #[trigger] rows[i] == (key, value),
            None => true,
        },
{
    position_is_first(rows, key);
    match position(rows, key) {
        Some(i) => {
            assert(rows[i] == (key, rows[i].1));
        },
        None => {},
    }
}

/// What stands under a key in a table whose values all have a property has
/// the property.
pub proof fn looked_up_has<X>(rows: Rows<X>, key: Seq<char>, p: spec_fn(X) -> bool)
    requires
        forall|i: int| 0 <= i < rows.len() ==> p(#[trigger] rows[i].1),
    ensures
        match lookup(rows, key) {
            Some(value) => p(value),
            None => true,
        },
{
    lookup_is_a_row(rows, key);
    match lookup(rows, key) {
        Some(value) => {
            let i = choose|i: int| 0 <= i < rows.len() && #[trigger] rows[i] == (key, value);
            assert(p(rows[i].1));
        },
        None => {},
    }
}

/// The sum of a weight over the values of a table.
pub open spec fn total<X>(rows: Rows<X>, weight: spec_fn(X) -> nat) -> nat
    decreases rows.len(),
{
    if rows.len() == 0 {
        0
    } else {
        weight(rows.first().1) + total(rows.drop_first(), weight)
    }
}

/// The total after a row was added at the end.
pub proof fn total_after_push<X>(rows: Rows<X>, row: (Seq<char>, X), weight: spec_fn(X) -> nat)
    ensures
        total(rows.push(row), weight) == total(rows, weight) + weight(row.1),
    decreases rows.len(),
{
    if rows.len() == 0 {
        assert(rows.push(row).drop_first() =~= rows);
    } else {
        assert(rows.push(row).drop_first() =~= rows.drop_first().push(row));
        total_after_push(rows.drop_first(), row, weight);
    }
}

/// The total after the row at a place was replaced.
pub proof fn total_after_update<X>(
    rows: Rows<X>,
    i: int,
    row: (Seq<char>, X),
    weight: spec_fn(X) -> nat,
)
    requires
        0 <= i < rows.len(),
    ensures
        total(rows.update(i, row), weight) + weight(rows[i].1) == total(rows, weight) + weight(
            row.1,
        ),
    decreases rows.len(),
{
    if i == 0 {
        assert(rows.update(i, row).drop_first() =~= rows.drop_first());
    } else {
        assert(rows.update(i, row).drop_first() =~= rows.drop_first().update(i - 1, row));
        total_after_update(rows.drop_first(), i - 1, row, weight);
    }
}

/// The total after the row at a place was taken out.
pub proof fn total_after_remove<X>(rows: Rows<X>, i: int, weight: spec_fn(X) -> nat)
    requires
        0 <= i < rows.len(),
    ensures
        total(rows.remove(i), weight) + weight(rows[i].1) == total(rows, weight),
    decreases rows.len(),
{
    if i == 0 {
        assert(rows.remove(i) =~= rows.drop_first());
    } else {
        assert(rows.remove(i).drop_first() =~= rows.drop_first().remove(i - 1));
        total_after_remove(rows.drop_first(), i - 1, weight);
    }
}

/// The weight of what stands under a key, zero where nothing does.
pub open spec fn weight_at<X>(rows: Rows<X>, key: Seq<char>, weight: spec_fn(X) -> nat) -> nat {
    match lookup(rows, key) {
        Some(value) => weight(value),
        None => 0,
    }
}

/// Putting a value changes the total by the value's weight less the weight of
/// what it replaces; taking a key out lowers the total by the weight of what
/// stood under it.
pub proof fn total_after_change<X>(
    rows: Rows<X>,
    key: Seq<char>,
    value: X,
    weight: spec_fn(X) -> nat,
)
    ensures
        total(put(rows, key, value), weight) + weight_at(rows, key, weight) == total(rows, weight)
            + weight(value),
        total(without(rows, key), weight) + weight_at(rows, key, weight) == total(rows, weight),
{
    position_is_first(rows, key);
    match position(rows, key) {
        Some(i) => {
            total_after_update(rows, i, (key, value), weight);
            total_after_remove(rows, i, weight);
        },
        None => {
            total_after_push(rows, (key, value), weight);
        },
    }
}

/// The first place at which `key` stands in a table.
pub fn find<V: View>(entries: &Vec<Entry<V>>, key: &str) -> (r: Option<usize>)
    ensures
        match r {
            Some(i) => position(rows(entries@), key@) == Some(i as int) && i < entries.len(),
            None => position(rows(entries@), key@) is None,
        },
{
    let mut i: usize = 0;
    while i < entries.len()
        invariant
            i <= entries.len(),
            forall|j: int| 0 <= j < i ==> rows(entries@)[j].0 != key@,
        decreases entries.len() - i,
    {
        if same_text(entries[i].key.as_str(), key) {
            proof {
                position_found(rows(entries@), key@, i as int);
            }
            return Some(i);
        }
        i += 1;
    }
    proof {
        position_absent(rows(entries@), key@);
    }
    None
}

} // verus!
