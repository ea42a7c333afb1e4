//! A model of the three target tables: rows under a natural key with an
//! `existed` marker, and the conflict-tolerant first-write-wins upsert.
//! Contracts speak of the rows' abstraction: key text, payload, marker.

use vstd::prelude::*;

use crate::models::CovidStatistics;
use crate::models::DataProvinsiOptVec;
use crate::models::IndoCovidStats;

verus! {

/// One stored row: its natural key, its payload, and the marker toggled
/// when the same key is written again.
pub struct UpsertRow<T> {
    pub key: String,
    pub value: T,
    pub existed: bool,
}

/// The abstraction of one row.
pub open spec fn row_abs<T>(r: UpsertRow<T>) -> (Seq<char>, T, bool) {
    (r.key@, r.value, r.existed)
}

/// The abstraction of a row sequence.
pub open spec fn abs_rows<T>(rows: Seq<UpsertRow<T>>) -> Seq<(Seq<char>, T, bool)> {
    rows.map_values(|r: UpsertRow<T>| row_abs(r))
}

/// Whether some row carries the key `k`.
pub open spec fn abs_contains<T>(rows: Seq<(Seq<char>, T, bool)>, k: Seq<char>) -> bool {
    exists|i: int| 0 <= i < rows.len() && rows[i].0 == k
}

/// Every row with key `k` marked as seen again; payloads untouched.
pub open spec fn abs_mark<T>(rows: Seq<(Seq<char>, T, bool)>, k: Seq<char>) -> Seq<
    (Seq<char>, T, bool),
> {
    Seq::new(
        rows.len(),
        |i: int|
            if rows[i].0 == k {
                (rows[i].0, rows[i].1, true)
            } else {
                rows[i]
            },
    )
}

/// The first-write-wins upsert: a conflicting key marks the stored row,
/// never overwrites it; a fresh key appends a row.
pub open spec fn abs_upsert<T>(rows: Seq<(Seq<char>, T, bool)>, k: Seq<char>, v: T) -> Seq<
    (Seq<char>, T, bool),
> {
    if abs_contains(rows, k) {
        abs_mark(rows, k)
    } else {
        rows.push((k, v, false))
    }
}

/// One logical table with a uniqueness constraint on its natural key.
pub struct UpsertTable<T> {
    pub rows: Vec<UpsertRow<T>>,
}

impl<T> UpsertTable<T> {
    /// No two rows carry the same key.
    pub open spec fn unique_keys(self) -> bool {
        forall|i: int, j: int|
            0 <= i < j < self.rows@.len() ==> self.rows@[i].key@ != self.rows@[j].key@
    }

    /// The abstraction of the whole table.
    pub open spec fn view_rows(self) -> Seq<(Seq<char>, T, bool)> {
        abs_rows(self.rows@)
    }

    /// An empty table.
    pub fn new() -> (r: Self)
        ensures
            r.rows@.len() == 0,
            r.unique_keys(),
    {
        UpsertTable { rows: Vec::new() }
    }

    /// Upserts one row under its natural key, first write winning.
    pub fn upsert(&mut self, key: String, value: T)
        requires
            old(self).unique_keys(),
        ensures
            final(self).view_rows() =~= abs_upsert(old(self).view_rows(), key@, value),
            final(self).unique_keys(),
    {
        let ghost orig = self.rows@;
        let mut j: usize = 0;
        let mut found: bool = false;
        let n = self.rows.len();
        while !found && j < n
            invariant
                n == self.rows@.len(),
                j <= n,
                self.rows@ == orig,
                !found ==> forall|i: int| 0 <= i < j ==> orig[i].key@ != key@,
                found ==> j < n && orig[j as int].key@ == key@,
            decreases n - j + (if found {
                0int
            } else {
                1
            }),
        {
            if self.rows[j].key.eq(&key) {
                found = true;
            } else {
                j = j + 1;
            }
        }
        if found {
            assert(orig[j as int].key@ == key@);
            self.rows[j].existed = true;
            proof {
                assert(abs_rows(orig)[j as int].0 == key@);
                assert(abs_contains(abs_rows(orig), key@));
                assert forall|i: int|
                    0 <= i < orig.len() implies abs_rows(self.rows@)[i] == abs_mark(
                    abs_rows(orig),
                    key@,
                )[i] by {
                    if i != j {
                        assert(orig[i].key@ != key@);
                        assert(self.rows@[i] == orig[i]);
                    }
                }
                assert(abs_rows(self.rows@) =~= abs_mark(abs_rows(orig), key@));
            }
        } else {
            proof {
                assert forall|i: int| 0 <= i < abs_rows(orig).len() implies abs_rows(orig)[i].0
                    != key@ by {
                    assert(orig[i].key@ != key@);
                }
                assert(!abs_contains(abs_rows(orig), key@));
            }
            let ghost kv = key@;
            self.rows.push(UpsertRow { key, value, existed: false });
            proof {
                assert forall|i: int|
                    0 <= i < self.rows@.len() implies abs_rows(self.rows@)[i] == abs_rows(
                    orig,
                ).push((kv, value, false))[i] by {
                    if i < orig.len() {
                        assert(self.rows@[i] == orig[i]);
                    }
                }
                assert(abs_rows(self.rows@) =~= abs_rows(orig).push((kv, value, false)));
            }
        }
    }
}

/// A second upsert under the same key neither adds a row nor changes any
/// key or payload: only the `existed` marker of the conflicting row moves.
/// This is the first-write-wins idempotence of the store.
pub proof fn lemma_upsert_first_write_wins<T>(
    rows: Seq<(Seq<char>, T, bool)>,
    k: Seq<char>,
    v1: T,
    v2: T,
)
    ensures
        abs_upsert(abs_upsert(rows, k, v1), k, v2).len() == abs_upsert(rows, k, v1).len(),
        forall|i: int|
            0 <= i < abs_upsert(rows, k, v1).len() ==> #[trigger] abs_upsert(
                abs_upsert(rows, k, v1),
                k,
                v2,
            )[i].0 == abs_upsert(rows, k, v1)[i].0 && abs_upsert(abs_upsert(rows, k, v1), k, v2)[i].1
                == abs_upsert(rows, k, v1)[i].1,
{
    let once = abs_upsert(rows, k, v1);
    if abs_contains(rows, k) {
        let w = choose|i: int| 0 <= i < rows.len() && rows[i].0 == k;
        assert(once[w].0 == k);
        assert(abs_contains(once, k));
    } else {
        assert(once[rows.len() as int].0 == k);
        assert(abs_contains(once, k));
    }
    assert(abs_upsert(once, k, v2) == abs_mark(once, k));
}

/// The daily table's natural key: the record's reporting date; a record
/// without one is skipped.
pub open spec fn daily_key(s: IndoCovidStats) -> Option<Seq<char>> {
    match s.date {
        Some(d) => Some(d@),
        None => None,
    }
}

/// The province table's natural key: `{province}_{10-char-date-prefix}`;
/// a record without province or date, or with a date shorter than ten
/// characters, is skipped.
pub open spec fn province_key(s: IndoCovidStats) -> Option<Seq<char>> {
    match (s.provinsi, s.date) {
        (Some(p), Some(d)) => if d@.len() >= 10 {
            Some(p@ + "_"@ + d@.subrange(0, 10))
        } else {
            None
        },
        _ => None,
    }
}

/// One batch entry applied to the daily table: absent entries and entries
/// without a date are skipped, the rest upserted under their date.
pub open spec fn apply_daily_entry(
    rows: Seq<(Seq<char>, IndoCovidStats, bool)>,
    e: Option<IndoCovidStats>,
) -> Seq<(Seq<char>, IndoCovidStats, bool)> {
    match e {
        Some(s) => match daily_key(s) {
            Some(k) => abs_upsert(rows, k, s),
            None => rows,
        },
        None => rows,
    }
}

/// A whole batch applied to the daily table, in order.
pub open spec fn apply_daily_batch(
    rows: Seq<(Seq<char>, IndoCovidStats, bool)>,
    entries: Seq<Option<IndoCovidStats>>,
) -> Seq<(Seq<char>, IndoCovidStats, bool)>
    decreases entries.len(),
{
    if entries.len() == 0 {
        rows
    } else {
        apply_daily_entry(apply_daily_batch(rows, entries.drop_last()), entries.last())
    }
}

/// One batch entry applied to the province table, under the derived
/// composite key; unusable entries are skipped.
pub open spec fn apply_province_entry(
    rows: Seq<(Seq<char>, IndoCovidStats, bool)>,
    e: Option<IndoCovidStats>,
) -> Seq<(Seq<char>, IndoCovidStats, bool)> {
    match e {
        Some(s) => match province_key(s) {
            Some(k) => abs_upsert(rows, k, s),
            None => rows,
        },
        None => rows,
    }
}

/// A whole batch applied to the province table, in order.
pub open spec fn apply_province_batch(
    rows: Seq<(Seq<char>, IndoCovidStats, bool)>,
    entries: Seq<Option<IndoCovidStats>>,
) -> Seq<(Seq<char>, IndoCovidStats, bool)>
    decreases entries.len(),
{
    if entries.len() == 0 {
        rows
    } else {
        apply_province_entry(apply_province_batch(rows, entries.drop_last()), entries.last())
    }
}

/// Upserts a batch into the daily table, in order, one transaction's
/// worth; entries without a payload or a date are skipped, not errors.
pub fn insert_daily_batch(table: &mut UpsertTable<IndoCovidStats>, batch: DataProvinsiOptVec)
    requires
        old(table).unique_keys(),
    ensures
        final(table).view_rows() =~= apply_daily_batch(
            old(table).view_rows(),
            batch.provinsi_vec@,
        ),
        final(table).unique_keys(),
{
    let ghost entries = batch.provinsi_vec@;
    let ghost orig = table.view_rows();
    let mut rest = batch.provinsi_vec;
    let total = rest.len();
    assert(entries.len() == total);
    let mut done: usize = 0;
    while rest.len() > 0
        invariant
            done + rest@.len() == entries.len(),
            entries.len() <= usize::MAX,
            forall|j: int| 0 <= j < rest@.len() ==> rest@[j] == entries[done + j],
            table.view_rows() =~= apply_daily_batch(orig, entries.take(done as int)),
            table.unique_keys(),
        decreases rest.len(),
    {
        let ghost ev = rest@[0];
        proof {
            assert(ev == entries[done as int]);
        }
        let e = rest.remove(0);
        let ghost before = table.view_rows();
        match e {
            Some(s) => {
                match &s.date {
                    Some(d) => {
                        let key = d.clone();
                        table.upsert(key, s);
                    },
                    None => {},
                }
            },
            None => {},
        }
        proof {
            assert(table.view_rows() =~= apply_daily_entry(before, ev));
            assert(entries.take(done + 1).drop_last() =~= entries.take(done as int));
            assert(entries.take(done + 1).last() == entries[done as int]);
            assert(table.view_rows() =~= apply_daily_batch(orig, entries.take(done + 1)));
        }
        done = done + 1;
    }
    proof {
        assert(entries.take(entries.len() as int) =~= entries);
    }
}

/// Upserts a batch into the province table, keyed by the derived
/// composite key; entries without a payload, province or usable date are
/// skipped, not errors.
pub fn insert_province_batch(table: &mut UpsertTable<IndoCovidStats>, batch: DataProvinsiOptVec)
    requires
        old(table).unique_keys(),
    ensures
        final(table).view_rows() =~= apply_province_batch(
            old(table).view_rows(),
            batch.provinsi_vec@,
        ),
        final(table).unique_keys(),
{
    let ghost entries = batch.provinsi_vec@;
    let ghost orig = table.view_rows();
    let mut rest = batch.provinsi_vec;
    let total = rest.len();
    assert(entries.len() == total);
    let mut done: usize = 0;
    while rest.len() > 0
        invariant
            done + rest@.len() == entries.len(),
            entries.len() <= usize::MAX,
            forall|j: int| 0 <= j < rest@.len() ==> rest@[j] == entries[done + j],
            table.view_rows() =~= apply_province_batch(orig, entries.take(done as int)),
            table.unique_keys(),
        decreases rest.len(),
    {
        let ghost ev = rest@[0];
        proof {
            assert(ev == entries[done as int]);
        }
        let e = rest.remove(0);
        let ghost before = table.view_rows();
        match e {
            Some(s) => {
                match (&s.provinsi, &s.date) {
                    (Some(p), Some(d)) => {
                        if d.as_str().unicode_len() >= 10 {
                            let mut key = p.clone();
                            key.append("_");
                            let pre = d.as_str().substring_char(0, 10);
                            key.append(pre);
                            table.upsert(key, s);
                        }
                    },
                    _ => {},
                }
            },
            None => {},
        }
        proof {
            assert(table.view_rows() =~= apply_province_entry(before, ev));
            assert(entries.take(done + 1).drop_last() =~= entries.take(done as int));
            assert(entries.take(done + 1).last() == entries[done as int]);
            assert(table.view_rows() =~= apply_province_batch(orig, entries.take(done + 1)));
        }
        done = done + 1;
    }
    proof {
        assert(entries.take(entries.len() as int) =~= entries);
    }
}

/// Upserts the composite cumulative record under its creation date; a
/// record without one is skipped.
pub fn insert_cumulative(table: &mut UpsertTable<CovidStatistics>, stats: CovidStatistics)
    requires
        old(table).unique_keys(),
    ensures
        final(table).view_rows() =~= (match stats.created {
            Some(c) => abs_upsert(old(table).view_rows(), c@, stats),
            None => old(table).view_rows(),
        }),
        final(table).unique_keys(),
{
    match &stats.created {
        Some(c) => {
            let key = c.clone();
            table.upsert(key, stats);
        },
        None => {},
    }
}

/// Two row sequences with the same keys and payloads in the same order;
/// only the `existed` markers may differ.
pub open spec fn same_content<T>(
    a: Seq<(Seq<char>, T, bool)>,
    b: Seq<(Seq<char>, T, bool)>,
) -> bool {
    a.len() == b.len() && forall|i: int|
        0 <= i < a.len() ==> #[trigger] a[i].0 == b[i].0 && a[i].1 == b[i].1
}

proof fn lemma_mark_same_content<T>(rows: Seq<(Seq<char>, T, bool)>, k: Seq<char>)
    ensures
        same_content(abs_mark(rows, k), rows),
{
}

proof fn lemma_same_content_contains<T>(
    a: Seq<(Seq<char>, T, bool)>,
    b: Seq<(Seq<char>, T, bool)>,
    k: Seq<char>,
)
    requires
        same_content(a, b),
    ensures
        abs_contains(a, k) == abs_contains(b, k),
{
    if abs_contains(a, k) {
        let w = choose|i: int| 0 <= i < a.len() && a[i].0 == k;
        assert(b[w].0 == k);
    }
    if abs_contains(b, k) {
        let w = choose|i: int| 0 <= i < b.len() && b[i].0 == k;
        assert(a[w].0 == k);
    }
}

proof fn lemma_upsert_preserves_contains<T>(
    rows: Seq<(Seq<char>, T, bool)>,
    k: Seq<char>,
    v: T,
    k2: Seq<char>,
)
    requires
        abs_contains(rows, k2),
    ensures
        abs_contains(abs_upsert(rows, k, v), k2),
{
    let w = choose|i: int| 0 <= i < rows.len() && rows[i].0 == k2;
    assert(abs_upsert(rows, k, v)[w].0 == k2);
}

proof fn lemma_upsert_adds_contains<T>(rows: Seq<(Seq<char>, T, bool)>, k: Seq<char>, v: T)
    ensures
        abs_contains(abs_upsert(rows, k, v), k),
{
    if abs_contains(rows, k) {
        let w = choose|i: int| 0 <= i < rows.len() && rows[i].0 == k;
        assert(abs_upsert(rows, k, v)[w].0 == k);
    } else {
        assert(abs_upsert(rows, k, v)[rows.len() as int].0 == k);
    }
}

proof fn lemma_daily_entry_preserves_contains(
    rows: Seq<(Seq<char>, IndoCovidStats, bool)>,
    e: Option<IndoCovidStats>,
    k2: Seq<char>,
)
    requires
        abs_contains(rows, k2),
    ensures
        abs_contains(apply_daily_entry(rows, e), k2),
{
    match e {
        Some(s) => match daily_key(s) {
            Some(k) => lemma_upsert_preserves_contains(rows, k, s, k2),
            None => {},
        },
        None => {},
    }
}

/// Every keyed entry of a batch is present after the batch is applied to
/// the daily table.
proof fn lemma_daily_batch_contains(
    rows: Seq<(Seq<char>, IndoCovidStats, bool)>,
    entries: Seq<Option<IndoCovidStats>>,
    j: int,
)
    requires
        0 <= j < entries.len(),
        entries[j] is Some,
        daily_key(entries[j]->0) is Some,
    ensures
        abs_contains(apply_daily_batch(rows, entries), daily_key(entries[j]->0)->0),
    decreases entries.len(),
{
    let prev = apply_daily_batch(rows, entries.drop_last());
    if j == entries.len() - 1 {
        let s = entries[j]->0;
        lemma_upsert_adds_contains(prev, daily_key(s)->0, s);
    } else {
        lemma_daily_batch_contains(rows, entries.drop_last(), j);
        lemma_daily_entry_preserves_contains(prev, entries.last(), daily_key(entries[j]->0)->0);
    }
}

/// Applying the daily batch a second time leaves one logical row per
/// natural key and alters no stored key or payload: the whole batch is
/// first-write-wins idempotent.
pub proof fn lemma_daily_batch_first_write_wins(
    rows: Seq<(Seq<char>, IndoCovidStats, bool)>,
    entries: Seq<Option<IndoCovidStats>>,
)
    ensures
        same_content(
            apply_daily_batch(apply_daily_batch(rows, entries), entries),
            apply_daily_batch(rows, entries),
        ),
{
    lemma_daily_batch_rewrite_same(rows, entries, entries.len() as int);
    assert(entries.take(entries.len() as int) =~= entries);
}

/// The second application of any batch prefix to the daily table keeps
/// the content of the first full application.
proof fn lemma_daily_batch_rewrite_same(
    rows: Seq<(Seq<char>, IndoCovidStats, bool)>,
    entries: Seq<Option<IndoCovidStats>>,
    i: int,
)
    requires
        0 <= i <= entries.len(),
    ensures
        same_content(
            apply_daily_batch(apply_daily_batch(rows, entries), entries.take(i)),
            apply_daily_batch(rows, entries),
        ),
    decreases i,
{
    let once = apply_daily_batch(rows, entries);
    if i == 0 {
        assert(entries.take(0).len() == 0);
    } else {
        lemma_daily_batch_rewrite_same(rows, entries, i - 1);
        let cur = apply_daily_batch(once, entries.take(i - 1));
        assert(entries.take(i).drop_last() =~= entries.take(i - 1));
        assert(entries.take(i).last() == entries[i - 1]);
        match entries[i - 1] {
            Some(s) => {
                match daily_key(s) {
                    Some(k) => {
                        lemma_daily_batch_contains(rows, entries, i - 1);
                        lemma_same_content_contains(cur, once, k);
                        assert(abs_contains(cur, k));
                        assert(apply_daily_entry(cur, entries[i - 1]) == abs_mark(cur, k));
                        lemma_mark_same_content(cur, k);
                    },
                    None => {},
                }
            },
            None => {},
        }
    }
}

proof fn lemma_province_entry_preserves_contains(
    rows: Seq<(Seq<char>, IndoCovidStats, bool)>,
    e: Option<IndoCovidStats>,
    k2: Seq<char>,
)
    requires
        abs_contains(rows, k2),
    ensures
        abs_contains(apply_province_entry(rows, e), k2),
{
    match e {
        Some(s) => match province_key(s) {
            Some(k) => lemma_upsert_preserves_contains(rows, k, s, k2),
            None => {},
        },
        None => {},
    }
}

/// Every keyed entry of a batch is present after the batch is applied to
/// the province table.
proof fn lemma_province_batch_contains(
    rows: Seq<(Seq<char>, IndoCovidStats, bool)>,
    entries: Seq<Option<IndoCovidStats>>,
    j: int,
)
    requires
        0 <= j < entries.len(),
        entries[j] is Some,
        province_key(entries[j]->0) is Some,
    ensures
        abs_contains(apply_province_batch(rows, entries), province_key(entries[j]->0)->0),
    decreases entries.len(),
{
    let prev = apply_province_batch(rows, entries.drop_last());
    if j == entries.len() - 1 {
        let s = entries[j]->0;
        lemma_upsert_adds_contains(prev, province_key(s)->0, s);
    } else {
        lemma_province_batch_contains(rows, entries.drop_last(), j);
        lemma_province_entry_preserves_contains(
            prev,
            entries.last(),
            province_key(entries[j]->0)->0,
        );
    }
}

/// Applying the province batch a second time leaves one logical row per
/// natural key and alters no stored key or payload.
pub proof fn lemma_province_batch_first_write_wins(
    rows: Seq<(Seq<char>, IndoCovidStats, bool)>,
    entries: Seq<Option<IndoCovidStats>>,
)
    ensures
        same_content(
            apply_province_batch(apply_province_batch(rows, entries), entries),
            apply_province_batch(rows, entries),
        ),
{
    lemma_province_batch_rewrite_same(rows, entries, entries.len() as int);
    assert(entries.take(entries.len() as int) =~= entries);
}

proof fn lemma_province_batch_rewrite_same(
    rows: Seq<(Seq<char>, IndoCovidStats, bool)>,
    entries: Seq<Option<IndoCovidStats>>,
    i: int,
)
    requires
        0 <= i <= entries.len(),
    ensures
        same_content(
            apply_province_batch(apply_province_batch(rows, entries), entries.take(i)),
            apply_province_batch(rows, entries),
        ),
    decreases i,
{
    let once = apply_province_batch(rows, entries);
    if i == 0 {
        assert(entries.take(0).len() == 0);
    } else {
        lemma_province_batch_rewrite_same(rows, entries, i - 1);
        let cur = apply_province_batch(once, entries.take(i - 1));
        assert(entries.take(i).drop_last() =~= entries.take(i - 1));
        assert(entries.take(i).last() == entries[i - 1]);
        match entries[i - 1] {
            Some(s) => {
                match province_key(s) {
                    Some(k) => {
                        lemma_province_batch_contains(rows, entries, i - 1);
                        lemma_same_content_contains(cur, once, k);
                        assert(abs_contains(cur, k));
                        assert(apply_province_entry(cur, entries[i - 1]) == abs_mark(cur, k));
                        lemma_mark_same_content(cur, k);
                    },
                    None => {},
                }
            },
            None => {},
        }
    }
}

/// An empty batch writes nothing: downstream persistence of an empty
/// feature list completes with zero records written.
pub proof fn lemma_empty_batch_writes_nothing(
    rows: Seq<(Seq<char>, IndoCovidStats, bool)>,
    entries: Seq<Option<IndoCovidStats>>,
)
    requires
        entries.len() == 0,
    ensures
        apply_daily_batch(rows, entries) == rows,
        apply_province_batch(rows, entries) == rows,
{
}

} // verus!
