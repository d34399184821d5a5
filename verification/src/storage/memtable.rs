//! The in-memory write buffer and the visibility rule of multi-version reads.

use vstd::prelude::*;
use crate::storage::error::{Error, Result};
use crate::storage::write_batch::RowOp;

verus! {

/// The position of a mutation in the total order of a region's writes.
pub type SequenceNumber = u64;

/// What a mutation does to its key.
#[derive(Clone, Copy, Debug, PartialEq, Eq, Structural)]
pub enum OpType {
    /// The key gets a value.
    Put,
    /// The key is removed.
    Delete,
}

/// One versioned mutation of one key.
#[derive(Clone, Copy, Debug, PartialEq, Eq)]
pub struct Entry {
    /// The timestamp that identifies the row.
    pub key: i64,
    /// The sequence number the mutation was committed under.
    pub sequence: SequenceNumber,
    /// Whether the row is written or removed.
    pub op: OpType,
    /// The value column of the row; always `None` for a delete.
    pub value: Option<i64>,
}

/// One row as a scan returns it: the timestamp and the value.
pub type Row = (i64, Option<i64>);

/// The position in `entries` of the mutation that decides `key` for a reader
/// at `ceiling`: among the mutations of `key` with a sequence number of at
/// most `ceiling`, the one with the highest sequence number (the later one if
/// two are equal).
pub open spec fn latest_index(entries: Seq<Entry>, key: i64, ceiling: SequenceNumber) -> Option<int>
    decreases entries.len(),
{
    if entries.len() == 0 {
        None
    } else {
        let rest = latest_index(entries.drop_last(), key, ceiling);
        let e = entries.last();
        if e.key == key && e.sequence <= ceiling && (rest is None || entries[rest.unwrap()].sequence
            <= e.sequence) {
            Some(entries.len() - 1)
        } else {
            rest
        }
    }
}

/// The mutation that decides `key` for a reader at `ceiling`, if any.
pub open spec fn latest(entries: Seq<Entry>, key: i64, ceiling: SequenceNumber) -> Option<Entry> {
    match latest_index(entries, key, ceiling) {
        Some(i) => Some(entries[i]),
        None => None,
    }
}

/// What a reader at `ceiling` sees under `key`: `Some(value)` if the deciding
/// mutation is a put, `None` if there is none or it is a delete.
pub open spec fn visible_value(entries: Seq<Entry>, key: i64, ceiling: SequenceNumber) -> Option<
    Option<i64>,
> {
    match latest(entries, key, ceiling) {
        Some(e) => if e.op == OpType::Put {
            Some(e.value)
        } else {
            None
        },
        None => None,
    }
}

/// The content of `entries` as a reader at `ceiling` sees it: every visible
/// key with its value.
pub open spec fn snapshot_map(entries: Seq<Entry>, ceiling: SequenceNumber) -> Map<
    i64,
    Option<i64>,
> {
    Map::new(
        |k: i64| visible_value(entries, k, ceiling) is Some,
        |k: i64| visible_value(entries, k, ceiling).unwrap(),
    )
}

/// `rows` is the scan of `entries` at `ceiling`: ascending in the key, each
/// row visible, and no visible key left out.
pub open spec fn is_scan_of(rows: Seq<Row>, entries: Seq<Entry>, ceiling: SequenceNumber) -> bool {
    &&& forall|i: int, j: int| 0 <= i < j < rows.len() ==> rows[i].0 < rows[j].0
    &&& forall|i: int|
        0 <= i < rows.len() ==> visible_value(entries, #[trigger] rows[i].0, ceiling) == Some(
            rows[i].1,
        )
    &&& forall|k: i64| #[trigger]
        visible_value(entries, k, ceiling) is Some ==> exists|i: int|
            0 <= i < rows.len() && rows[i].0 == k
}

/// A range of timestamps: from `start` on, up to but not including `end`.
#[derive(Clone, Copy, Debug, PartialEq, Eq)]
pub struct TimeRange {
    pub start: i64,
    pub end: i64,
}

impl TimeRange {
    /// Whether the timestamp `key` lies in the range.
    pub open spec fn holds(self, key: i64) -> bool {
        self.start <= key < self.end
    }

    /// Whether the timestamp `key` lies in the range.
    pub fn contains(&self, key: i64) -> (b: bool)
        ensures
            b == self.holds(key),
    {
        self.start <= key && key < self.end
    }
}

/// Whether the timestamp `key` lies in the range, if there is one.
pub open spec fn in_range(range: Option<TimeRange>, key: i64) -> bool {
    match range {
        Some(r) => r.holds(key),
        None => true,
    }
}

/// `rows` is the scan of `entries` at `ceiling` within `range`: ascending in
/// the key, each row visible and within the range, and no visible key of the
/// range left out.
pub open spec fn is_scan_within(
    rows: Seq<Row>,
    entries: Seq<Entry>,
    ceiling: SequenceNumber,
    range: Option<TimeRange>,
) -> bool {
    &&& forall|i: int, j: int| 0 <= i < j < rows.len() ==> rows[i].0 < rows[j].0
    &&& forall|i: int|
        0 <= i < rows.len() ==> visible_value(entries, #[trigger] rows[i].0, ceiling) == Some(
            rows[i].1,
        ) && in_range(range, rows[i].0)
    &&& forall|k: i64| #[trigger]
        visible_value(entries, k, ceiling) is Some && in_range(range, k) ==> exists|i: int|
            0 <= i < rows.len() && rows[i].0 == k
}

/// The rows within `range` that a reader at `ceiling` sees in `entries`,
/// ascending in the key.
pub fn visible_rows_within(entries: &Vec<Entry>, ceiling: SequenceNumber, range: Option<TimeRange>) -> (rows: Vec<
    Row,
>)
    ensures
        is_scan_within(rows@, entries@, ceiling, range),
        range is None ==> is_scan_of(rows@, entries@, ceiling),
{
    let rows = visible_rows(entries, ceiling);
    retain_range(rows, range, Ghost(entries@), Ghost(ceiling))
}

/// Those of the rows of a scan that lie within `range`.
fn retain_range(
    rows: Vec<Row>,
    range: Option<TimeRange>,
    Ghost(entries): Ghost<Seq<Entry>>,
    Ghost(ceiling): Ghost<SequenceNumber>,
) -> (kept: Vec<Row>)
    requires
        is_scan_of(rows@, entries, ceiling),
    ensures
        is_scan_within(kept@, entries, ceiling, range),
        range is None ==> kept@ == rows@,
{
    let range = match range {
        Some(r) => r,
        None => {
            return rows;
        },
    };
    let mut kept: Vec<Row> = Vec::new();
    let mut i: usize = 0;
    while i < rows.len()
        invariant
            i <= rows@.len(),
            is_scan_of(rows@, entries, ceiling),
            forall|a: int, b: int| 0 <= a < b < kept@.len() ==> kept@[a].0 < kept@[b].0,
            forall|a: int|
                0 <= a < kept@.len() ==> range.holds((#[trigger] kept@[a]).0) && exists|j: int|
                    0 <= j < i && rows@[j] == kept@[a],
            forall|j: int|
                0 <= j < i && range.holds((#[trigger] rows@[j]).0) ==> exists|a: int|
                    0 <= a < kept@.len() && kept@[a] == rows@[j],
        decreases rows@.len() - i,
    {
        let ghost before = kept@;
        if range.contains(rows[i].0) {
            kept.push(rows[i]);
            proof {
                assert forall|a: int, b: int| 0 <= a < b < kept@.len() implies kept@[a].0
                    < kept@[b].0 by {
                    if b == kept@.len() - 1 {
                        assert(kept@[a] == before[a]);
                        let j = choose|j: int| 0 <= j < i && rows@[j] == before[a];
                        assert(rows@[j].0 < rows@[i as int].0);
                    } else {
                        assert(kept@[a] == before[a] && kept@[b] == before[b]);
                    }
                }
                assert forall|a: int| 0 <= a < kept@.len() implies range.holds(
                    (#[trigger] kept@[a]).0,
                ) && exists|j: int| 0 <= j < i + 1 && rows@[j] == kept@[a] by {
                    if a < before.len() {
                        assert(kept@[a] == before[a]);
                        let j = choose|j: int| 0 <= j < i && rows@[j] == before[a];
                        assert(rows@[j] == kept@[a]);
                    } else {
                        assert(rows@[i as int] == kept@[a]);
                    }
                }
                assert forall|j: int| 0 <= j < i + 1 && range.holds((#[trigger] rows@[j]).0) implies exists|
                    a: int,
                | 0 <= a < kept@.len() && kept@[a] == rows@[j] by {
                    if j < i {
                        let a = choose|a: int| 0 <= a < before.len() && before[a] == rows@[j];
                        assert(kept@[a] == rows@[j]);
                    } else {
                        assert(kept@[kept@.len() - 1] == rows@[j]);
                    }
                }
            }
        }
        i += 1;
    }
    proof {
        assert forall|a: int| 0 <= a < kept@.len() implies visible_value(
            entries,
            #[trigger] kept@[a].0,
            ceiling,
        ) == Some(kept@[a].1) && in_range(Some(range), kept@[a].0) by {
            let j = choose|j: int| 0 <= j < rows@.len() && rows@[j] == kept@[a];
            assert(visible_value(entries, rows@[j].0, ceiling) == Some(rows@[j].1));
        }
        assert forall|k: i64| #[trigger]
            visible_value(entries, k, ceiling) is Some && in_range(Some(range), k) implies exists|
            a: int,
        | 0 <= a < kept@.len() && kept@[a].0 == k by {
            let j = choose|j: int| 0 <= j < rows@.len() && rows@[j].0 == k;
            assert(range.holds(rows@[j].0));
            let a = choose|a: int| 0 <= a < kept@.len() && kept@[a] == rows@[j];
            assert(kept@[a].0 == k);
        }
    }
    kept
}

/// Whether `rows` lists the map `m`: ascending in the key, each row a pair of
/// the map, and no key of the map left out.
pub open spec fn is_listing(rows: Seq<Row>, m: Map<i64, Option<i64>>) -> bool {
    &&& forall|i: int, j: int| 0 <= i < j < rows.len() ==> rows[i].0 < rows[j].0
    &&& forall|i: int|
        0 <= i < rows.len() ==> m.dom().contains(#[trigger] rows[i].0) && m[rows[i].0] == rows[i].1
    &&& forall|k: i64| #[trigger]
        m.dom().contains(k) ==> exists|i: int| 0 <= i < rows.len() && rows[i].0 == k
}

/// A map has one listing only.
pub proof fn lemma_listing_unique(a: Seq<Row>, b: Seq<Row>, m: Map<i64, Option<i64>>)
    requires
        is_listing(a, m),
        is_listing(b, m),
    ensures
        a == b,
    decreases a.len(),
{
    if a.len() == 0 {
        if b.len() > 0 {
            assert(m.dom().contains(b[0].0));
        }
        assert(a =~= b);
    } else {
        let x = a.last();
        assert(m.dom().contains(a[a.len() - 1].0));
        let j = choose|j: int| 0 <= j < b.len() && b[j].0 == x.0;
        if j != b.len() - 1 {
            assert(m.dom().contains(b[b.len() - 1].0));
            let i = choose|i: int| 0 <= i < a.len() && a[i].0 == b[b.len() - 1].0;
            assert(a[i].0 > a[a.len() - 1].0);
        }
        let rest = m.remove(x.0);
        let a1 = a.drop_last();
        let b1 = b.drop_last();
        assert forall|k: i64| #[trigger] rest.dom().contains(k) implies exists|i: int|
            0 <= i < a1.len() && a1[i].0 == k by {
            assert(m.dom().contains(k));
            let i = choose|i: int| 0 <= i < a.len() && a[i].0 == k;
            assert(a1[i].0 == k);
        }
        assert forall|k: i64| #[trigger] rest.dom().contains(k) implies exists|i: int|
            0 <= i < b1.len() && b1[i].0 == k by {
            assert(m.dom().contains(k));
            let i = choose|i: int| 0 <= i < b.len() && b[i].0 == k;
            assert(b1[i].0 == k);
        }
        assert(is_listing(a1, rest)) by {
            assert forall|i: int| 0 <= i < a1.len() implies rest.dom().contains(
                #[trigger] a1[i].0,
            ) && rest[a1[i].0] == a1[i].1 by {
                assert(a1[i] == a[i]);
                assert(a[i].0 < a[a.len() - 1].0);
            }
        }
        assert(is_listing(b1, rest)) by {
            assert forall|i: int| 0 <= i < b1.len() implies rest.dom().contains(
                #[trigger] b1[i].0,
            ) && rest[b1[i].0] == b1[i].1 by {
                assert(b1[i] == b[i]);
                assert(b[i].0 < b[b.len() - 1].0);
            }
        }
        lemma_listing_unique(a1, b1, rest);
        assert(m[x.0] == a[a.len() - 1].1);
        assert(m[b[b.len() - 1].0] == b[b.len() - 1].1);
        assert(a =~= a1.push(a.last()));
        assert(b =~= b1.push(b.last()));
    }
}

/// The scan of some entries at a ceiling is the listing of what a reader at
/// that ceiling sees, and there is one such scan only.
pub proof fn lemma_scan_is_listing(rows: Seq<Row>, entries: Seq<Entry>, ceiling: SequenceNumber)
    ensures
        is_scan_of(rows, entries, ceiling) <==> is_listing(rows, snapshot_map(entries, ceiling)),
{
    let m = snapshot_map(entries, ceiling);
    if is_scan_of(rows, entries, ceiling) {
        assert forall|k: i64| #[trigger] m.dom().contains(k) implies exists|i: int|
            0 <= i < rows.len() && rows[i].0 == k by {
            assert(visible_value(entries, k, ceiling) is Some);
        }
    }
    if is_listing(rows, m) {
        assert forall|i: int| 0 <= i < rows.len() implies visible_value(
            entries,
            #[trigger] rows[i].0,
            ceiling,
        ) == Some(rows[i].1) by {
            assert(m.dom().contains(rows[i].0));
        }
        assert forall|k: i64| #[trigger]
            visible_value(entries, k, ceiling) is Some implies exists|i: int|
            0 <= i < rows.len() && rows[i].0 == k by {
            assert(m.dom().contains(k));
        }
    }
}

/// Two scans of the same entries at the same ceiling are the same rows.
pub proof fn lemma_scan_unique(a: Seq<Row>, b: Seq<Row>, entries: Seq<Entry>, ceiling: SequenceNumber)
    requires
        is_scan_of(a, entries, ceiling),
        is_scan_of(b, entries, ceiling),
    ensures
        a == b,
{
    lemma_scan_is_listing(a, entries, ceiling);
    lemma_scan_is_listing(b, entries, ceiling);
    lemma_listing_unique(a, b, snapshot_map(entries, ceiling));
}

/// What `latest_index` returns lies in range, belongs to the key, is within
/// the ceiling and is not beaten by any other candidate; and it returns
/// something whenever there is a candidate.
pub proof fn lemma_latest_index(entries: Seq<Entry>, key: i64, ceiling: SequenceNumber)
    ensures
        match latest_index(entries, key, ceiling) {
            Some(i) => {
                &&& 0 <= i < entries.len()
                &&& entries[i].key == key
                &&& entries[i].sequence <= ceiling
                &&& forall|j: int|
                    0 <= j < entries.len() && entries[j].key == key && #[trigger] entries[j].sequence
                        <= ceiling ==> entries[j].sequence < entries[i].sequence || (
                    entries[j].sequence == entries[i].sequence && j <= i)
            },
            None => forall|j: int|
                0 <= j < entries.len() ==> !(#[trigger] entries[j].key == key && entries[j].sequence
                    <= ceiling),
        },
    decreases entries.len(),
{
    if entries.len() > 0 {
        let front = entries.drop_last();
        lemma_latest_index(front, key, ceiling);
        assert(forall|j: int| 0 <= j < front.len() ==> front[j] == entries[j]);
    }
}

/// Whether the sequence numbers of `entries` are positive and strictly
/// increasing, as a region assigns them.
pub open spec fn increasing(entries: Seq<Entry>) -> bool {
    &&& forall|i: int| 0 <= i < entries.len() ==> (#[trigger] entries[i]).sequence > 0
    &&& forall|i: int, j: int|
        0 <= i < j < entries.len() ==> (#[trigger] entries[i]).sequence < (
        #[trigger] entries[j]).sequence
}

/// The map that one mutation turns `m` into.
pub open spec fn apply_entry(m: Map<i64, Option<i64>>, e: Entry) -> Map<i64, Option<i64>> {
    if e.op == OpType::Put {
        m.insert(e.key, e.value)
    } else {
        m.remove(e.key)
    }
}

/// The map that results from applying `entries` one after the other to an
/// empty map: the last writer of each key wins, and a deleted key is absent.
pub open spec fn replay_map(entries: Seq<Entry>) -> Map<i64, Option<i64>>
    decreases entries.len(),
{
    if entries.len() == 0 {
        Map::empty()
    } else {
        apply_entry(replay_map(entries.drop_last()), entries.last())
    }
}

/// A mutation above the ceiling decides nothing.
proof fn lemma_latest_ignores_above(entries: Seq<Entry>, n: int, key: i64, ceiling: SequenceNumber)
    requires
        0 <= n <= entries.len(),
        forall|j: int| n <= j < entries.len() ==> (#[trigger] entries[j]).sequence > ceiling,
    ensures
        latest_index(entries, key, ceiling) == latest_index(entries.take(n), key, ceiling),
    decreases entries.len() - n,
{
    if n == entries.len() {
        assert(entries.take(n) =~= entries);
    } else {
        let front = entries.drop_last();
        assert(entries.last() == entries[entries.len() - 1]);
        lemma_latest_ignores_above(front, n, key, ceiling);
        assert(front.take(n) =~= entries.take(n));
    }
}

/// Where every mutation lies within the ceiling, the ceiling does not matter.
proof fn lemma_latest_within(entries: Seq<Entry>, key: i64, ceiling: SequenceNumber)
    requires
        forall|j: int| 0 <= j < entries.len() ==> (#[trigger] entries[j]).sequence <= ceiling,
    ensures
        latest_index(entries, key, ceiling) == latest_index(entries, key, u64::MAX),
    decreases entries.len(),
{
    if entries.len() > 0 {
        let front = entries.drop_last();
        assert(entries.last() == entries[entries.len() - 1]);
        assert(forall|j: int| 0 <= j < front.len() ==> front[j] == entries[j]);
        lemma_latest_within(front, key, ceiling);
    }
}

/// A full scan returns exactly the last put of each key, with deleted keys
/// absent: what a reader without a ceiling sees is the map that results from
/// applying the mutations in the order of their sequence numbers.
pub proof fn lemma_full_scan_is_last_writer(entries: Seq<Entry>)
    requires
        increasing(entries),
    ensures
        snapshot_map(entries, u64::MAX) == replay_map(entries),
    decreases entries.len(),
{
    if entries.len() == 0 {
        assert(snapshot_map(entries, u64::MAX) =~= replay_map(entries));
    } else {
        let front = entries.drop_last();
        let e = entries.last();
        assert(forall|j: int| 0 <= j < front.len() ==> front[j] == entries[j]);
        lemma_full_scan_is_last_writer(front);
        assert forall|k: i64|
            visible_value(entries, k, u64::MAX) == if k == e.key {
                if e.op == OpType::Put {
                    Some(e.value)
                } else {
                    None
                }
            } else {
                visible_value(front, k, u64::MAX)
            } by {
            lemma_latest_index(front, k, u64::MAX);
        }
        assert(snapshot_map(entries, u64::MAX) =~= apply_entry(snapshot_map(front, u64::MAX), e));
    }
}

/// A reader whose ceiling is at or above every sequence number sees what a
/// reader without a ceiling sees: the last put of each key, with deleted
/// keys absent. So the scan at such a ceiling lists the map that results
/// from applying the mutations in order.
pub proof fn lemma_scan_of_all(entries: Seq<Entry>, ceiling: SequenceNumber, rows: Seq<Row>)
    requires
        increasing(entries),
        forall|i: int| 0 <= i < entries.len() ==> (#[trigger] entries[i]).sequence <= ceiling,
        is_scan_of(rows, entries, ceiling),
    ensures
        snapshot_map(entries, ceiling) == replay_map(entries),
        is_listing(rows, replay_map(entries)),
{
    lemma_full_scan_is_last_writer(entries);
    assert forall|k: i64| visible_value(entries, k, ceiling) == visible_value(
        entries,
        k,
        u64::MAX,
    ) by {
        lemma_latest_within(entries, k, ceiling);
    }
    assert(snapshot_map(entries, ceiling) =~= snapshot_map(entries, u64::MAX));
    lemma_scan_is_listing(rows, entries, ceiling);
}

/// A reader whose ceiling is the sequence number of a write sees that write
/// and everything before it, and nothing after it; a reader whose ceiling is
/// one less sees what was there before the write.
pub proof fn lemma_ceiling_boundary(entries: Seq<Entry>, i: int)
    requires
        increasing(entries),
        0 <= i < entries.len(),
    ensures
        snapshot_map(entries, entries[i].sequence) == replay_map(entries.take(i + 1)),
        snapshot_map(entries, (entries[i].sequence - 1) as u64) == replay_map(entries.take(i)),
        latest(entries, entries[i].key, entries[i].sequence) == Some(entries[i]),
        latest(entries, entries[i].key, (entries[i].sequence - 1) as u64) != Some(entries[i]),
{
    let at = entries[i].sequence;
    let below = (entries[i].sequence - 1) as u64;
    let upto = entries.take(i + 1);
    let before = entries.take(i);
    lemma_full_scan_is_last_writer(upto);
    lemma_full_scan_is_last_writer(before);
    assert forall|k: i64| visible_value(entries, k, at) == visible_value(upto, k, u64::MAX) by {
        lemma_latest_ignores_above(entries, i + 1, k, at);
        lemma_latest_within(upto, k, at);
        lemma_latest_index(upto, k, at);
    }
    assert forall|k: i64| visible_value(entries, k, below) == visible_value(before, k, u64::MAX) by {
        lemma_latest_ignores_above(entries, i, k, below);
        lemma_latest_within(before, k, below);
        lemma_latest_index(before, k, below);
    }
    assert(snapshot_map(entries, at) =~= snapshot_map(upto, u64::MAX));
    assert(snapshot_map(entries, below) =~= snapshot_map(before, u64::MAX));
    lemma_latest_ignores_above(entries, i + 1, entries[i].key, at);
    lemma_latest_index(before, entries[i].key, at);
    assert(upto.drop_last() =~= before);
    assert(upto.last() == entries[i]);
    lemma_latest_index(entries, entries[i].key, below);
}

/// Whether some row of `rows` has the key `k`.
pub open spec fn has_key(rows: Seq<Row>, k: i64) -> bool {
    exists|t: int| 0 <= t < rows.len() && (#[trigger] rows[t]).0 == k
}

/// Whether `rows` is strictly ascending in the key.
pub open spec fn ascending(rows: Seq<Row>) -> bool {
    forall|i: int, j: int| 0 <= i < j < rows.len() ==> rows[i].0 < rows[j].0
}

/// The first `n` entries decide exactly as the entries before the last one
/// do, once the last one is dropped.
proof fn lemma_latest_index_step(entries: Seq<Entry>, n: int, key: i64, ceiling: SequenceNumber)
    requires
        0 <= n < entries.len(),
    ensures
        latest_index(entries.take(n + 1), key, ceiling) == {
            let rest = latest_index(entries.take(n), key, ceiling);
            let e = entries[n];
            if e.key == key && e.sequence <= ceiling && (rest is None || entries[rest.unwrap()].sequence
                <= e.sequence) {
                Some(n)
            } else {
                rest
            }
        },
{
    let whole = entries.take(n + 1);
    assert(whole.drop_last() =~= entries.take(n));
    assert(whole.last() == entries[n]);
    lemma_latest_index(entries.take(n), key, ceiling);
}

/// The index of the mutation that decides `key` at `ceiling`.
pub fn find_latest(entries: &Vec<Entry>, key: i64, ceiling: SequenceNumber) -> (found: Option<usize>)
    ensures
        match found {
            Some(i) => latest_index(entries@, key, ceiling) == Some(i as int),
            None => latest_index(entries@, key, ceiling) is None,
        },
{
    let mut best: Option<usize> = None;
    let mut i: usize = 0;
    while i < entries.len()
        invariant
            i <= entries.len(),
            match best {
                Some(b) => latest_index(entries@.take(i as int), key, ceiling) == Some(b as int) && b
                    < i,
                None => latest_index(entries@.take(i as int), key, ceiling) is None,
            },
        decreases entries.len() - i,
    {
        proof {
            lemma_latest_index_step(entries@, i as int, key, ceiling);
        }
        let e = entries[i];
        if e.key == key && e.sequence <= ceiling {
            let wins = match best {
                Some(b) => entries[b].sequence <= e.sequence,
                None => true,
            };
            if wins {
                best = Some(i);
            }
        }
        i += 1;
    }
    proof {
        assert(entries@.take(entries.len() as int) =~= entries@);
    }
    best
}

/// Puts the row `(key, value)` into `rows` at the place its key asks for.
fn insert_row(rows: &mut Vec<Row>, key: i64, value: Option<i64>)
    requires
        ascending(old(rows)@),
        !has_key(old(rows)@, key),
    ensures
        ascending(final(rows)@),
        final(rows)@.len() == old(rows)@.len() + 1,
        exists|pos: int|
            0 <= pos <= old(rows)@.len() && final(rows)@ == old(rows)@.insert(pos, (key, value)),
{
    let mut pos: usize = 0;
    while pos < rows.len() && rows[pos].0 < key
        invariant
            pos <= rows.len(),
            forall|t: int| 0 <= t < pos ==> rows@[t].0 < key,
        decreases rows.len() - pos,
    {
        pos += 1;
    }
    proof {
        let before = rows@;
        assert forall|t: int| pos <= t < before.len() implies before[t].0 > key by {
            assert(before[pos as int].0 >= key);
            assert(before[t].0 != key);
        }
    }
    rows.insert(pos, (key, value));
}

/// The rows that a reader at `ceiling` sees in `entries`, ascending in the
/// key.
pub fn visible_rows(entries: &Vec<Entry>, ceiling: SequenceNumber) -> (rows: Vec<Row>)
    ensures
        is_scan_of(rows@, entries@, ceiling),
{
    let mut rows: Vec<Row> = Vec::new();
    let mut i: usize = 0;
    while i < entries.len()
        invariant
            i <= entries.len(),
            ascending(rows@),
            forall|t: int|
                0 <= t < rows.len() ==> visible_value(entries@, #[trigger] rows@[t].0, ceiling)
                    == Some(rows@[t].1) && latest_index(entries@, rows@[t].0, ceiling).unwrap() < i,
            forall|j: int|
                0 <= j < i && latest_index(entries@, #[trigger] entries@[j].key, ceiling) == Some(j)
                    && entries@[j].op == OpType::Put ==> has_key(rows@, entries@[j].key),
        decreases entries.len() - i,
    {
        let e = entries[i];
        proof {
            lemma_latest_index(entries@, e.key, ceiling);
        }
        if e.sequence <= ceiling && e.op == OpType::Put {
            let winner = find_latest(entries, e.key, ceiling);
            if winner == Some(i) {
                let ghost before = rows@;
                proof {
                    if has_key(before, e.key) {
                        let t = choose|t: int| 0 <= t < before.len() && (#[trigger] before[t]).0 == e.key;
                        assert(latest_index(entries@, before[t].0, ceiling).unwrap() < i);
                    }
                }
                insert_row(&mut rows, e.key, e.value);
                proof {
                    let pos = choose|pos: int|
                        0 <= pos <= before.len() && rows@ == before.insert(pos, (e.key, e.value));
                    assert(rows@[pos] == (e.key, e.value));
                    assert forall|t: int| 0 <= t < rows.len() implies visible_value(
                        entries@,
                        #[trigger] rows@[t].0,
                        ceiling,
                    ) == Some(rows@[t].1) && latest_index(entries@, rows@[t].0, ceiling).unwrap() < i
                        + 1 by {
                        if t < pos {
                            assert(rows@[t] == before[t]);
                        } else if t > pos {
                            assert(rows@[t] == before[t - 1]);
                        }
                    }
                    assert forall|j: int|
                        0 <= j < i + 1 && latest_index(entries@, #[trigger] entries@[j].key, ceiling)
                            == Some(j) && entries@[j].op == OpType::Put implies has_key(
                        rows@,
                        entries@[j].key,
                    ) by {
                        if j < i {
                            assert(has_key(before, entries@[j].key));
                            let t = choose|t: int|
                                0 <= t < before.len() && (#[trigger] before[t]).0 == entries@[j].key;
                            if t < pos {
                                assert(rows@[t] == before[t]);
                            } else {
                                assert(rows@[t + 1] == before[t]);
                            }
                        } else {
                            assert(rows@[pos].0 == e.key);
                        }
                    }
                }
            }
        }
        i += 1;
    }
    proof {
        assert forall|k: i64| #[trigger] visible_value(entries@, k, ceiling) is Some implies exists|
            t: int,
        |
            0 <= t < rows@.len() && rows@[t].0 == k by {
            lemma_latest_index(entries@, k, ceiling);
            let w = latest_index(entries@, k, ceiling).unwrap();
            assert(entries@[w].key == k);
            assert(has_key(rows@, entries@[w].key));
        }
    }
    rows
}

/// The bytes that one entry of a memtable is accounted with.
pub const ENTRY_BYTES: usize = 32;

/// The entries that the rows of a batch become when the batch is committed
/// under the sequence numbers from `first` on, one number per row.
pub open spec fn entries_of(rows: Seq<RowOp>, first: SequenceNumber) -> Seq<Entry> {
    Seq::new(
        rows.len(),
        |i: int|
            Entry { key: rows[i].key, sequence: (first + i) as u64, op: rows[i].op, value: rows[i].value },
    )
}

/// The rows of a batch as entries under the sequence numbers from `first` on.
pub fn to_entries(rows: &Vec<RowOp>, first: SequenceNumber) -> (entries: Vec<Entry>)
    requires
        first + rows@.len() <= u64::MAX + 1,
    ensures
        entries@ == entries_of(rows@, first),
{
    let mut entries: Vec<Entry> = Vec::new();
    let mut i: usize = 0;
    while i < rows.len()
        invariant
            i <= rows@.len(),
            first + rows@.len() <= u64::MAX + 1,
            entries@ == entries_of(rows@, first).take(i as int),
        decreases rows@.len() - i,
    {
        let row = rows[i];
        entries.push(
            Entry { key: row.key, sequence: first + (i as u64), op: row.op, value: row.value },
        );
        proof {
            let all = entries_of(rows@, first);
            assert(all.take(i + 1) =~= all.take(i as int).push(all[i as int]));
        }
        i += 1;
    }
    proof {
        let all = entries_of(rows@, first);
        assert(all.take(rows@.len() as int) =~= all);
    }
    entries
}

/// The in-memory buffer of recent writes. It only grows, until it is frozen;
/// from then on it takes no writes.
#[derive(Clone, Debug, PartialEq, Eq)]
pub struct MemTable {
    pub entries: Vec<Entry>,
    pub frozen: bool,
}

impl View for MemTable {
    type V = Seq<Entry>;

    open spec fn view(&self) -> Seq<Entry> {
        self.entries@
    }
}

impl MemTable {
    /// An empty memtable that takes writes.
    pub fn new() -> (m: MemTable)
        ensures
            m@.len() == 0,
            !m.frozen,
    {
        MemTable { entries: Vec::new(), frozen: false }
    }

    pub fn len(&self) -> (n: usize)
        ensures
            n == self@.len(),
    {
        self.entries.len()
    }

    pub fn is_empty(&self) -> (b: bool)
        ensures
            b == (self@.len() == 0),
    {
        self.entries.len() == 0
    }

    pub fn is_frozen(&self) -> (b: bool)
        ensures
            b == self.frozen,
    {
        self.frozen
    }

    /// The bytes that the entries are accounted with; `usize::MAX` where the
    /// count does not fit.
    pub fn bytes_allocated(&self) -> (n: usize)
        ensures
            n == if self@.len() * ENTRY_BYTES <= usize::MAX {
                (self@.len() * ENTRY_BYTES) as usize
            } else {
                usize::MAX
            },
    {
        if self.entries.len() > usize::MAX / ENTRY_BYTES {
            usize::MAX
        } else {
            self.entries.len() * ENTRY_BYTES
        }
    }

    /// Appends the entries `batch`, unless the memtable is frozen.
    pub fn write(&mut self, batch: &Vec<Entry>) -> (r: Result<()>)
        ensures
            final(self).frozen == old(self).frozen,
            match r {
                Ok(()) => !old(self).frozen && final(self)@ == old(self)@ + batch@,
                Err(e) => old(self).frozen && e == Error::MemtableFrozen && final(self)@ == old(
                    self,
                )@,
            },
    {
        if self.frozen {
            return Err(Error::MemtableFrozen);
        }
        let ghost before = self.entries@;
        let mut i: usize = 0;
        while i < batch.len()
            invariant
                i <= batch@.len(),
                self.frozen == old(self).frozen,
                self.entries@ == before + batch@.take(i as int),
            decreases batch@.len() - i,
        {
            self.entries.push(batch[i]);
            proof {
                assert(batch@.take(i + 1) =~= batch@.take(i as int).push(batch@[i as int]));
                assert(self.entries@ =~= before + batch@.take(i + 1));
            }
            i += 1;
        }
        proof {
            assert(batch@.take(batch@.len() as int) =~= batch@);
        }
        Ok(())
    }

    /// Writes `rows` as puts under the sequence numbers from `first` on.
    pub fn put(&mut self, first: SequenceNumber, rows: &Vec<Row>) -> (r: Result<()>)
        requires
            first + rows@.len() <= u64::MAX + 1,
        ensures
            final(self).frozen == old(self).frozen,
            match r {
                Ok(()) => !old(self).frozen && final(self)@ == old(self)@ + Seq::new(
                    rows@.len(),
                    |i: int|
                        Entry {
                            key: rows@[i].0,
                            sequence: (first + i) as u64,
                            op: OpType::Put,
                            value: rows@[i].1,
                        },
                ),
                Err(e) => old(self).frozen && e == Error::MemtableFrozen && final(self)@ == old(
                    self,
                )@,
            },
    {
        let mut batch: Vec<Entry> = Vec::new();
        let mut i: usize = 0;
        while i < rows.len()
            invariant
                i <= rows@.len(),
                first + rows@.len() <= u64::MAX + 1,
                batch@ == Seq::new(
                    i as nat,
                    |j: int|
                        Entry {
                            key: rows@[j].0,
                            sequence: (first + j) as u64,
                            op: OpType::Put,
                            value: rows@[j].1,
                        },
                ),
            decreases rows@.len() - i,
        {
            let ghost before = batch@;
            batch.push(
                Entry { key: rows[i].0, sequence: first + (i as u64), op: OpType::Put, value: rows[i].1 },
            );
            proof {
                assert(batch@ =~= Seq::new(
                    (i + 1) as nat,
                    |j: int|
                        Entry {
                            key: rows@[j].0,
                            sequence: (first + j) as u64,
                            op: OpType::Put,
                            value: rows@[j].1,
                        },
                ));
            }
            i += 1;
        }
        self.write(&batch)
    }

    /// Writes a delete for each of `keys` under the sequence numbers from
    /// `first` on.
    pub fn delete(&mut self, first: SequenceNumber, keys: &Vec<i64>) -> (r: Result<()>)
        requires
            first + keys@.len() <= u64::MAX + 1,
        ensures
            final(self).frozen == old(self).frozen,
            match r {
                Ok(()) => !old(self).frozen && final(self)@ == old(self)@ + Seq::new(
                    keys@.len(),
                    |i: int|
                        Entry {
                            key: keys@[i],
                            sequence: (first + i) as u64,
                            op: OpType::Delete,
                            value: None,
                        },
                ),
                Err(e) => old(self).frozen && e == Error::MemtableFrozen && final(self)@ == old(
                    self,
                )@,
            },
    {
        let mut batch: Vec<Entry> = Vec::new();
        let mut i: usize = 0;
        while i < keys.len()
            invariant
                i <= keys@.len(),
                first + keys@.len() <= u64::MAX + 1,
                batch@ == Seq::new(
                    i as nat,
                    |j: int|
                        Entry {
                            key: keys@[j],
                            sequence: (first + j) as u64,
                            op: OpType::Delete,
                            value: None,
                        },
                ),
            decreases keys@.len() - i,
        {
            batch.push(
                Entry { key: keys[i], sequence: first + (i as u64), op: OpType::Delete, value: None },
            );
            proof {
                assert(batch@ =~= Seq::new(
                    (i + 1) as nat,
                    |j: int|
                        Entry {
                            key: keys@[j],
                            sequence: (first + j) as u64,
                            op: OpType::Delete,
                            value: None,
                        },
                ));
            }
            i += 1;
        }
        self.write(&batch)
    }

    /// From now on the memtable takes no writes.
    pub fn freeze(&mut self)
        ensures
            final(self).frozen,
            final(self)@ == old(self)@,
    {
        self.frozen = true;
    }

    /// The rows that a reader at `ceiling` sees, ascending in the key: of
    /// each key the mutation with the highest sequence number that is at most
    /// `ceiling`, if that is a put.
    pub fn scan(&self, ceiling: SequenceNumber) -> (rows: Vec<Row>)
        ensures
            is_scan_of(rows@, self@, ceiling),
    {
        visible_rows(&self.entries, ceiling)
    }

    /// The rows within `range` that a reader at `ceiling` sees, ascending in
    /// the key.
    pub fn scan_range(&self, ceiling: SequenceNumber, range: Option<TimeRange>) -> (rows: Vec<Row>)
        ensures
            is_scan_within(rows@, self@, ceiling, range),
    {
        visible_rows_within(&self.entries, ceiling, range)
    }
}

} // verus!
