//! The format of the write-ahead log on its medium: one record for each
//! batch, one after the other.
//!
//! A record is the number of its rows in four bytes, the sequence number of
//! its first row in eight bytes, and its rows in eighteen bytes each: the
//! operation in one byte (0 for a put, 1 for a delete), the key in eight
//! bytes, one byte that says whether there is a value (0 or 1), and the value
//! in eight bytes. All numbers are little-endian; a negative number is
//! written in two's complement.
//!
//! A log that was cut off in the middle of a record, as by a crash during an
//! append, is read up to the last complete record.

use vstd::prelude::*;
use vstd::bytes::{
    lemma_auto_spec_u32_to_from_le_bytes, lemma_auto_spec_u64_to_from_le_bytes,
    spec_u32_from_le_bytes, spec_u32_to_le_bytes, spec_u64_from_le_bytes, spec_u64_to_le_bytes,
    u32_from_le_bytes, u32_to_le_bytes, u64_from_le_bytes, u64_to_le_bytes,
};
use crate::storage::error::{Error, WalError};
use crate::storage::memtable::{entries_of, Entry, OpType, SequenceNumber};
use crate::storage::wal::{entries_after, LogStore};
use crate::storage::write_batch::RowOp;

verus! {

/// The bytes of the head of a record.
pub const HEAD_BYTES: usize = 12;

/// The bytes of a row.
pub const ROW_BYTES: usize = 18;

/// The bytes of the row `row`.
pub open spec fn row_bytes(row: RowOp) -> Seq<u8> {
    seq![if row.op == OpType::Put {
        0u8
    } else {
        1u8
    }] + spec_u64_to_le_bytes(row.key as u64) + seq![if row.value is Some {
        1u8
    } else {
        0u8
    }] + spec_u64_to_le_bytes(
        match row.value {
            Some(v) => v as u64,
            None => 0u64,
        },
    )
}

/// The bytes of the rows `rows`, one after the other.
pub open spec fn rows_bytes(rows: Seq<RowOp>) -> Seq<u8>
    decreases rows.len(),
{
    if rows.len() == 0 {
        Seq::empty()
    } else {
        rows_bytes(rows.drop_last()) + row_bytes(rows.last())
    }
}

/// The bytes of the record of the batch `rows`, whose first row has the
/// sequence number `first`.
pub open spec fn record_bytes(first: SequenceNumber, rows: Seq<RowOp>) -> Seq<u8> {
    spec_u32_to_le_bytes(rows.len() as u32) + spec_u64_to_le_bytes(first) + rows_bytes(rows)
}

/// The row that the eighteen bytes at `at` spell, if they spell one.
pub open spec fn row_at(bytes: Seq<u8>, at: int) -> Option<RowOp> {
    if at < 0 || at + ROW_BYTES > bytes.len() || bytes[at] > 1 || bytes[at + 9] > 1 {
        None
    } else {
        Some(
            RowOp {
                op: if bytes[at] == 0 {
                    OpType::Put
                } else {
                    OpType::Delete
                },
                key: spec_u64_from_le_bytes(bytes.subrange(at + 1, at + 9)) as i64,
                value: if bytes[at + 9] == 1 {
                    Some(spec_u64_from_le_bytes(bytes.subrange(at + 10, at + 18)) as i64)
                } else {
                    None
                },
            },
        )
    }
}

/// The `count` rows that the bytes from `at` on spell, if they spell that
/// many.
pub open spec fn rows_at(bytes: Seq<u8>, at: int, count: int) -> Option<Seq<RowOp>>
    decreases count,
{
    if count <= 0 {
        Some(Seq::empty())
    } else {
        match (rows_at(bytes, at, count - 1), row_at(bytes, at + (count - 1) * ROW_BYTES)) {
            (Some(rows), Some(row)) => Some(rows.push(row)),
            _ => None,
        }
    }
}

/// A record as it is read: the sequence number of its first row, its rows,
/// and where the next record begins.
pub struct Record {
    pub first: SequenceNumber,
    pub rows: Seq<RowOp>,
    pub next: int,
}

/// The record that begins at `at`, if a complete one begins there whose rows
/// are well formed and whose sequence numbers fit 64 bits.
pub open spec fn record_at(bytes: Seq<u8>, at: int) -> Option<Record> {
    if at < 0 || at + HEAD_BYTES > bytes.len() {
        None
    } else {
        let count = spec_u32_from_le_bytes(bytes.subrange(at, at + 4)) as int;
        let first = spec_u64_from_le_bytes(bytes.subrange(at + 4, at + 12));
        if first + count > u64::MAX + 1 {
            None
        } else {
            match rows_at(bytes, at + HEAD_BYTES, count) {
                Some(rows) => Some(Record { first, rows, next: at + HEAD_BYTES + count * ROW_BYTES }),
                None => None,
            }
        }
    }
}

/// Where reading from `at` on stops: the first place where no complete and
/// well-formed record begins.
pub open spec fn consumed(bytes: Seq<u8>, at: int) -> int
    decreases bytes.len() - at,
{
    match record_at(bytes, at) {
        Some(record) => consumed(bytes, record.next),
        None => at,
    }
}

/// Whether the bytes are complete records and nothing else.
pub open spec fn is_clean(bytes: Seq<u8>) -> bool {
    consumed(bytes, 0) == bytes.len()
}

/// The mutations that the records from `at` on hold, up to the first place
/// where no complete and well-formed record begins.
pub open spec fn decoded(bytes: Seq<u8>, at: int) -> Seq<Entry>
    decreases bytes.len() - at,
{
    match record_at(bytes, at) {
        Some(record) => entries_of(record.rows, record.first) + decoded(bytes, record.next),
        None => Seq::empty(),
    }
}

/// The record of the batch `rows`, whose first row has the sequence number
/// `first`.
pub fn encode_record(first: SequenceNumber, rows: &Vec<RowOp>) -> (bytes: Vec<u8>)
    requires
        rows@.len() <= u32::MAX,
    ensures
        bytes@ == record_bytes(first, rows@),
{
    let mut bytes = u32_to_le_bytes(rows.len() as u32);
    let mut head = u64_to_le_bytes(first);
    bytes.append(&mut head);
    let ghost start = bytes@;
    let mut i: usize = 0;
    while i < rows.len()
        invariant
            i <= rows@.len(),
            bytes@ == start + rows_bytes(rows@.take(i as int)),
        decreases rows@.len() - i,
    {
        let row = rows[i];
        proof {
            let upto = rows@.take(i + 1);
            assert(upto.drop_last() =~= rows@.take(i as int));
            assert(upto.last() == row);
        }
        let ghost before = bytes@;
        bytes.push(
            match row.op {
                OpType::Put => 0u8,
                OpType::Delete => 1u8,
            },
        );
        let mut key = u64_to_le_bytes(#[verifier::truncate] (row.key as u64));
        bytes.append(&mut key);
        let (has, value) = match row.value {
            Some(v) => (1u8, #[verifier::truncate] (v as u64)),
            None => (0u8, 0u64),
        };
        bytes.push(has);
        let mut value = u64_to_le_bytes(value);
        bytes.append(&mut value);
        proof {
            assert(bytes@ =~= before + row_bytes(row));
            assert(bytes@ =~= start + rows_bytes(rows@.take(i + 1)));
        }
        i += 1;
    }
    proof {
        assert(rows@.take(rows@.len() as int) =~= rows@);
        assert(bytes@ =~= record_bytes(first, rows@));
    }
    bytes
}

fn read_u64(bytes: &[u8], at: usize) -> (x: u64)
    requires
        at + 8 <= bytes@.len(),
    ensures
        x == spec_u64_from_le_bytes(bytes@.subrange(at as int, at + 8)),
{
    let _ = bytes.len();
    let mut part: Vec<u8> = Vec::new();
    let mut i: usize = 0;
    while i < 8
        invariant
            i <= 8,
            at + 8 <= bytes@.len() <= usize::MAX,
            part@ == bytes@.subrange(at as int, at + i),
        decreases 8 - i,
    {
        part.push(bytes[at + i]);
        proof {
            assert(part@ =~= bytes@.subrange(at as int, at + i + 1));
        }
        i += 1;
    }
    u64_from_le_bytes(part.as_slice())
}

fn read_u32(bytes: &[u8], at: usize) -> (x: u32)
    requires
        at + 4 <= bytes@.len(),
    ensures
        x == spec_u32_from_le_bytes(bytes@.subrange(at as int, at + 4)),
{
    let _ = bytes.len();
    let mut part: Vec<u8> = Vec::new();
    let mut i: usize = 0;
    while i < 4
        invariant
            i <= 4,
            at + 4 <= bytes@.len() <= usize::MAX,
            part@ == bytes@.subrange(at as int, at + i),
        decreases 4 - i,
    {
        part.push(bytes[at + i]);
        proof {
            assert(part@ =~= bytes@.subrange(at as int, at + i + 1));
        }
        i += 1;
    }
    u32_from_le_bytes(part.as_slice())
}

fn read_row(bytes: &[u8], at: usize) -> (r: Option<RowOp>)
    requires
        at + ROW_BYTES <= bytes@.len(),
    ensures
        r == row_at(bytes@, at as int),
{
    let _ = bytes.len();
    if bytes[at] > 1 || bytes[at + 9] > 1 {
        return None;
    }
    let op = if bytes[at] == 0 {
        OpType::Put
    } else {
        OpType::Delete
    };
    let key = #[verifier::truncate] (read_u64(bytes, at + 1) as i64);
    let value = if bytes[at + 9] == 1 {
        Some(#[verifier::truncate] (read_u64(bytes, at + 10) as i64))
    } else {
        None
    };
    Some(RowOp { op, key, value })
}

/// The mutations of the log `bytes`: those of its records, in order, up to
/// the first place where no complete and well-formed record begins. What
/// stands from there on, such as a record that was cut off, is left out.
pub fn decode_log(bytes: &[u8]) -> (entries: Vec<Entry>)
    ensures
        entries@ == decoded(bytes@, 0),
{
    decode_records(bytes).0
}

/// The mutations of the log `bytes`, and the number of bytes that its
/// complete records take.
pub fn decode_records(bytes: &[u8]) -> (r: (Vec<Entry>, usize))
    ensures
        r.0@ == decoded(bytes@, 0),
        r.1 == consumed(bytes@, 0),
        r.1 <= bytes@.len(),
{
    let n = bytes.len();
    let mut entries: Vec<Entry> = Vec::new();
    let mut at: usize = 0;
    loop
        invariant
            at <= n,
            n == bytes@.len(),
            decoded(bytes@, 0) == entries@ + decoded(bytes@, at as int),
            consumed(bytes@, 0) == consumed(bytes@, at as int),
        ensures
            at <= n,
            entries@ == decoded(bytes@, 0),
            at == consumed(bytes@, 0),
        decreases n - at,
    {
        if n - at < HEAD_BYTES {
            proof {
                assert(entries@ + Seq::<Entry>::empty() =~= entries@);
            }
            break ;
        }
        let count = read_u32(bytes, at) as usize;
        let first = read_u64(bytes, at + 4);
        if count > 0 && first > u64::MAX - (count as u64 - 1) {
            proof {
                assert(entries@ + Seq::<Entry>::empty() =~= entries@);
            }
            break ;
        }
        if (n - at - HEAD_BYTES) / ROW_BYTES < count {
            proof {
                lemma_rows_at_fit(bytes@, at + HEAD_BYTES, count as int);
                assert(entries@ + Seq::<Entry>::empty() =~= entries@);
            }
            break ;
        }
        let start = at + HEAD_BYTES;
        let ghost before = entries@;
        let mut rows: Vec<RowOp> = Vec::new();
        let mut i: usize = 0;
        let mut well_formed = true;
        while i < count
            invariant_except_break
                well_formed,
                rows_at(bytes@, start as int, i as int) == Some(rows@),
            invariant
                i <= count,
                n == bytes@.len(),
                start + count * ROW_BYTES <= n,
                rows@.len() == i,
            ensures
                well_formed ==> rows@.len() == count && rows_at(
                    bytes@,
                    start as int,
                    count as int,
                ) == Some(rows@),
                !well_formed ==> rows_at(bytes@, start as int, count as int) is None,
            decreases count - i,
        {
            match read_row(bytes, start + i * ROW_BYTES) {
                Some(row) => {
                    rows.push(row);
                },
                None => {
                    proof {
                        lemma_rows_at_stops(bytes@, start as int, i as int, count as int);
                    }
                    well_formed = false;
                    break ;
                },
            }
            i += 1;
        }
        if !well_formed {
            proof {
                assert(entries@ + Seq::<Entry>::empty() =~= entries@);
            }
            break ;
        }
        let mut k: usize = 0;
        while k < count
            invariant
                k <= count,
                rows@.len() == count,
                first + count <= u64::MAX + 1,
                entries@ == before + entries_of(rows@, first).take(k as int),
            decreases count - k,
        {
            let row = rows[k];
            entries.push(
                Entry { key: row.key, sequence: first + k as u64, op: row.op, value: row.value },
            );
            proof {
                let all = entries_of(rows@, first);
                assert(all.take(k + 1) =~= all.take(k as int).push(all[k as int]));
                assert(entries@ =~= before + all.take(k + 1));
            }
            k += 1;
        }
        proof {
            let all = entries_of(rows@, first);
            assert(all.take(count as int) =~= all);
            assert(before + all + decoded(bytes@, start + count * ROW_BYTES) =~= before + (all
                + decoded(bytes@, start + count * ROW_BYTES)));
        }
        at = start + count * ROW_BYTES;
    }
    (entries, at)
}

/// Rows that are read lie within the bytes.
proof fn lemma_rows_at_fit(bytes: Seq<u8>, at: int, count: int)
    requires
        0 <= at,
        count > 0,
        at + count * ROW_BYTES > bytes.len(),
    ensures
        rows_at(bytes, at, count) is None,
{
    assert((count - 1) * ROW_BYTES + ROW_BYTES == count * ROW_BYTES) by (nonlinear_arith);
    assert(row_at(bytes, at + (count - 1) * ROW_BYTES) is None);
}

/// Where one row is malformed, no greater number of rows is read.
proof fn lemma_rows_at_stops(bytes: Seq<u8>, at: int, bad: int, count: int)
    requires
        0 <= bad < count,
        row_at(bytes, at + bad * ROW_BYTES) is None,
    ensures
        rows_at(bytes, at, count) is None,
    decreases count,
{
    if count - 1 > bad {
        lemma_rows_at_stops(bytes, at, bad, count - 1);
    }
}

/// A batch as the log holds it: the sequence number of its first row, and
/// its rows.
pub struct Batch {
    pub first: SequenceNumber,
    pub rows: Seq<RowOp>,
}

impl Batch {
    /// Whether the batch can be written: its rows can be counted in 32 bits,
    /// and their sequence numbers fit 64 bits.
    pub open spec fn writable(self) -> bool {
        self.rows.len() <= u32::MAX && self.first + self.rows.len() <= u64::MAX + 1
    }
}

/// The bytes of a log that holds `batches`, in order.
pub open spec fn log_bytes(batches: Seq<Batch>) -> Seq<u8>
    decreases batches.len(),
{
    if batches.len() == 0 {
        Seq::empty()
    } else {
        log_bytes(batches.drop_last()) + record_bytes(batches.last().first, batches.last().rows)
    }
}

/// The mutations of `batches`, in order.
pub open spec fn log_entries(batches: Seq<Batch>) -> Seq<Entry>
    decreases batches.len(),
{
    if batches.len() == 0 {
        Seq::empty()
    } else {
        log_entries(batches.drop_last()) + entries_of(batches.last().rows, batches.last().first)
    }
}

/// The bytes of rows are eighteen for each row.
pub proof fn lemma_rows_bytes_len(rows: Seq<RowOp>)
    ensures
        rows_bytes(rows).len() == rows.len() * ROW_BYTES,
    decreases rows.len(),
{
    lemma_auto_spec_u64_to_from_le_bytes();
    if rows.len() > 0 {
        lemma_rows_bytes_len(rows.drop_last());
        assert((rows.len() - 1) * ROW_BYTES + ROW_BYTES == rows.len() * ROW_BYTES) by (nonlinear_arith);
    }
}

/// A 64-bit number that is written in two's complement reads back as it was.
proof fn lemma_twos_complement(x: i64)
    ensures
        (x as u64) as i64 == x,
{
    assert((x as u64) as i64 == x) by (bit_vector);
}

/// A row that was written reads back as it was, wherever its bytes stand.
proof fn lemma_row_round_trip(before: Seq<u8>, row: RowOp, after: Seq<u8>)
    ensures
        row_at(before + row_bytes(row) + after, before.len() as int) == Some(row),
{
    lemma_auto_spec_u64_to_from_le_bytes();
    let bytes = before + row_bytes(row) + after;
    let at = before.len() as int;
    let key = spec_u64_to_le_bytes(row.key as u64);
    let raw = match row.value {
        Some(v) => v as u64,
        None => 0u64,
    };
    let value = spec_u64_to_le_bytes(raw);
    assert(row_bytes(row).len() == 18);
    assert(bytes.subrange(at + 1, at + 9) =~= key);
    assert(bytes.subrange(at + 10, at + 18) =~= value);
    assert(bytes[at] == row_bytes(row)[0]);
    assert(bytes[at + 9] == row_bytes(row)[9]);
    lemma_twos_complement(row.key);
    match row.value {
        Some(v) => {
            lemma_twos_complement(v);
        },
        None => {},
    }
}

/// Rows that were written read back as they were, wherever their bytes
/// stand.
proof fn lemma_rows_round_trip(before: Seq<u8>, rows: Seq<RowOp>, after: Seq<u8>)
    ensures
        rows_at(before + rows_bytes(rows) + after, before.len() as int, rows.len() as int)
            == Some(rows),
    decreases rows.len(),
{
    let bytes = before + rows_bytes(rows) + after;
    let at = before.len() as int;
    if rows.len() > 0 {
        let front = rows.drop_last();
        let last = rows.last();
        lemma_rows_bytes_len(front);
        lemma_rows_round_trip(before, front, row_bytes(last) + after);
        assert(before + rows_bytes(front) + (row_bytes(last) + after) =~= bytes);
        lemma_row_round_trip(before + rows_bytes(front), last, after);
        assert(before + rows_bytes(front) + row_bytes(last) + after =~= bytes);
        assert((before + rows_bytes(front)).len() == at + (rows.len() - 1) * ROW_BYTES);
        assert(front.push(last) =~= rows);
    }
}

/// A record that was written reads back as it was, wherever its bytes stand.
pub proof fn lemma_record_round_trip(before: Seq<u8>, batch: Batch, after: Seq<u8>)
    requires
        batch.writable(),
    ensures
        record_at(before + record_bytes(batch.first, batch.rows) + after, before.len() as int)
            == Some(
            Record {
                first: batch.first,
                rows: batch.rows,
                next: (before.len() + record_bytes(batch.first, batch.rows).len()) as int,
            },
        ),
        record_bytes(batch.first, batch.rows).len() == HEAD_BYTES + batch.rows.len() * ROW_BYTES,
{
    lemma_auto_spec_u32_to_from_le_bytes();
    lemma_auto_spec_u64_to_from_le_bytes();
    lemma_rows_bytes_len(batch.rows);
    let record = record_bytes(batch.first, batch.rows);
    let bytes = before + record + after;
    let at = before.len() as int;
    let count = spec_u32_to_le_bytes(batch.rows.len() as u32);
    let first = spec_u64_to_le_bytes(batch.first);
    assert(bytes.subrange(at, at + 4) =~= count);
    assert(bytes.subrange(at + 4, at + 12) =~= first);
    lemma_rows_round_trip(before + count + first, batch.rows, after);
    assert(before + count + first + rows_bytes(batch.rows) + after =~= bytes);
}

/// What stands before a record does not matter to what is read from it on.
proof fn lemma_decoded_after(before: Seq<u8>, batch: Batch, after: Seq<u8>)
    requires
        batch.writable(),
    ensures
        decoded(before + record_bytes(batch.first, batch.rows) + after, before.len() as int)
            == entries_of(batch.rows, batch.first) + decoded(
            before + record_bytes(batch.first, batch.rows) + after,
            (before.len() + record_bytes(batch.first, batch.rows).len()) as int,
        ),
{
    lemma_record_round_trip(before, batch, after);
}

/// A log reads back as the mutations of its batches, followed by what its
/// tail reads as.
proof fn lemma_log_then_tail(batches: Seq<Batch>, tail: Seq<u8>)
    requires
        forall|i: int| 0 <= i < batches.len() ==> (#[trigger] batches[i]).writable(),
    ensures
        decoded(log_bytes(batches) + tail, 0) == log_entries(batches) + decoded(
            log_bytes(batches) + tail,
            log_bytes(batches).len() as int,
        ),
    decreases batches.len(),
{
    let bytes = log_bytes(batches) + tail;
    if batches.len() == 0 {
        assert(log_entries(batches) + decoded(bytes, 0) =~= decoded(bytes, 0));
    } else {
        let front = batches.drop_last();
        let last = batches.last();
        let record = record_bytes(last.first, last.rows);
        assert(forall|i: int| 0 <= i < front.len() ==> front[i] == batches[i]);
        lemma_log_then_tail(front, record + tail);
        assert(log_bytes(front) + (record + tail) =~= bytes);
        lemma_decoded_after(log_bytes(front), last, tail);
        assert(log_bytes(front) + record + tail =~= bytes);
        assert(log_entries(front) + (entries_of(last.rows, last.first) + decoded(
            bytes,
            log_bytes(batches).len() as int,
        )) =~= log_entries(batches) + decoded(bytes, log_bytes(batches).len() as int));
    }
}

/// A log that was written reads back as the mutations of its batches, in
/// order.
pub proof fn lemma_log_round_trip(batches: Seq<Batch>)
    requires
        forall|i: int| 0 <= i < batches.len() ==> (#[trigger] batches[i]).writable(),
    ensures
        decoded(log_bytes(batches), 0) == log_entries(batches),
{
    lemma_log_then_tail(batches, Seq::empty());
    assert(log_bytes(batches) + Seq::<u8>::empty() =~= log_bytes(batches));
    assert(log_entries(batches) + Seq::<Entry>::empty() =~= log_entries(batches));
}

/// A log whose last record was cut off reads back as the mutations of the
/// batches before it: the torn record marks the end of the log.
pub proof fn lemma_torn_tail_ends_log(batches: Seq<Batch>, torn: Batch, kept: int)
    requires
        forall|i: int| 0 <= i < batches.len() ==> (#[trigger] batches[i]).writable(),
        torn.writable(),
        0 <= kept < record_bytes(torn.first, torn.rows).len(),
    ensures
        decoded(log_bytes(batches) + record_bytes(torn.first, torn.rows).take(kept), 0)
            == log_entries(batches),
{
    lemma_auto_spec_u32_to_from_le_bytes();
    lemma_auto_spec_u64_to_from_le_bytes();
    lemma_rows_bytes_len(torn.rows);
    let record = record_bytes(torn.first, torn.rows);
    let tail = record.take(kept);
    let bytes = log_bytes(batches) + tail;
    let at = log_bytes(batches).len() as int;
    lemma_log_then_tail(batches, tail);
    if kept >= HEAD_BYTES {
        assert(bytes.subrange(at, at + 4) =~= spec_u32_to_le_bytes(torn.rows.len() as u32));
        assert(torn.rows.len() > 0) by {
            if torn.rows.len() == 0 {
                assert(rows_bytes(torn.rows).len() == 0);
            }
        }
        lemma_rows_at_fit(bytes, at + HEAD_BYTES, torn.rows.len() as int);
    }
    assert(record_at(bytes, at) is None);
    assert(log_entries(batches) + Seq::<Entry>::empty() =~= log_entries(batches));
}

/// A row reads the same after more bytes are put in front.
proof fn lemma_row_shift(front: Seq<u8>, bytes: Seq<u8>, at: int)
    requires
        0 <= at,
    ensures
        row_at(front + bytes, front.len() + at) == row_at(bytes, at),
{
    let all = front + bytes;
    let to = front.len() + at;
    if at + ROW_BYTES <= bytes.len() {
        assert(all[to] == bytes[at]);
        assert(all[to + 9] == bytes[at + 9]);
        assert(all.subrange(to + 1, to + 9) =~= bytes.subrange(at + 1, at + 9));
        assert(all.subrange(to + 10, to + 18) =~= bytes.subrange(at + 10, at + 18));
    }
}

/// Rows read the same after more bytes are put in front.
proof fn lemma_rows_shift(front: Seq<u8>, bytes: Seq<u8>, at: int, count: int)
    requires
        0 <= at,
    ensures
        rows_at(front + bytes, front.len() + at, count) == rows_at(bytes, at, count),
    decreases count,
{
    if count > 0 {
        lemma_rows_shift(front, bytes, at, count - 1);
        lemma_row_shift(front, bytes, at + (count - 1) * ROW_BYTES);
    }
}

/// The record that `record` is after `by` bytes are put in front.
pub open spec fn moved(record: Option<Record>, by: int) -> Option<Record> {
    match record {
        Some(r) => Some(Record { next: r.next + by, ..r }),
        None => None,
    }
}

/// A record reads the same after more bytes are put in front.
proof fn lemma_record_shift(front: Seq<u8>, bytes: Seq<u8>, at: int)
    requires
        0 <= at,
    ensures
        record_at(front + bytes, front.len() + at) == moved(
            record_at(bytes, at),
            front.len() as int,
        ),
{
    let all = front + bytes;
    let to = front.len() + at;
    if at + HEAD_BYTES <= bytes.len() {
        assert(all.subrange(to, to + 4) =~= bytes.subrange(at, at + 4));
        assert(all.subrange(to + 4, to + 12) =~= bytes.subrange(at + 4, at + 12));
        let count = spec_u32_from_le_bytes(bytes.subrange(at, at + 4)) as int;
        lemma_rows_shift(front, bytes, at + HEAD_BYTES, count);
    }
}

/// What is read from a place on is the same after more bytes are put in
/// front.
proof fn lemma_decoded_shift(front: Seq<u8>, bytes: Seq<u8>, at: int)
    requires
        0 <= at,
    ensures
        decoded(front + bytes, front.len() + at) == decoded(bytes, at),
        consumed(front + bytes, front.len() + at) == front.len() + consumed(bytes, at),
    decreases bytes.len() - at,
{
    lemma_record_shift(front, bytes, at);
    match record_at(bytes, at) {
        Some(record) => {
            lemma_decoded_shift(front, bytes, record.next);
        },
        None => {},
    }
}

/// A row that lies within the first bytes reads the same whatever follows.
proof fn lemma_row_prefix(bytes: Seq<u8>, more: Seq<u8>, at: int)
    requires
        0 <= at,
        at + ROW_BYTES <= bytes.len(),
    ensures
        row_at(bytes + more, at) == row_at(bytes, at),
{
    let all = bytes + more;
    assert(all[at] == bytes[at]);
    assert(all[at + 9] == bytes[at + 9]);
    assert(all.subrange(at + 1, at + 9) =~= bytes.subrange(at + 1, at + 9));
    assert(all.subrange(at + 10, at + 18) =~= bytes.subrange(at + 10, at + 18));
}

/// Rows that read within the first bytes read the same whatever follows.
proof fn lemma_rows_prefix(bytes: Seq<u8>, more: Seq<u8>, at: int, count: int)
    requires
        0 <= at,
        rows_at(bytes, at, count) is Some,
    ensures
        rows_at(bytes + more, at, count) == rows_at(bytes, at, count),
    decreases count,
{
    if count > 0 {
        lemma_rows_prefix(bytes, more, at, count - 1);
        assert((count - 1) * ROW_BYTES >= 0) by (nonlinear_arith)
            requires
                count >= 1,
        ;
        lemma_row_prefix(bytes, more, at + (count - 1) * ROW_BYTES);
    }
}

/// A record that reads within the first bytes reads the same whatever
/// follows.
proof fn lemma_record_prefix(bytes: Seq<u8>, more: Seq<u8>, at: int)
    requires
        record_at(bytes, at) is Some,
    ensures
        record_at(bytes + more, at) == record_at(bytes, at),
{
    let all = bytes + more;
    assert(all.subrange(at, at + 4) =~= bytes.subrange(at, at + 4));
    assert(all.subrange(at + 4, at + 12) =~= bytes.subrange(at + 4, at + 12));
    let count = spec_u32_from_le_bytes(bytes.subrange(at, at + 4)) as int;
    lemma_rows_prefix(bytes, more, at + HEAD_BYTES, count);
}

/// Where reading stops lies within the bytes, and not before the start.
proof fn lemma_consumed_in_range(bytes: Seq<u8>, at: int)
    requires
        0 <= at <= bytes.len(),
    ensures
        at <= consumed(bytes, at) <= bytes.len(),
    decreases bytes.len() - at,
{
    match record_at(bytes, at) {
        Some(record) => {
            let count = spec_u32_from_le_bytes(bytes.subrange(at, at + 4)) as int;
            assert(count * ROW_BYTES >= 0) by (nonlinear_arith)
                requires
                    count >= 0,
            ;
            if record.next > bytes.len() {
                if count > 0 {
                    lemma_rows_at_fit(bytes, at + HEAD_BYTES, count);
                }
            }
            lemma_consumed_in_range(bytes, record.next);
        },
        None => {},
    }
}

/// What is read from clean bytes, from a place on from which reading reaches
/// their end, goes on into the bytes that follow them.
proof fn lemma_clean_then_more(bytes: Seq<u8>, more: Seq<u8>, at: int)
    requires
        0 <= at <= bytes.len(),
        consumed(bytes, at) == bytes.len(),
    ensures
        decoded(bytes + more, at) == decoded(bytes, at) + decoded(more, 0),
        consumed(bytes + more, at) == bytes.len() + consumed(more, 0),
    decreases bytes.len() - at,
{
    match record_at(bytes, at) {
        Some(record) => {
            lemma_record_prefix(bytes, more, at);
            let count = spec_u32_from_le_bytes(bytes.subrange(at, at + 4)) as int;
            assert(count * ROW_BYTES >= 0) by (nonlinear_arith)
                requires
                    count >= 0,
            ;
            if record.next > bytes.len() {
                if count > 0 {
                    lemma_rows_at_fit(bytes, at + HEAD_BYTES, count);
                }
            }
            lemma_clean_then_more(bytes, more, record.next);
            assert(entries_of(record.rows, record.first) + (decoded(bytes, record.next) + decoded(
                more,
                0,
            )) =~= entries_of(record.rows, record.first) + decoded(bytes, record.next) + decoded(
                more,
                0,
            ));
        },
        None => {
            assert(at == bytes.len());
            lemma_decoded_shift(bytes, more, 0);
            assert(Seq::<Entry>::empty() + decoded(more, 0) =~= decoded(more, 0));
        },
    }
}

/// The row of a mutation.
pub open spec fn row_of(entry: Entry) -> RowOp {
    RowOp { op: entry.op, key: entry.key, value: entry.value }
}

/// The bytes of the records of `entries`, one record for each.
pub open spec fn entries_bytes(entries: Seq<Entry>) -> Seq<u8>
    decreases entries.len(),
{
    if entries.len() == 0 {
        Seq::empty()
    } else {
        entries_bytes(entries.drop_last()) + record_bytes(
            entries.last().sequence,
            seq![row_of(entries.last())],
        )
    }
}

/// Appending the records of mutations to clean bytes gives clean bytes that
/// read as before, followed by the mutations.
pub proof fn lemma_append_entries(bytes: Seq<u8>, entries: Seq<Entry>)
    requires
        is_clean(bytes),
    ensures
        is_clean(bytes + entries_bytes(entries)),
        decoded(bytes + entries_bytes(entries), 0) == decoded(bytes, 0) + entries,
        entries_bytes(entries).len() == entries.len() * (HEAD_BYTES + ROW_BYTES),
    decreases entries.len(),
{
    if entries.len() == 0 {
        assert(bytes + entries_bytes(entries) =~= bytes);
        assert(decoded(bytes, 0) + entries =~= decoded(bytes, 0));
    } else {
        let front = entries.drop_last();
        let e = entries.last();
        let batch = Batch { first: e.sequence, rows: seq![row_of(e)] };
        let record = record_bytes(batch.first, batch.rows);
        lemma_append_entries(bytes, front);
        let base = bytes + entries_bytes(front);
        assert(base + record =~= bytes + entries_bytes(entries));
        assert(batch.rows.len() == 1);
        assert(batch.writable());
        lemma_record_round_trip(Seq::empty(), batch, Seq::empty());
        assert(Seq::<u8>::empty() + record + Seq::<u8>::empty() =~= record);
        assert(record.len() == HEAD_BYTES + ROW_BYTES);
        assert(record_at(record, 0) == Some(
            Record { first: batch.first, rows: batch.rows, next: record.len() as int },
        ));
        assert(record_at(record, record.len() as int) is None);
        assert(decoded(record, record.len() as int) =~= Seq::<Entry>::empty());
        assert(consumed(record, record.len() as int) == record.len());
        assert(decoded(record, 0) =~= entries_of(batch.rows, batch.first));
        assert(consumed(record, 0) == record.len());
        assert(entries_of(batch.rows, batch.first) =~= seq![e]);
        lemma_clean_then_more(base, record, 0);
        assert(decoded(bytes, 0) + front + seq![e] =~= decoded(bytes, 0) + entries);
        assert((entries.len() - 1) * (HEAD_BYTES + ROW_BYTES) + (HEAD_BYTES + ROW_BYTES)
            == entries.len() * (HEAD_BYTES + ROW_BYTES)) by (nonlinear_arith);
    }
}

/// What was read up to where reading stops is clean, and reads the same by
/// itself.
pub proof fn lemma_consumed_is_clean(bytes: Seq<u8>)
    ensures
        is_clean(bytes.take(consumed(bytes, 0))),
        decoded(bytes.take(consumed(bytes, 0)), 0) == decoded(bytes, 0),
{
    lemma_consumed_in_range(bytes, 0);
    let end = consumed(bytes, 0);
    lemma_cut_at_end(bytes, 0, end);
}

/// Cutting the bytes off where reading stops changes nothing of what is
/// read.
proof fn lemma_cut_at_end(bytes: Seq<u8>, at: int, end: int)
    requires
        0 <= at <= end <= bytes.len(),
        consumed(bytes, at) == end,
    ensures
        consumed(bytes.take(end), at) == end,
        decoded(bytes.take(end), at) == decoded(bytes, at),
    decreases bytes.len() - at,
{
    let cut = bytes.take(end);
    match record_at(bytes, at) {
        Some(record) => {
            let count = spec_u32_from_le_bytes(bytes.subrange(at, at + 4)) as int;
            assert(count * ROW_BYTES >= 0) by (nonlinear_arith)
                requires
                    count >= 0,
            ;
            if record.next > bytes.len() {
                if count > 0 {
                    lemma_rows_at_fit(bytes, at + HEAD_BYTES, count);
                }
            }
            lemma_consumed_in_range(bytes, record.next);
            assert(record.next <= end);
            assert(cut.subrange(at, at + 4) =~= bytes.subrange(at, at + 4));
            assert(cut.subrange(at + 4, at + 12) =~= bytes.subrange(at + 4, at + 12));
            lemma_rows_cut(bytes, end, at + HEAD_BYTES, count);
            lemma_cut_at_end(bytes, record.next, end);
        },
        None => {
            assert(at == end);
            assert(record_at(cut, at) is None);
        },
    }
}

/// Rows that lie before a cut read the same after it.
proof fn lemma_rows_cut(bytes: Seq<u8>, end: int, at: int, count: int)
    requires
        0 <= at,
        count >= 0,
        at + count * ROW_BYTES <= end <= bytes.len(),
    ensures
        rows_at(bytes.take(end), at, count) == rows_at(bytes, at, count),
    decreases count,
{
    if count > 0 {
        assert((count - 1) * ROW_BYTES + ROW_BYTES == count * ROW_BYTES) by (nonlinear_arith);
        assert((count - 1) * ROW_BYTES >= 0) by (nonlinear_arith)
            requires
                count >= 1,
        ;
        lemma_rows_cut(bytes, end, at, count - 1);
        let cut = bytes.take(end);
        let to = at + (count - 1) * ROW_BYTES;
        assert(cut[to] == bytes[to]);
        assert(cut[to + 9] == bytes[to + 9]);
        assert(cut.subrange(to + 1, to + 9) =~= bytes.subrange(to + 1, to + 9));
        assert(cut.subrange(to + 10, to + 18) =~= bytes.subrange(to + 10, to + 18));
    }
}

/// The bytes that the record of one mutation takes.
pub const ENTRY_RECORD_BYTES: usize = 30;

/// The records of `entries`, one record for each.
pub fn encode_entries(entries: &Vec<Entry>) -> (bytes: Vec<u8>)
    ensures
        bytes@ == entries_bytes(entries@),
{
    let mut bytes: Vec<u8> = Vec::new();
    let mut i: usize = 0;
    while i < entries.len()
        invariant
            i <= entries@.len(),
            bytes@ == entries_bytes(entries@.take(i as int)),
        decreases entries@.len() - i,
    {
        let e = entries[i];
        let mut rows: Vec<RowOp> = Vec::new();
        rows.push(RowOp { op: e.op, key: e.key, value: e.value });
        let mut record = encode_record(e.sequence, &rows);
        proof {
            let upto = entries@.take(i + 1);
            assert(upto.drop_last() =~= entries@.take(i as int));
            assert(upto.last() == e);
            assert(rows@ =~= seq![row_of(e)]);
        }
        bytes.append(&mut record);
        i += 1;
    }
    proof {
        assert(entries@.take(entries@.len() as int) =~= entries@);
    }
    bytes
}

/// A log that is kept as the bytes of its medium, with room for a fixed
/// number of bytes. Each mutation is one record.
#[derive(Clone, Debug, PartialEq, Eq)]
pub struct BufferLogStore {
    pub bytes: Vec<u8>,
    pub capacity: usize,
}

impl BufferLogStore {
    /// An empty log with room for any number of bytes.
    pub fn new() -> (store: BufferLogStore)
        ensures
            store.inv(),
            store.bytes@.len() == 0,
            store.capacity == usize::MAX,
            store.log().len() == 0,
    {
        BufferLogStore { bytes: Vec::new(), capacity: usize::MAX }
    }

    /// The log that the bytes `bytes` of a medium hold, with room for
    /// `capacity` bytes: what follows the last complete record, such as a
    /// record that was cut off by a crash, is dropped.
    pub fn open(bytes: Vec<u8>, capacity: usize) -> (store: BufferLogStore)
        ensures
            store.inv(),
            store.capacity == capacity,
            store.log() == decoded(bytes@, 0),
            store.bytes@ == bytes@.take(consumed(bytes@, 0)),
    {
        let (_, end) = decode_records(bytes.as_slice());
        let mut bytes = bytes;
        proof {
            lemma_consumed_is_clean(bytes@);
        }
        let ghost all = bytes@;
        bytes.truncate(end);
        proof {
            assert(bytes@ =~= all.take(end as int));
        }
        BufferLogStore { bytes, capacity }
    }

    /// The log that the bytes `bytes` of a medium hold, of which the first
    /// `checkpoint` bytes were known to be good. A damaged or cut-off tail
    /// behind the checkpoint is dropped, as [`BufferLogStore::open`] does;
    /// damage before the checkpoint is an error.
    pub fn open_checked(bytes: Vec<u8>, capacity: usize, checkpoint: usize) -> (r: Result<
        BufferLogStore,
        Error,
    >)
        ensures
            match r {
                Ok(store) => {
                    &&& checkpoint <= consumed(bytes@, 0)
                    &&& store.inv()
                    &&& store.capacity == capacity
                    &&& store.log() == decoded(bytes@, 0)
                    &&& store.bytes@ == bytes@.take(consumed(bytes@, 0))
                },
                Err(e) => checkpoint > consumed(bytes@, 0) && e == (Error::CorruptedLog {
                    valid: consumed(bytes@, 0) as usize,
                    checkpoint,
                }),
            },
    {
        let (_, end) = decode_records(bytes.as_slice());
        if end < checkpoint {
            return Err(Error::CorruptedLog { valid: end, checkpoint });
        }
        Ok(BufferLogStore::open(bytes, capacity))
    }

    /// The bytes of the log, as they are to be kept on the medium.
    pub fn bytes(&self) -> (bytes: &Vec<u8>)
        ensures
            *bytes == self.bytes,
    {
        &self.bytes
    }
}

impl LogStore for BufferLogStore {
    open spec fn log(&self) -> Seq<Entry> {
        decoded(self.bytes@, 0)
    }

    open spec fn durable(&self) -> bool {
        true
    }

    open spec fn accepts(&self, batch: Seq<Entry>) -> bool {
        self.bytes@.len() + batch.len() * ENTRY_RECORD_BYTES <= self.capacity
    }

    open spec fn inv(&self) -> bool {
        is_clean(self.bytes@)
    }

    /// Fails with [`WalError::Full`] exactly when the records of the batch
    /// do not fit.
    fn append(&mut self, batch: &Vec<Entry>) -> (r: Result<(), WalError>)
        ensures
            final(self).capacity == old(self).capacity,
            r is Ok ==> final(self).bytes@ == old(self).bytes@ + entries_bytes(batch@),
            r is Err ==> final(self).bytes == old(self).bytes,
    {
        proof {
            lemma_append_entries(self.bytes@, batch@);
        }
        if self.bytes.len() > self.capacity {
            return Err(WalError::Full);
        }
        if batch.len() > (self.capacity - self.bytes.len()) / ENTRY_RECORD_BYTES {
            return Err(WalError::Full);
        }
        let mut records = encode_entries(batch);
        self.bytes.append(&mut records);
        Ok(())
    }

    fn replay(&self, from: SequenceNumber) -> (entries: Vec<Entry>) {
        let all = decode_log(self.bytes.as_slice());
        let mut entries: Vec<Entry> = Vec::new();
        let mut i: usize = 0;
        while i < all.len()
            invariant
                i <= all@.len(),
                entries@ == entries_after(all@.take(i as int), from),
            decreases all@.len() - i,
        {
            proof {
                let upto = all@.take(i + 1);
                assert(upto.drop_last() =~= all@.take(i as int));
                assert(upto.last() == all@[i as int]);
            }
            if all[i].sequence > from {
                entries.push(all[i]);
            }
            i += 1;
        }
        proof {
            assert(all@.take(all@.len() as int) =~= all@);
        }
        entries
    }
}

} // verus!
