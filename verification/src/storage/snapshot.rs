//! Reading a region: snapshots, scans and the chunks that a scan hands out.

use std::sync::Arc;
use vstd::prelude::*;
use crate::datatypes::schema::Schema;
use crate::datatypes::vectors::{PrimitiveVector, TimestampMillisecond, Vector, VectorRef};
use crate::sharing::share;
use crate::storage::error::{Error, Result};
use crate::storage::memtable::{
    is_scan_of, is_scan_within, visible_rows_within, Entry, Row, SequenceNumber, TimeRange,
};
use crate::storage::metadata::RegionMetadataRef;
use crate::storage::region::{file_entries, version_entries, ReadContext};
use crate::storage::sst::AccessLayer;
use crate::storage::version::Version;

verus! {

/// What to scan: up to which sequence number (the snapshot's own if `None`,
/// and never beyond it), which columns by their index in the schema (all if
/// `None`), and which range of timestamps (all if `None`).
#[derive(Clone, Debug, PartialEq, Eq)]
pub struct ScanRequest {
    pub sequence: Option<SequenceNumber>,
    pub projection: Option<Vec<usize>>,
    pub time_range: Option<TimeRange>,
}

impl Default for ScanRequest {
    /// The request for everything: all columns and all timestamps, up to
    /// the snapshot's own sequence number.
    fn default() -> (request: ScanRequest)
        ensures
            request.sequence is None,
            request.projection is None,
            request.time_range is None,
    {
        ScanRequest { sequence: None, projection: None, time_range: None }
    }
}

/// Some rows of a scan, column by column.
#[derive(Clone, Debug, PartialEq, Eq)]
pub struct Chunk {
    pub columns: Vec<VectorRef>,
}

/// Whether `vector` is the column of a chunk of `rows` that stands for the
/// column `index` of a schema of `width` columns: the timestamps for the
/// first column, the values for the last, and zeros, as versions, for one in
/// between.
pub open spec fn is_chunk_column(vector: Vector, rows: Seq<Row>, width: int, index: int) -> bool {
    if index == 0 {
        vector matches Vector::TimestampMillisecond(v) && v@ == rows.map_values(
            |r: Row| Some(TimestampMillisecond(r.0)),
        )
    } else if index == width - 1 {
        vector matches Vector::Int64(v) && v@ == rows.map_values(|r: Row| r.1)
    } else {
        vector matches Vector::UInt64(v) && v@ == rows.map_values(|r: Row| Some(0u64))
    }
}

/// Whether `chunk` holds `rows` under the projection `projection` of a schema
/// of `width` columns.
pub open spec fn is_chunk_of(chunk: Chunk, rows: Seq<Row>, width: int, projection: Seq<usize>) -> bool {
    &&& chunk.columns@.len() == projection.len()
    &&& forall|j: int|
        0 <= j < projection.len() ==> is_chunk_column(
            *(#[trigger] chunk.columns@[j]),
            rows,
            width,
            projection[j] as int,
        )
}

fn build_column(rows: &Vec<Row>, width: usize, index: usize) -> (vector: Vector)
    ensures
        is_chunk_column(vector, rows@, width as int, index as int),
{
    if index == 0 {
        let mut values: Vec<Option<TimestampMillisecond>> = Vec::new();
        let mut i: usize = 0;
        while i < rows.len()
            invariant
                i <= rows@.len(),
                values@ == rows@.take(i as int).map_values(
                    |r: Row| Some(TimestampMillisecond(r.0)),
                ),
            decreases rows@.len() - i,
        {
            values.push(Some(TimestampMillisecond(rows[i].0)));
            proof {
                assert(rows@.take(i + 1).map_values(|r: Row| Some(TimestampMillisecond(r.0)))
                    =~= rows@.take(i as int).map_values(
                    |r: Row| Some(TimestampMillisecond(r.0)),
                ).push(Some(TimestampMillisecond(rows@[i as int].0))));
            }
            i += 1;
        }
        proof {
            assert(rows@.take(rows@.len() as int) =~= rows@);
        }
        Vector::TimestampMillisecond(PrimitiveVector { values })
    } else if width > 0 && index == width - 1 {
        let mut values: Vec<Option<i64>> = Vec::new();
        let mut i: usize = 0;
        while i < rows.len()
            invariant
                i <= rows@.len(),
                values@ == rows@.take(i as int).map_values(|r: Row| r.1),
            decreases rows@.len() - i,
        {
            values.push(rows[i].1);
            proof {
                assert(rows@.take(i + 1).map_values(|r: Row| r.1) =~= rows@.take(
                    i as int,
                ).map_values(|r: Row| r.1).push(rows@[i as int].1));
            }
            i += 1;
        }
        proof {
            assert(rows@.take(rows@.len() as int) =~= rows@);
        }
        Vector::Int64(PrimitiveVector { values })
    } else {
        let mut values: Vec<Option<u64>> = Vec::new();
        let mut i: usize = 0;
        while i < rows.len()
            invariant
                i <= rows@.len(),
                values@ == rows@.take(i as int).map_values(|r: Row| Some(0u64)),
            decreases rows@.len() - i,
        {
            values.push(Some(0u64));
            proof {
                assert(rows@.take(i + 1).map_values(|r: Row| Some(0u64)) =~= rows@.take(
                    i as int,
                ).map_values(|r: Row| Some(0u64)).push(Some(0u64)));
            }
            i += 1;
        }
        proof {
            assert(rows@.take(rows@.len() as int) =~= rows@);
        }
        Vector::UInt64(PrimitiveVector { values })
    }
}

/// The most rows that one chunk holds.
pub const CHUNK_ROWS: usize = 1024;

/// Hands out the rows of one scan, chunk by chunk, in order. A reader is not
/// restartable; to read again, scan again.
#[derive(Clone, Debug, PartialEq, Eq)]
pub struct ChunkReaderImpl {
    pub metadata: RegionMetadataRef,
    /// The columns that the chunks hold, by their index in the schema.
    pub projection: Vec<usize>,
    /// All rows of the scan, ascending in the key.
    pub rows: Vec<Row>,
    /// How many of the rows were handed out.
    pub position: usize,
}

/// The end of the chunk that begins at the row `position` of `len` rows;
/// `position` itself if no row is left.
pub open spec fn chunk_end(position: int, len: int) -> int {
    if position >= len {
        position
    } else if len - position > CHUNK_ROWS {
        position + CHUNK_ROWS
    } else {
        len
    }
}

impl ChunkReaderImpl {
    /// The schema of the region that was scanned.
    pub fn schema(&self) -> (s: &Schema)
        ensures
            *s == self.metadata.schema,
    {
        &self.metadata.schema
    }

    /// The next chunk: the next rows of the scan, at most [`CHUNK_ROWS`] of
    /// them, or nothing once all rows were handed out.
    pub fn next_chunk(&mut self) -> (r: Result<Option<Chunk>>)
        ensures
            final(self).rows == old(self).rows,
            final(self).projection == old(self).projection,
            final(self).metadata == old(self).metadata,
            final(self).position == chunk_end(
                old(self).position as int,
                old(self).rows@.len() as int,
            ),
            r is Ok,
            match r->Ok_0 {
                Some(chunk) => old(self).position < old(self).rows@.len() && is_chunk_of(
                    chunk,
                    old(self).rows@.subrange(old(self).position as int, final(self).position as int),
                    old(self).metadata.schema.column_schemas@.len() as int,
                    old(self).projection@,
                ),
                None => old(self).position >= old(self).rows@.len(),
            },
    {
        if self.position >= self.rows.len() {
            return Ok(None);
        }
        let start = self.position;
        let end = if self.rows.len() - start > CHUNK_ROWS {
            start + CHUNK_ROWS
        } else {
            self.rows.len()
        };
        let mut part: Vec<Row> = Vec::new();
        let mut i: usize = start;
        while i < end
            invariant
                start <= i <= end <= self.rows@.len(),
                part@ == self.rows@.subrange(start as int, i as int),
            decreases end - i,
        {
            part.push(self.rows[i]);
            proof {
                assert(part@ =~= self.rows@.subrange(start as int, i + 1));
            }
            i += 1;
        }
        self.position = end;
        let width = self.metadata.schema.column_schemas.len();
        let mut columns: Vec<VectorRef> = Vec::new();
        let mut j: usize = 0;
        while j < self.projection.len()
            invariant
                j <= self.projection@.len(),
                width == self.metadata.schema.column_schemas@.len(),
                columns@.len() == j,
                forall|k: int|
                    0 <= k < j ==> is_chunk_column(
                        *(#[trigger] columns@[k]),
                        part@,
                        width as int,
                        self.projection@[k] as int,
                    ),
            decreases self.projection@.len() - j,
        {
            columns.push(Arc::new(build_column(&part, width, self.projection[j])));
            j += 1;
        }
        Ok(Some(Chunk { columns }))
    }
}

/// What a scan returns.
#[derive(Clone, Debug, PartialEq, Eq)]
pub struct ScanResponse {
    pub reader: ChunkReaderImpl,
}

/// A read handle on one version of a region: it sees the mutations up to the
/// sequence number that was committed when it was taken.
pub struct Snapshot<'a> {
    pub version: &'a Version,
    pub sst_layer: &'a AccessLayer,
    pub sequence: SequenceNumber,
}

/// All mutations of `version`, oldest first: of its files in their order, of
/// its frozen memtable, and of the memtable that takes writes.
pub fn gather_entries(version: &Version, sst_layer: &AccessLayer) -> (r: Result<Vec<Entry>>)
    ensures
        match r {
            Ok(all) => {
                &&& all@ == version_entries(sst_layer.files@, *version)
                &&& forall|i: int|
                    0 <= i < version.files@.len() ==> sst_layer.content(
                        (#[trigger] version.files@[i]).file_name@,
                    ) is Some
            },
            Err(e) => exists|i: int|
                0 <= i < version.files@.len() && sst_layer.content(
                    (#[trigger] version.files@[i]).file_name@,
                ) is None && e == (Error::FileNotFound { file_name: version.files@[i].file_name }),
        },
{
    let mut all: Vec<Entry> = Vec::new();
    let mut f: usize = 0;
    while f < version.files.len()
        invariant
            f <= version.files@.len(),
            all@ == file_entries(sst_layer.files@, version.files@.take(f as int)),
            forall|i: int|
                0 <= i < f ==> sst_layer.content((#[trigger] version.files@[i]).file_name@) is Some,
        decreases version.files@.len() - f,
    {
        proof {
            let upto = version.files@.take(f + 1);
            assert(upto.drop_last() =~= version.files@.take(f as int));
            assert(upto.last() == version.files@[f as int]);
        }
        match sst_layer.read_sst(version.files[f].file_name.as_str()) {
            Some(entries) => {
                append_entries(&mut all, entries);
            },
            None => {
                return Err(Error::FileNotFound { file_name: version.files[f].file_name.clone() });
            },
        }
        f += 1;
    }
    proof {
        assert(version.files@.take(version.files@.len() as int) =~= version.files@);
    }
    match &version.immutable {
        Some(m) => {
            append_entries(&mut all, &m.entries);
        },
        None => {
            proof {
                assert(all@ + Seq::<Entry>::empty() =~= all@);
            }
        },
    }
    append_entries(&mut all, &version.mutable.entries);
    Ok(all)
}

/// Appends a copy of `more` to `all`.
pub fn append_entries(all: &mut Vec<Entry>, more: &Vec<Entry>)
    ensures
        final(all)@ == old(all)@ + more@,
{
    let ghost before = all@;
    let mut i: usize = 0;
    while i < more.len()
        invariant
            i <= more@.len(),
            all@ == before + more@.take(i as int),
        decreases more@.len() - i,
    {
        all.push(more[i]);
        proof {
            assert(more@.take(i + 1) =~= more@.take(i as int).push(more@[i as int]));
            assert(all@ =~= before + more@.take(i + 1));
        }
        i += 1;
    }
    proof {
        assert(more@.take(more@.len() as int) =~= more@);
    }
}

/// The sequence number up to which a scan reads.
pub open spec fn scan_ceiling(snapshot: SequenceNumber, requested: Option<SequenceNumber>) -> SequenceNumber {
    match requested {
        Some(s) if s < snapshot => s,
        _ => snapshot,
    }
}

/// The first index of `projection`, at `from` or later, that names a column
/// beyond the `width` columns.
pub open spec fn first_beyond(projection: Seq<usize>, width: nat, from: int) -> Option<usize>
    decreases projection.len() - from,
{
    if from < 0 || from >= projection.len() {
        None
    } else if projection[from] >= width {
        Some(projection[from])
    } else {
        first_beyond(projection, width, from + 1)
    }
}

/// The first index of the projection that names a column beyond the `width`
/// columns, if there is one.
pub open spec fn bad_projection(projection: Option<Vec<usize>>, width: nat) -> Option<usize> {
    match projection {
        Some(p) => first_beyond(p@, width, 0),
        None => None,
    }
}

impl<'a> Snapshot<'a> {
    /// The sequence number up to which the snapshot sees.
    pub fn sequence_number(&self) -> (s: SequenceNumber)
        ensures
            s == self.sequence,
    {
        self.sequence
    }

    /// Scans the snapshot: of each key the mutation with the highest
    /// sequence number within the ceiling decides, a key whose last mutation
    /// is a delete is absent, only keys within the requested range are
    /// returned, and the rows come ascending in the key. The ceiling is the
    /// snapshot's sequence number, or the requested one if that is lower.
    /// Fails if the projection names a column that the schema does not have,
    /// or if a file of the version is not in the storage.
    pub fn scan(&self, ctx: &ReadContext, request: ScanRequest) -> (r: Result<ScanResponse>)
        ensures
            match r {
                Ok(response) => {
                    let reader = response.reader;
                    &&& is_scan_within(
                        reader.rows@,
                        version_entries(self.sst_layer.files@, *self.version),
                        scan_ceiling(self.sequence, request.sequence),
                        request.time_range,
                    )
                    &&& (request.time_range is None ==> is_scan_of(
                        reader.rows@,
                        version_entries(self.sst_layer.files@, *self.version),
                        scan_ceiling(self.sequence, request.sequence),
                    ))
                    &&& reader.position == 0
                    &&& reader.metadata == self.version.metadata
                    &&& match request.projection {
                        Some(p) => reader.projection@ == p@,
                        None => reader.projection@ == Seq::new(
                            self.version.metadata.schema.column_schemas@.len(),
                            |i: int| i as usize,
                        ),
                    }
                    &&& bad_projection(
                        request.projection,
                        self.version.metadata.schema.column_schemas@.len(),
                    ) is None
                },
                Err(Error::InvalidProjection { index }) => bad_projection(
                    request.projection,
                    self.version.metadata.schema.column_schemas@.len(),
                ) == Some(index),
                Err(e) => e is FileNotFound && exists|i: int|
                    0 <= i < self.version.files@.len() && self.sst_layer.content(
                        (#[trigger] self.version.files@[i]).file_name@,
                    ) is None,
            },
    {
        let width = self.version.metadata.schema.column_schemas.len();
        let projection = match request.projection {
            Some(p) => {
                let mut j: usize = 0;
                while j < p.len()
                    invariant
                        j <= p@.len(),
                        request.projection == Some(p),
                        width == self.version.metadata.schema.column_schemas@.len(),
                        first_beyond(p@, width as nat, 0) == first_beyond(p@, width as nat, j as int),
                    decreases p@.len() - j,
                {
                    if p[j] >= width {
                        return Err(Error::InvalidProjection { index: p[j] });
                    }
                    j += 1;
                }
                p
            },
            None => {
                let mut p: Vec<usize> = Vec::new();
                let mut j: usize = 0;
                while j < width
                    invariant
                        j <= width,
                        p@ == Seq::new(j as nat, |i: int| i as usize),
                    decreases width - j,
                {
                    p.push(j);
                    proof {
                        assert(p@ =~= Seq::new((j + 1) as nat, |i: int| i as usize));
                    }
                    j += 1;
                }
                p
            },
        };
        let ceiling = match request.sequence {
            Some(s) => if s < self.sequence {
                s
            } else {
                self.sequence
            },
            None => self.sequence,
        };
        let all = match gather_entries(self.version, self.sst_layer) {
            Ok(all) => all,
            Err(e) => {
                return Err(e);
            },
        };
        let rows = visible_rows_within(&all, ceiling, request.time_range);
        Ok(
            ScanResponse {
                reader: ChunkReaderImpl {
                    metadata: share(&self.version.metadata),
                    projection,
                    rows,
                    position: 0,
                },
            },
        )
    }
}

} // verus!
