//! The region: one writer, many readers, over a write-ahead log, memtables,
//! files and a manifest.

use std::sync::Arc;
use vstd::prelude::*;
use crate::datatypes::schema::{ColumnSchema, Schema};
use crate::sharing::share;
use crate::storage::error::{Error, Result};
use crate::storage::flush::{FlushJob, FlushSchedulerImpl, FlushStrategy, SizeBasedStrategy};
use crate::storage::manifest::{
    final_metadata, has_file, replay_records, without, RecoveredMetadataMap, RegionChange,
    RegionEdit, RegionManifest, RegionMetaAction, RegionMetaActionList, Replayed,
};
use crate::storage::snapshot::Snapshot;
use crate::storage::memtable::{entries_of, increasing, to_entries, Entry, MemTable, SequenceNumber};
use crate::storage::metadata::{RegionMetadata, RegionMetadataRef};
use crate::storage::sst::{content_of, AccessLayer, FileMeta, SstFile};
use crate::storage::version::{DefaultMemtableBuilder, Version};
use crate::storage::wal::{entries_after, lemma_entries_after_is_suffix, LogStore};
use crate::storage::write_batch::WriteBatch;

verus! {

/// What a region is built on.
pub struct StoreConfig<S: LogStore> {
    pub log_store: S,
    pub sst_layer: AccessLayer,
    pub manifest: RegionManifest,
    pub memtable_builder: DefaultMemtableBuilder,
    pub flush_scheduler: FlushSchedulerImpl,
    pub flush_strategy: SizeBasedStrategy,
}

/// The context of a write; it holds no options yet.
#[derive(Clone, Copy, Debug, Default, PartialEq, Eq)]
pub struct WriteContext {}

/// The context of a read; it holds no options yet.
#[derive(Clone, Copy, Debug, Default, PartialEq, Eq)]
pub struct ReadContext {}

/// What a write reports back.
#[derive(Clone, Copy, Debug, PartialEq, Eq)]
pub struct WriteResponse {
    /// How many rows the write put or deleted.
    pub affected_rows: usize,
}

/// The mutations that the files `files` hold among `store`, file after file.
/// A file that the store lacks counts as empty.
pub open spec fn file_entries(store: Seq<SstFile>, files: Seq<FileMeta>) -> Seq<Entry>
    decreases files.len(),
{
    if files.len() == 0 {
        Seq::empty()
    } else {
        file_entries(store, files.drop_last()) + match content_of(store, files.last().file_name@) {
            Some(entries) => entries,
            None => Seq::empty(),
        }
    }
}

/// The mutations of the frozen memtable, if there is one.
pub open spec fn frozen_entries(immutable: Option<MemTable>) -> Seq<Entry> {
    match immutable {
        Some(m) => m@,
        None => Seq::empty(),
    }
}

/// All mutations that a version holds, oldest first: those of the files, of
/// the frozen memtable, and of the memtable that takes writes.
pub open spec fn version_entries(store: Seq<SstFile>, version: Version) -> Seq<Entry> {
    file_entries(store, version.files@) + frozen_entries(version.immutable) + version.mutable@
}

/// Files whose content is the same in two stores hold the same mutations in
/// both.
pub proof fn lemma_file_entries_stable(before: Seq<SstFile>, after: Seq<SstFile>, files: Seq<FileMeta>)
    requires
        forall|i: int|
            0 <= i < files.len() ==> content_of(after, (#[trigger] files[i]).file_name@)
                == content_of(before, files[i].file_name@),
    ensures
        file_entries(after, files) == file_entries(before, files),
    decreases files.len(),
{
    if files.len() > 0 {
        let front = files.drop_last();
        assert(forall|i: int| 0 <= i < front.len() ==> front[i] == files[i]);
        assert(files.last() == files[files.len() - 1]);
        lemma_file_entries_stable(before, after, front);
    }
}

/// Taking nothing out of a file set leaves it as it is.
pub proof fn lemma_without_nothing(files: Seq<FileMeta>)
    ensures
        without(files, Seq::empty()) == files,
    decreases files.len(),
{
    if files.len() > 0 {
        lemma_without_nothing(files.drop_last());
        assert(!has_file(Seq::<FileMeta>::empty(), files.last().file_name@));
        assert(files.drop_last().push(files.last()) =~= files);
    }
}

/// Taking all of a file set out of it, after one more file of another name
/// was added, leaves that file.
pub proof fn lemma_without_all_but(files: Seq<FileMeta>, added: FileMeta)
    requires
        !has_file(files, added.file_name@),
    ensures
        without(files + seq![added], files) == seq![added],
{
    lemma_without_all(files, files);
    let all = files + seq![added];
    assert(all.drop_last() =~= files);
    assert(all.last() == added);
    assert(Seq::<FileMeta>::empty().push(added) =~= seq![added]);
}

/// Taking files out that are all among the removed leaves nothing.
proof fn lemma_without_all(files: Seq<FileMeta>, removed: Seq<FileMeta>)
    requires
        forall|i: int| 0 <= i < files.len() ==> has_file(removed, (#[trigger] files[i]).file_name@),
    ensures
        without(files, removed) == Seq::<FileMeta>::empty(),
    decreases files.len(),
{
    if files.len() > 0 {
        assert(forall|i: int| 0 <= i < files.len() - 1 ==> files.drop_last()[i] == files[i]);
        assert(has_file(removed, files[files.len() - 1].file_name@));
        lemma_without_all(files.drop_last(), removed);
    }
}

/// Whether the two schemas have the same columns: the same names, types,
/// nullability and time index, in the same order.
pub open spec fn same_columns(a: Schema, b: Schema) -> bool {
    &&& a.timestamp_index == b.timestamp_index
    &&& a.column_schemas@.len() == b.column_schemas@.len()
    &&& forall|i: int|
        0 <= i < a.column_schemas@.len() ==> same_column(
            #[trigger] a.column_schemas@[i],
            b.column_schemas@[i],
        )
}

/// Whether the two columns agree in name, type, nullability and time index.
pub open spec fn same_column(a: ColumnSchema, b: ColumnSchema) -> bool {
    &&& a.name@ == b.name@
    &&& a.data_type == b.data_type
    &&& a.is_nullable == b.is_nullable
    &&& a.is_time_index == b.is_time_index
}

/// Whether the two schemas have the same columns.
pub fn schemas_match(a: &Schema, b: &Schema) -> (same: bool)
    ensures
        same == same_columns(*a, *b),
{
    if a.timestamp_index != b.timestamp_index {
        return false;
    }
    if a.column_schemas.len() != b.column_schemas.len() {
        return false;
    }
    let mut i: usize = 0;
    while i < a.column_schemas.len()
        invariant
            i <= a.column_schemas@.len(),
            a.column_schemas@.len() == b.column_schemas@.len(),
            forall|j: int|
                0 <= j < i ==> same_column(#[trigger] a.column_schemas@[j], b.column_schemas@[j]),
        decreases a.column_schemas@.len() - i,
    {
        let x = &a.column_schemas[i];
        let y = &b.column_schemas[i];
        if !(x.name == y.name && x.data_type == y.data_type && x.is_nullable == y.is_nullable
            && x.is_time_index == y.is_time_index) {
            return false;
        }
        i += 1;
    }
    true
}

/// One region.
pub struct RegionImpl<S: LogStore> {
    pub name: String,
    pub version: Version,
    pub committed_sequence: SequenceNumber,
    pub wal: S,
    pub sst_layer: AccessLayer,
    pub manifest: RegionManifest,
    pub memtable_builder: DefaultMemtableBuilder,
    pub flush_scheduler: FlushSchedulerImpl,
    pub flush_strategy: SizeBasedStrategy,
}

impl<S: LogStore> RegionImpl<S> {
    /// All mutations of the region, oldest first.
    pub open spec fn entries(&self) -> Seq<Entry> {
        version_entries(self.sst_layer.files@, self.version)
    }

    /// Whether the region is in order: the sequence numbers of its mutations
    /// are positive, strictly increasing and at most the committed one; the
    /// files hold what is flushed and the memtables what is not; every file
    /// of the version is in the storage; a log that keeps what it gets holds
    /// exactly the mutations of the region; and replaying the manifest gives
    /// the metadata, the files and the flush point of the version.
    pub open spec fn well_formed(&self) -> bool {
        let in_files = file_entries(self.sst_layer.files@, self.version.files@);
        let in_memory = frozen_entries(self.version.immutable) + self.version.mutable@;
        let replayed = replay_records(self.manifest.records@);
        &&& increasing(self.entries())
        &&& forall|i: int|
            0 <= i < self.entries().len() ==> (#[trigger] self.entries()[i]).sequence
                <= self.committed_sequence
        &&& forall|i: int|
            0 <= i < in_files.len() ==> (#[trigger] in_files[i]).sequence
                <= self.version.flushed_sequence
        &&& forall|i: int|
            0 <= i < in_memory.len() ==> (#[trigger] in_memory[i]).sequence
                > self.version.flushed_sequence
        &&& self.version.flushed_sequence <= self.committed_sequence
        &&& forall|i: int|
            0 <= i < self.version.files@.len() ==> self.sst_layer.content(
                (#[trigger] self.version.files@[i]).file_name@,
            ) is Some
        &&& !self.version.mutable.frozen
        &&& self.wal.inv()
        &&& (self.wal.durable() ==> self.wal.log() == self.entries())
        &&& replayed.metadata is Some
        &&& final_metadata(replayed) == Some(*self.version.metadata)
        &&& replayed.files == self.version.files@
        &&& replayed.flushed_sequence == self.version.flushed_sequence
        &&& forall|k: SequenceNumber| #[trigger]
            replayed.changes.dom().contains(k) ==> k <= self.committed_sequence
        &&& self.committed_sequence == if self.entries().len() == 0 {
            0
        } else {
            self.entries().last().sequence
        }
        &&& self.version.flushed_sequence == if in_files.len() == 0 {
            0
        } else {
            in_files.last().sequence
        }
        &&& match self.flush_scheduler.in_flight {
            Some(job) => {
                &&& self.version.immutable is Some
                &&& self.version.immutable->Some_0@.len() > 0
                &&& self.version.immutable->Some_0@.last().sequence == job.sequence
                &&& forall|i: int|
                    0 <= i < self.version.mutable@.len() ==> (
                    #[trigger] self.version.mutable@[i]).sequence > job.sequence
            },
            None => self.version.immutable is None,
        }
    }

    /// A region with the given version, on the given stores.
    pub fn new(version: Version, store_config: StoreConfig<S>) -> (region: RegionImpl<S>)
        ensures
            region.name == version.metadata.name,
            region.version == version,
            region.committed_sequence == version.flushed_sequence,
            region.wal == store_config.log_store,
            region.sst_layer == store_config.sst_layer,
            region.manifest == store_config.manifest,
            region.flush_scheduler == store_config.flush_scheduler,
            region.flush_strategy == store_config.flush_strategy,
    {
        let name = version.metadata.name.clone();
        let committed_sequence = version.flushed_sequence;
        RegionImpl {
            name,
            version,
            committed_sequence,
            wal: store_config.log_store,
            sst_layer: store_config.sst_layer,
            manifest: store_config.manifest,
            memtable_builder: store_config.memtable_builder,
            flush_scheduler: store_config.flush_scheduler,
            flush_strategy: store_config.flush_strategy,
        }
    }

    /// Creates a fresh region: records `metadata` as the first change of the
    /// manifest and starts with an empty memtable. The stores must be fresh
    /// too: an empty log, an empty manifest and an idle scheduler. Fails, and
    /// hands nothing back, exactly when the manifest has no room.
    pub fn create(metadata: RegionMetadata, store_config: StoreConfig<S>) -> (r: Result<RegionImpl<S>>)
        requires
            store_config.manifest.records@.len() == 0,
            store_config.log_store.inv(),
            store_config.log_store.log().len() == 0,
            store_config.flush_scheduler.in_flight is None,
        ensures
            match r {
                Ok(region) => {
                    &&& store_config.manifest.capacity > 0
                    &&& region.well_formed()
                    &&& region.entries().len() == 0
                    &&& region.committed_sequence == 0
                    &&& *region.version.metadata == metadata
                    &&& region.name == metadata.name
                    &&& region.version.files@.len() == 0
                    &&& region.sst_layer == store_config.sst_layer
                    &&& region.flush_strategy == store_config.flush_strategy
                    &&& region.flush_scheduler == store_config.flush_scheduler
                    &&& region.wal == store_config.log_store
                    &&& region.manifest.capacity == store_config.manifest.capacity
                    &&& region.manifest.records@.len() == 1
                },
                Err(e) => store_config.manifest.capacity == 0 && e == Error::ManifestFull,
            },
    {
        let metadata: RegionMetadataRef = Arc::new(metadata);
        let mut manifest = store_config.manifest;
        let change = RegionMetaAction::Change(
            RegionChange { metadata: share(&metadata), committed_sequence: 0 },
        );
        let list = RegionMetaActionList::with_action(change);
        match manifest.update(list) {
            Ok(_) => {},
            Err(e) => {
                return Err(e);
            },
        }
        let version = Version::new(metadata, store_config.memtable_builder.build());
        let name = version.metadata.name.clone();
        let region = RegionImpl {
            name,
            version,
            committed_sequence: 0,
            wal: store_config.log_store,
            sst_layer: store_config.sst_layer,
            manifest,
            memtable_builder: store_config.memtable_builder,
            flush_scheduler: store_config.flush_scheduler,
            flush_strategy: store_config.flush_strategy,
        };
        proof {
            let records = region.manifest.records@;
            assert(records.drop_last() =~= Seq::<RegionMetaActionList>::empty());
            assert(records.last().actions@.drop_last() =~= Seq::<RegionMetaAction>::empty());
            reveal_with_fuel(crate::storage::manifest::replay_records, 2);
            reveal_with_fuel(crate::storage::manifest::replay_list, 2);
            assert(region.entries() =~= Seq::<Entry>::empty());
            assert(region.wal.log() =~= Seq::<Entry>::empty());
            let replayed = replay_records(records);
            assert(replayed.metadata == Some(*region.version.metadata));
            assert(replayed.files =~= region.version.files@);
            assert(replayed.flushed_sequence == 0);
            assert(replayed.changes =~= Map::<SequenceNumber, (u64, RegionMetadata)>::empty());
            assert(file_entries(region.sst_layer.files@, region.version.files@) =~= Seq::<
                Entry,
            >::empty());
            assert(frozen_entries(region.version.immutable) + region.version.mutable@ =~= Seq::<
                Entry,
            >::empty());
            assert(region.well_formed());
        }
        Ok(region)
    }

    pub fn name(&self) -> (n: &str)
        ensures
            n@ == self.name@,
    {
        self.name.as_str()
    }

    /// What writing `batch` comes to, by the state before the write: the
    /// error that keeps the batch out, or nothing if it gets in.
    pub open spec fn write_error(&self, batch: WriteBatch) -> Option<Error> {
        if !same_columns(batch.schema, self.version.metadata.schema) {
            Some(Error::InvalidInputSchema { region: self.name })
        } else if batch.rows@.len() == 0 {
            None
        } else if self.committed_sequence + batch.rows@.len() > u64::MAX {
            Some(Error::SequenceExhausted)
        } else if !self.wal.accepts(
            entries_of(batch.rows@, (self.committed_sequence + 1) as u64),
        ) {
            Some(Error::WriteWal { source: crate::storage::error::WalError::Full })
        } else {
            None
        }
    }

    /// Writes a batch: checks its schema against the region's, gives each of
    /// its rows the next sequence number, appends the rows to the log and
    /// then to the memtable. A batch that is refused, by the checks or by the
    /// log, leaves the region as it was. Nothing but the log, the memtable
    /// and the committed sequence number changes.
    pub fn write(&mut self, ctx: &WriteContext, batch: WriteBatch) -> (r: Result<WriteResponse>)
        requires
            old(self).well_formed(),
        ensures
            final(self).well_formed(),
            final(self).name == old(self).name,
            final(self).manifest == old(self).manifest,
            final(self).sst_layer == old(self).sst_layer,
            final(self).flush_scheduler == old(self).flush_scheduler,
            final(self).flush_strategy == old(self).flush_strategy,
            final(self).version.metadata == old(self).version.metadata,
            final(self).version.files == old(self).version.files,
            final(self).version.immutable == old(self).version.immutable,
            final(self).version.flushed_sequence == old(self).version.flushed_sequence,
            final(self).version.manifest_version == old(self).version.manifest_version,
            match old(self).write_error(batch) {
                Some(e) => {
                    &&& r is Err
                    &&& (e is WriteWal ==> r->Err_0 is WriteWal)
                    &&& (!(e is WriteWal) ==> r->Err_0 == e)
                    &&& final(self).entries() == old(self).entries()
                    &&& final(self).committed_sequence == old(self).committed_sequence
                    &&& final(self).wal.log() == old(self).wal.log()
                    &&& final(self).version.mutable@ == old(self).version.mutable@
                    &&& forall|next: Seq<Entry>|
                        #[trigger] final(self).wal.accepts(next) == old(self).wal.accepts(next)
                },
                None => {
                    &&& r == Ok::<WriteResponse, Error>(
                        WriteResponse { affected_rows: batch.rows@.len() as usize },
                    )
                    &&& final(self).entries() == old(self).entries() + entries_of(
                        batch.rows@,
                        (old(self).committed_sequence + 1) as u64,
                    )
                    &&& final(self).committed_sequence == old(self).committed_sequence
                        + batch.rows@.len()
                    &&& final(self).version.mutable@ == old(self).version.mutable@ + entries_of(
                        batch.rows@,
                        (old(self).committed_sequence + 1) as u64,
                    )
                    &&& forall|next: Seq<Entry>|
                        old(self).wal.accepts(
                            entries_of(batch.rows@, (old(self).committed_sequence + 1) as u64)
                                + next,
                        ) ==> #[trigger] final(self).wal.accepts(next)
                },
            },
    {
        if !schemas_match(&batch.schema, &self.version.metadata.schema) {
            return Err(Error::InvalidInputSchema { region: self.name.clone() });
        }
        let n = batch.rows.len();
        if n == 0 {
            proof {
                assert(entries_of(batch.rows@, (self.committed_sequence + 1) as u64) =~= Seq::<
                    Entry,
                >::empty());
                assert(self.entries() + Seq::<Entry>::empty() =~= self.entries());
            }
            return Ok(WriteResponse { affected_rows: 0 });
        }
        if n as u64 > u64::MAX - self.committed_sequence {
            return Err(Error::SequenceExhausted);
        }
        let first = self.committed_sequence + 1;
        let entries = to_entries(&batch.rows, first);
        let ghost before = self.entries();
        let ghost in_files = file_entries(self.sst_layer.files@, self.version.files@);
        let ghost in_memory = frozen_entries(self.version.immutable) + self.version.mutable@;
        match self.wal.append(&entries) {
            Ok(()) => {},
            Err(source) => {
                return Err(Error::WriteWal { source });
            },
        }
        match self.version.mutable.write(&entries) {
            Ok(()) => {},
            Err(e) => {
                return Err(e);
            },
        }
        self.committed_sequence = self.committed_sequence + n as u64;
        proof {
            let after = self.entries();
            assert(after =~= before + entries@);
            assert(frozen_entries(self.version.immutable) + self.version.mutable@ =~= in_memory
                + entries@);
            assert forall|i: int| 0 <= i < after.len() implies (#[trigger] after[i]).sequence > 0
                && after[i].sequence <= self.committed_sequence by {
                if i < before.len() {
                    assert(after[i] == before[i]);
                } else {
                    assert(after[i] == entries@[i - before.len()]);
                }
            }
            assert forall|i: int, j: int| 0 <= i < j < after.len() implies (
            #[trigger] after[i]).sequence < (#[trigger] after[j]).sequence by {
                if j < before.len() {
                    assert(after[i] == before[i]);
                    assert(after[j] == before[j]);
                } else if i < before.len() {
                    assert(after[i] == before[i]);
                    assert(after[j] == entries@[j - before.len()]);
                } else {
                    assert(after[i] == entries@[i - before.len()]);
                    assert(after[j] == entries@[j - before.len()]);
                }
            }
            let memory = frozen_entries(self.version.immutable) + self.version.mutable@;
            assert forall|i: int| 0 <= i < memory.len() implies (#[trigger] memory[i]).sequence
                > self.version.flushed_sequence by {
                if i < in_memory.len() {
                    assert(memory[i] == in_memory[i]);
                } else {
                    assert(memory[i] == entries@[i - in_memory.len()]);
                }
            }
        }
        Ok(WriteResponse { affected_rows: n })
    }

    /// Rebuilds a version from a manifest; see
    /// [`crate::storage::version::recover_from_manifest`].
    pub fn recover_from_manifest(
        manifest: &RegionManifest,
        memtable_builder: &DefaultMemtableBuilder,
    ) -> (r: (Option<Version>, RecoveredMetadataMap))
        ensures
            ({
                let at = replay_records(manifest.records@);
                &&& r.1@ == at.changes
                &&& match r.0 {
                    None => at.metadata is None,
                    Some(v) => {
                        &&& at.metadata == Some(*v.metadata)
                        &&& v.files@ == at.files
                        &&& v.flushed_sequence == at.flushed_sequence
                        &&& v.manifest_version == at.manifest_version
                        &&& v.mutable@.len() == 0
                        &&& !v.mutable.frozen
                        &&& v.immutable is None
                    },
                }
            }),
    {
        crate::storage::version::recover_from_manifest(manifest, memtable_builder)
    }

    /// Whether this region is what opening the stores `config` yields: the
    /// files, the flush point and the manifest version are those that
    /// replaying the manifest arrives at; the metadata is the one in force
    /// after every change; the memtable holds the mutations of the log above
    /// the flush point; and no flush is under way.
    pub open spec fn recovered_from(&self, config: StoreConfig<S>) -> bool {
        let at = replay_records(config.manifest.records@);
        &&& self.manifest == config.manifest
        &&& self.sst_layer == config.sst_layer
        &&& self.wal == config.log_store
        &&& self.flush_strategy == config.flush_strategy
        &&& self.flush_scheduler.in_flight is None
        &&& final_metadata(at) == Some(*self.version.metadata)
        &&& self.name == self.version.metadata.name
        &&& self.version.files@ == at.files
        &&& self.version.flushed_sequence == at.flushed_sequence
        &&& self.version.manifest_version == at.manifest_version
        &&& self.version.immutable is None
        &&& !self.version.mutable.frozen
        &&& self.version.mutable@ == entries_after(config.log_store.log(), at.flushed_sequence)
        &&& self.committed_sequence == if self.version.mutable@.len() == 0 {
            at.flushed_sequence
        } else {
            self.version.mutable@.last().sequence
        }
        &&& forall|i: int|
            0 <= i < at.files.len() ==> config.sst_layer.content((#[trigger] at.files[i]).file_name@)
                is Some
    }

    /// Opens the region that the stores hold: replays the manifest, then the
    /// log from the flush point on. There is no region if the manifest holds
    /// no change. Fails if the manifest names a file that the storage lacks.
    pub fn open(store_config: StoreConfig<S>) -> (r: Result<Option<RegionImpl<S>>>)
        requires
            store_config.log_store.inv(),
        ensures
            match r {
                Ok(Some(region)) => region.recovered_from(store_config),
                Ok(None) => replay_records(store_config.manifest.records@).metadata is None,
                Err(e) => {
                    let at = replay_records(store_config.manifest.records@);
                    &&& at.metadata is Some
                    &&& exists|i: int|
                        0 <= i < at.files.len() && store_config.sst_layer.content(
                            (#[trigger] at.files[i]).file_name@,
                        ) is None && e == (Error::FileNotFound { file_name: at.files[i].file_name })
                },
            },
    {
        let (version, changes) = crate::storage::version::recover_from_manifest(
            &store_config.manifest,
            &store_config.memtable_builder,
        );
        let mut version = match version {
            Some(v) => v,
            None => {
                return Ok(None);
            },
        };
        let mut f: usize = 0;
        while f < version.files.len()
            invariant
                f <= version.files@.len(),
                version.files@ == replay_records(store_config.manifest.records@).files,
                replay_records(store_config.manifest.records@).metadata is Some,
                forall|i: int|
                    0 <= i < f ==> store_config.sst_layer.content(
                        (#[trigger] version.files@[i]).file_name@,
                    ) is Some,
            decreases version.files@.len() - f,
        {
            if store_config.sst_layer.read_sst(version.files[f].file_name.as_str()).is_none() {
                return Err(Error::FileNotFound { file_name: version.files[f].file_name.clone() });
            }
            f += 1;
        }
        let name = version.metadata.name.clone();
        let mut region = RegionImpl {
            name,
            version,
            committed_sequence: 0,
            wal: store_config.log_store,
            sst_layer: store_config.sst_layer,
            manifest: store_config.manifest,
            memtable_builder: store_config.memtable_builder,
            flush_scheduler: FlushSchedulerImpl {
                in_flight: None,
                scheduled: store_config.flush_scheduler.scheduled,
            },
            flush_strategy: store_config.flush_strategy,
        };
        region.replay(changes);
        Ok(Some(region))
    }

    /// Replays the log into a fresh memtable: the memtables are dropped, and
    /// the mutations of the log above the flush point are applied again, in
    /// the order of the log. The metadata becomes that of the recovered
    /// change with the greatest committed sequence number, if there is one.
    /// The committed sequence number becomes that of the last mutation that
    /// was replayed, or the flush point if there was none.
    pub fn replay(&mut self, recovered_metadata: RecoveredMetadataMap)
        requires
            old(self).wal.inv(),
        ensures
            final(self).wal == old(self).wal,
            final(self).sst_layer == old(self).sst_layer,
            final(self).manifest == old(self).manifest,
            final(self).flush_strategy == old(self).flush_strategy,
            final(self).flush_scheduler == (FlushSchedulerImpl {
                in_flight: None,
                scheduled: old(self).flush_scheduler.scheduled,
            }),
            final(self).version.files == old(self).version.files,
            final(self).version.flushed_sequence == old(self).version.flushed_sequence,
            final(self).version.manifest_version == old(self).version.manifest_version,
            final(self).version.immutable is None,
            !final(self).version.mutable.frozen,
            final(self).version.mutable@ == entries_after(
                old(self).wal.log(),
                old(self).version.flushed_sequence,
            ),
            final(self).committed_sequence == if final(self).version.mutable@.len() == 0 {
                old(self).version.flushed_sequence
            } else {
                final(self).version.mutable@.last().sequence
            },
            final(self).name == final(self).version.metadata.name,
            Some(*final(self).version.metadata) == final_metadata(
                Replayed {
                    metadata: Some(*old(self).version.metadata),
                    files: Seq::empty(),
                    flushed_sequence: 0,
                    manifest_version: 0,
                    edited: false,
                    changes: recovered_metadata@,
                },
            ),
    {
        match recovered_metadata.last_key_value() {
            Some((_, (_, metadata))) => {
                self.version.metadata = metadata;
            },
            None => {},
        }
        self.name = self.version.metadata.name.clone();
        let entries = self.wal.replay(self.version.flushed_sequence);
        self.committed_sequence = if entries.len() == 0 {
            self.version.flushed_sequence
        } else {
            entries[entries.len() - 1].sequence
        };
        let mut memtable = self.memtable_builder.build();
        match memtable.write(&entries) {
            Ok(()) => {},
            Err(_) => {},
        }
        proof {
            assert(Seq::<Entry>::empty() + entries@ =~= entries@);
        }
        self.version.mutable = memtable;
        self.version.immutable = None;
        self.flush_scheduler = FlushSchedulerImpl {
            in_flight: None,
            scheduled: self.flush_scheduler.scheduled,
        };
    }

    /// Compacts the files of the version into the one new file `file_name`
    /// of level 1: writes the mutations of all files, in their order, as the
    /// new file; records the edit that adds it and removes the others in the
    /// manifest; publishes the version with the new file as its only file;
    /// and only then deletes the files that it stands for. A compaction that
    /// fails leaves the version as it was. What readers see stays the same
    /// either way.
    #[verifier::loop_isolation(false)]
    pub fn compact(&mut self, file_name: &str) -> (r: Result<FileMeta>)
        requires
            old(self).well_formed(),
        ensures
            final(self).well_formed(),
            final(self).entries() == old(self).entries(),
            final(self).committed_sequence == old(self).committed_sequence,
            final(self).name == old(self).name,
            final(self).wal == old(self).wal,
            final(self).flush_strategy == old(self).flush_strategy,
            final(self).flush_scheduler == old(self).flush_scheduler,
            final(self).version.metadata == old(self).version.metadata,
            final(self).version.mutable == old(self).version.mutable,
            final(self).version.immutable == old(self).version.immutable,
            final(self).version.flushed_sequence == old(self).version.flushed_sequence,
            match r {
                Ok(meta) => {
                    &&& old(self).version.files@.len() > 0
                    &&& old(self).sst_layer.content(file_name@) is None
                    &&& old(self).manifest.records@.len() < old(self).manifest.capacity
                    &&& meta.file_name@ == file_name@
                    &&& meta.level == 1
                    &&& final(self).version.files@ == seq![meta]
                    &&& final(self).sst_layer.content(file_name@) == Some(
                        file_entries(old(self).sst_layer.files@, old(self).version.files@),
                    )
                    &&& forall|i: int|
                        0 <= i < old(self).version.files@.len() ==> final(self).sst_layer.content(
                            (#[trigger] old(self).version.files@[i]).file_name@,
                        ) is None
                    &&& final(self).manifest.records@.len() == old(self).manifest.records@.len() + 1
                },
                Err(e) => {
                    &&& final(self).version == old(self).version
                    &&& final(self).manifest == old(self).manifest
                    &&& if old(self).version.files@.len() == 0 {
                        e == Error::NothingToCompact && final(self).sst_layer == old(self).sst_layer
                    } else if old(self).sst_layer.content(file_name@) is Some {
                        e is FileExists && final(self).sst_layer == old(self).sst_layer
                    } else {
                        e == Error::ManifestFull && old(self).manifest.records@.len() >= old(
                            self,
                        ).manifest.capacity
                    }
                },
            },
    {
        if self.version.files.len() == 0 {
            return Err(Error::NothingToCompact);
        }
        let ghost before = self.entries();
        let ghost old_store = self.sst_layer.files@;
        let ghost old_files = self.version.files@;
        let ghost old_records = self.manifest.records@;
        let ghost in_files = file_entries(old_store, old_files);
        let mut all: Vec<Entry> = Vec::new();
        let mut f: usize = 0;
        while f < self.version.files.len()
            invariant
                f <= self.version.files@.len(),
                self.version.files@ == old_files,
                self.sst_layer.files@ == old_store,
                forall|i: int|
                    0 <= i < old_files.len() ==> content_of(
                        old_store,
                        (#[trigger] old_files[i]).file_name@,
                    ) is Some,
                all@ == file_entries(old_store, old_files.take(f as int)),
            decreases self.version.files@.len() - f,
        {
            proof {
                let upto = old_files.take(f + 1);
                assert(upto.drop_last() =~= old_files.take(f as int));
                assert(upto.last() == old_files[f as int]);
            }
            match self.sst_layer.read_sst(self.version.files[f].file_name.as_str()) {
                Some(entries) => {
                    crate::storage::snapshot::append_entries(&mut all, entries);
                },
                None => {},
            }
            f += 1;
        }
        proof {
            assert(old_files.take(old_files.len() as int) =~= old_files);
        }
        let written = match self.sst_layer.write_sst(file_name, &all) {
            Ok(meta) => meta,
            Err(e) => {
                return Err(e);
            },
        };
        let meta = FileMeta { file_name: written.file_name, level: 1 };
        proof {
            assert forall|i: int| 0 <= i < old_files.len() implies content_of(
                self.sst_layer.files@,
                (#[trigger] old_files[i]).file_name@,
            ) == content_of(old_store, old_files[i].file_name@) by {
                assert(content_of(old_store, old_files[i].file_name@) is Some);
                assert(self.sst_layer.content(old_files[i].file_name@) == content_of(
                    old_store,
                    old_files[i].file_name@,
                ));
            }
            lemma_file_entries_stable(old_store, self.sst_layer.files@, old_files);
            assert(self.entries() =~= before);
            assert(!has_file(old_files, meta.file_name@)) by {
                if has_file(old_files, meta.file_name@) {
                    let i = choose|i: int|
                        0 <= i < old_files.len() && (#[trigger] old_files[i]).file_name@
                            == meta.file_name@;
                    assert(content_of(old_store, old_files[i].file_name@) is Some);
                }
            }
        }
        let mut files_to_add: Vec<FileMeta> = Vec::new();
        files_to_add.push(meta.duplicate());
        let edit = RegionEdit {
            region_version: self.version.metadata.version,
            flushed_sequence: self.version.flushed_sequence,
            files_to_add,
            files_to_remove: crate::storage::sst::duplicate_files(&self.version.files),
        };
        let list = RegionMetaActionList::with_action(RegionMetaAction::Edit(edit));
        let manifest_version = match self.manifest.update(list) {
            Ok(v) => v,
            Err(e) => {
                return Err(e);
            },
        };
        let mut files: Vec<FileMeta> = Vec::new();
        files.push(meta.duplicate());
        let mut replaced: Vec<FileMeta> = Vec::new();
        core::mem::swap(&mut self.version.files, &mut replaced);
        self.version.files = files;
        self.version.manifest_version = manifest_version;
        let ghost new_files = self.version.files@;
        let ghost store = self.sst_layer.files@;
        proof {
            assert(new_files =~= seq![meta]);
            assert(new_files.drop_last() =~= Seq::<FileMeta>::empty());
            assert(file_entries(store, new_files) =~= in_files) by {
                reveal_with_fuel(file_entries, 2);
            }
            assert(self.entries() =~= before);
            let records = self.manifest.records@;
            assert(records.drop_last() =~= old_records);
            let actions = records.last().actions@;
            assert(actions.drop_last() =~= Seq::<RegionMetaAction>::empty());
            reveal_with_fuel(crate::storage::manifest::replay_list, 2);
            lemma_without_all_but(old_files, meta);
            assert(seq![meta] =~= new_files);
        }
        let ghost published = *self;
        let mut d: usize = 0;
        while d < replaced.len()
            invariant
                d <= replaced@.len(),
                replaced@ == old_files,
                self.version == published.version,
                self.manifest == published.manifest,
                self.wal == published.wal,
                self.name == published.name,
                self.committed_sequence == published.committed_sequence,
                self.flush_scheduler == published.flush_scheduler,
                self.flush_strategy == published.flush_strategy,
                self.version.files@ == new_files,
                new_files == seq![meta],
                !has_file(old_files, meta.file_name@),
                self.sst_layer.content(meta.file_name@) == Some(in_files),
                forall|i: int|
                    0 <= i < d ==> self.sst_layer.content((#[trigger] old_files[i]).file_name@)
                        is None,
            decreases replaced@.len() - d,
        {
            let ghost was = self.sst_layer;
            self.sst_layer.delete_sst(replaced[d].file_name.as_str());
            proof {
                assert(old_files[d as int].file_name@ != meta.file_name@);
                assert forall|i: int| 0 <= i < d + 1 implies self.sst_layer.content(
                    (#[trigger] old_files[i]).file_name@,
                ) is None by {
                    if i < d {
                        if old_files[i].file_name@ != old_files[d as int].file_name@ {
                            assert(self.sst_layer.content(old_files[i].file_name@) == was.content(
                                old_files[i].file_name@,
                            ));
                        }
                    }
                }
            }
            d += 1;
        }
        proof {
            assert(file_entries(self.sst_layer.files@, new_files) =~= in_files) by {
                reveal_with_fuel(file_entries, 2);
                assert(new_files.drop_last() =~= Seq::<FileMeta>::empty());
            }
            assert(self.entries() =~= before);
            assert forall|i: int| 0 <= i < new_files.len() implies self.sst_layer.content(
                (#[trigger] new_files[i]).file_name@,
            ) is Some by {
                assert(new_files[i] == meta);
            }
        }
        Ok(meta)
    }

    /// Puts the metadata `metadata` in force: records it in the manifest as a
    /// change at the committed sequence number of this moment, and makes it
    /// the metadata of the version. Fails, and changes nothing, exactly when
    /// the manifest is full. The mutations of the region stay as they are.
    pub fn alter(&mut self, metadata: RegionMetadata) -> (r: Result<()>)
        requires
            old(self).well_formed(),
        ensures
            final(self).well_formed(),
            final(self).entries() == old(self).entries(),
            final(self).committed_sequence == old(self).committed_sequence,
            final(self).wal == old(self).wal,
            final(self).sst_layer == old(self).sst_layer,
            final(self).flush_scheduler == old(self).flush_scheduler,
            final(self).flush_strategy == old(self).flush_strategy,
            final(self).version.files == old(self).version.files,
            final(self).version.flushed_sequence == old(self).version.flushed_sequence,
            match r {
                Ok(()) => {
                    &&& old(self).manifest.records@.len() < old(self).manifest.capacity
                    &&& *final(self).version.metadata == metadata
                    &&& final(self).name == metadata.name
                    &&& final(self).manifest.records@.len() == old(self).manifest.records@.len()
                        + 1
                    &&& final(self).manifest.records@.last().actions@.len() == 1
                    &&& final(self).manifest.records@.last().actions@[0] matches RegionMetaAction::Change(
                        change,
                    ) && *change.metadata == metadata && change.committed_sequence == old(
                        self,
                    ).committed_sequence
                },
                Err(e) => {
                    &&& old(self).manifest.records@.len() >= old(self).manifest.capacity
                    &&& e == Error::ManifestFull
                    &&& final(self).version == old(self).version
                    &&& final(self).manifest == old(self).manifest
                    &&& final(self).name == old(self).name
                },
            },
    {
        let ghost wanted = metadata;
        let metadata: RegionMetadataRef = Arc::new(metadata);
        let change = RegionMetaAction::Change(
            RegionChange { metadata: share(&metadata), committed_sequence: self.committed_sequence },
        );
        let ghost old_records = self.manifest.records@;
        let ghost before = replay_records(old_records);
        match self.manifest.update(RegionMetaActionList::with_action(change)) {
            Ok(_) => {},
            Err(e) => {
                return Err(e);
            },
        }
        proof {
            let records = self.manifest.records@;
            assert(records.drop_last() =~= old_records);
            let actions = records.last().actions@;
            assert(actions.drop_last() =~= Seq::<RegionMetaAction>::empty());
            reveal_with_fuel(crate::storage::manifest::replay_list, 2);
            if self.committed_sequence > before.flushed_sequence {
                crate::storage::manifest::lemma_final_metadata_insert(
                    before,
                    self.committed_sequence,
                    (records.len() - 1) as u64,
                    wanted,
                );
            } else {
                let after = replay_records(records);
                assert(after.changes.dom() =~= Set::<SequenceNumber>::empty());
            }
        }
        self.name = metadata.name.clone();
        self.version.metadata = metadata;
        Ok(())
    }

    /// A read handle on the current version. It sees every mutation that is
    /// committed now.
    pub fn snapshot<'a>(&'a self, ctx: &ReadContext) -> (r: Result<Snapshot<'a>>)
        ensures
            r is Ok,
            *r->Ok_0.version == self.version,
            *r->Ok_0.sst_layer == self.sst_layer,
            r->Ok_0.sequence == self.committed_sequence,
    {
        Ok(
            Snapshot {
                version: &self.version,
                sst_layer: &self.sst_layer,
                sequence: self.committed_sequence,
            },
        )
    }

    /// Whether the strategy asks for a flush of a memtable that holds
    /// `rows` mutations.
    pub open spec fn wants_flush_at(&self, rows: nat) -> bool {
        self.flush_strategy.wants_flush(
            if rows * crate::storage::memtable::ENTRY_BYTES <= usize::MAX {
                (rows * crate::storage::memtable::ENTRY_BYTES) as usize
            } else {
                usize::MAX
            },
        )
    }

    /// Whether the strategy asks for a flush of the memtable as it is now.
    pub fn should_flush(&self) -> (b: bool)
        ensures
            b == self.wants_flush_at(self.version.mutable@.len()),
    {
        self.flush_strategy.should_flush(self.version.mutable.bytes_allocated())
    }

    /// Freezes the memtable and schedules its flush: the memtable that took
    /// writes becomes the frozen one, and an empty one takes its place. This
    /// happens exactly when the memtable holds something and no flush is
    /// under way (and job numbers are left); otherwise nothing changes. What
    /// readers see stays the same.
    pub fn schedule_flush(&mut self) -> (job: Option<FlushJob>)
        requires
            old(self).well_formed(),
        ensures
            final(self).well_formed(),
            final(self).entries() == old(self).entries(),
            final(self).committed_sequence == old(self).committed_sequence,
            final(self).name == old(self).name,
            final(self).wal == old(self).wal,
            final(self).manifest == old(self).manifest,
            final(self).sst_layer == old(self).sst_layer,
            final(self).flush_strategy == old(self).flush_strategy,
            final(self).version.metadata == old(self).version.metadata,
            final(self).version.files == old(self).version.files,
            final(self).version.flushed_sequence == old(self).version.flushed_sequence,
            final(self).version.manifest_version == old(self).version.manifest_version,
            job is Some <==> old(self).version.mutable@.len() > 0
                && old(self).flush_scheduler.in_flight is None
                && old(self).flush_scheduler.scheduled < u64::MAX,
            match job {
                Some(j) => {
                    &&& j == (FlushJob {
                        id: old(self).flush_scheduler.scheduled,
                        sequence: old(self).committed_sequence,
                    })
                    &&& final(self).flush_scheduler.in_flight == Some(j)
                    &&& final(self).version.immutable is Some
                    &&& final(self).version.immutable->Some_0@ == old(self).version.mutable@
                    &&& final(self).version.immutable->Some_0.frozen
                    &&& final(self).version.mutable@.len() == 0
                },
                None => *final(self) == *old(self),
            },
    {
        if self.version.mutable.is_empty() {
            return None;
        }
        let job = match self.flush_scheduler.schedule(self.committed_sequence) {
            Some(job) => job,
            None => {
                return None;
            },
        };
        let ghost before = self.entries();
        let ghost was_mutable = self.version.mutable@;
        let mut frozen = self.memtable_builder.build();
        core::mem::swap(&mut self.version.mutable, &mut frozen);
        frozen.freeze();
        self.version.immutable = Some(frozen);
        proof {
            assert(frozen_entries(self.version.immutable) + self.version.mutable@ =~= was_mutable);
            assert(Seq::<Entry>::empty() + was_mutable =~= was_mutable);
            assert(self.entries() =~= before);
            let in_files = file_entries(self.sst_layer.files@, self.version.files@);
            assert(before.last() == was_mutable.last());
        }
        Some(job)
    }

    /// Carries out the flush that is under way: writes the frozen memtable as
    /// the new file `file_name`, records the edit in the manifest, and
    /// publishes the version with the file in place of the frozen memtable.
    /// A flush that fails leaves the version, with its frozen memtable, as it
    /// was, and can be tried again. What readers see stays the same either
    /// way.
    pub fn run_flush(&mut self, file_name: &str) -> (r: Result<FileMeta>)
        requires
            old(self).well_formed(),
        ensures
            final(self).well_formed(),
            final(self).entries() == old(self).entries(),
            final(self).committed_sequence == old(self).committed_sequence,
            final(self).name == old(self).name,
            final(self).wal == old(self).wal,
            final(self).flush_strategy == old(self).flush_strategy,
            final(self).version.metadata == old(self).version.metadata,
            final(self).version.mutable == old(self).version.mutable,
            match r {
                Ok(meta) => {
                    &&& old(self).flush_scheduler.in_flight is Some
                    &&& old(self).sst_layer.content(file_name@) is None
                    &&& old(self).manifest.records@.len() < old(self).manifest.capacity
                    &&& meta.file_name@ == file_name@
                    &&& meta.level == 0
                    &&& final(self).version.files@ == old(self).version.files@.push(meta)
                    &&& final(self).version.immutable is None
                    &&& final(self).version.flushed_sequence == old(self).flush_scheduler.in_flight->Some_0.sequence
                    &&& final(self).version.manifest_version == old(self).manifest.records@.len()
                    &&& final(self).sst_layer.content(file_name@) == Some(
                        old(self).version.immutable->Some_0@,
                    )
                    &&& final(self).manifest.records@.len() == old(self).manifest.records@.len() + 1
                    &&& final(self).manifest.records@.last().actions@.len() == 1
                    &&& final(self).manifest.records@.last().actions@[0] matches RegionMetaAction::Edit(
                        edit,
                    ) && edit.files_to_add@ == seq![meta] && edit.files_to_remove@.len() == 0
                        && edit.flushed_sequence == final(self).version.flushed_sequence
                    &&& final(self).flush_scheduler.in_flight is None
                },
                Err(e) => {
                    &&& final(self).version == old(self).version
                    &&& final(self).manifest == old(self).manifest
                    &&& final(self).flush_scheduler == old(self).flush_scheduler
                    &&& if old(self).flush_scheduler.in_flight is None {
                        e == Error::NothingToFlush && final(self).sst_layer == old(self).sst_layer
                    } else if old(self).sst_layer.content(file_name@) is Some {
                        e is FileExists && final(self).sst_layer == old(self).sst_layer
                    } else {
                        e == Error::ManifestFull && old(self).manifest.records@.len() >= old(self).manifest.capacity
                    }
                },
            },
    {
        let job = match self.flush_scheduler.in_flight {
            Some(job) => job,
            None => {
                return Err(Error::NothingToFlush);
            },
        };
        let ghost before = self.entries();
        let ghost old_store = self.sst_layer.files@;
        let ghost old_files = self.version.files@;
        let ghost old_records = self.manifest.records@;
        let ghost frozen = frozen_entries(self.version.immutable);
        let meta = match &self.version.immutable {
            Some(memtable) => {
                match self.sst_layer.write_sst(file_name, &memtable.entries) {
                    Ok(meta) => meta,
                    Err(e) => {
                        return Err(e);
                    },
                }
            },
            None => {
                return Err(Error::NothingToFlush);
            },
        };
        proof {
            assert forall|i: int| 0 <= i < old_files.len() implies content_of(
                self.sst_layer.files@,
                (#[trigger] old_files[i]).file_name@,
            ) == content_of(old_store, old_files[i].file_name@) by {
                assert(content_of(old_store, old_files[i].file_name@) is Some);
                assert(self.sst_layer.content(old_files[i].file_name@) == content_of(
                    old_store,
                    old_files[i].file_name@,
                ));
            }
            lemma_file_entries_stable(old_store, self.sst_layer.files@, old_files);
            assert(self.entries() =~= before);
        }
        let mut files_to_add: Vec<FileMeta> = Vec::new();
        files_to_add.push(meta.duplicate());
        let edit = RegionEdit {
            region_version: self.version.metadata.version,
            flushed_sequence: job.sequence,
            files_to_add,
            files_to_remove: Vec::new(),
        };
        let list = RegionMetaActionList::with_action(RegionMetaAction::Edit(edit));
        let manifest_version = match self.manifest.update(list) {
            Ok(v) => v,
            Err(e) => {
                return Err(e);
            },
        };
        self.version.files.push(meta.duplicate());
        self.version.immutable = None;
        self.version.flushed_sequence = job.sequence;
        self.version.manifest_version = manifest_version;
        self.flush_scheduler.finish();
        proof {
            let new_files = self.version.files@;
            let store = self.sst_layer.files@;
            assert(new_files.drop_last() =~= old_files);
            assert(new_files.last() == meta);
            assert(file_entries(store, new_files) =~= file_entries(store, old_files) + frozen);
            assert(frozen_entries(self.version.immutable) =~= Seq::<Entry>::empty());
            assert(self.entries() =~= before);
            let records = self.manifest.records@;
            assert(records.drop_last() =~= old_records);
            let actions = records.last().actions@;
            assert(actions.drop_last() =~= Seq::<RegionMetaAction>::empty());
            reveal_with_fuel(crate::storage::manifest::replay_list, 2);
            lemma_without_nothing(old_files + seq![meta]);
            assert(old_files + seq![meta] =~= old_files.push(meta));
            let in_files = file_entries(store, new_files);
            let old_in_files = file_entries(old_store, old_files);
            assert forall|i: int| 0 <= i < in_files.len() implies (#[trigger] in_files[i]).sequence
                <= job.sequence by {
                assert(frozen.last() == before[old_in_files.len() + frozen.len() - 1]);
                assert(before[i] == in_files[i]);
            }
            assert(in_files.last() == frozen.last());
            let in_memory = frozen_entries(self.version.immutable) + self.version.mutable@;
            assert(in_memory =~= self.version.mutable@);
            assert forall|i: int| 0 <= i < new_files.len() implies self.sst_layer.content(
                (#[trigger] new_files[i]).file_name@,
            ) is Some by {
                if i < old_files.len() {
                    assert(new_files[i] == old_files[i]);
                }
            }
        }
        Ok(meta)
    }

    /// Writes a batch, as [`RegionImpl::write`] does, and then asks the
    /// strategy: if it wants the memtable flushed, the memtable is frozen and
    /// its flush scheduled, as [`RegionImpl::schedule_flush`] does, and the
    /// job is handed back for the caller to carry out. A batch that is
    /// refused schedules nothing.
    pub fn write_and_schedule(&mut self, ctx: &WriteContext, batch: WriteBatch) -> (r: Result<
        (WriteResponse, Option<FlushJob>),
    >)
        requires
            old(self).well_formed(),
        ensures
            final(self).well_formed(),
            final(self).name == old(self).name,
            final(self).manifest == old(self).manifest,
            final(self).sst_layer == old(self).sst_layer,
            final(self).flush_strategy == old(self).flush_strategy,
            final(self).version.metadata == old(self).version.metadata,
            final(self).version.files == old(self).version.files,
            final(self).version.flushed_sequence == old(self).version.flushed_sequence,
            final(self).version.manifest_version == old(self).version.manifest_version,
            match old(self).write_error(batch) {
                Some(e) => {
                    &&& r is Err
                    &&& (e is WriteWal ==> r->Err_0 is WriteWal)
                    &&& (!(e is WriteWal) ==> r->Err_0 == e)
                    &&& final(self).entries() == old(self).entries()
                    &&& final(self).committed_sequence == old(self).committed_sequence
                    &&& final(self).version.mutable@ == old(self).version.mutable@
                    &&& final(self).version.immutable == old(self).version.immutable
                    &&& final(self).flush_scheduler == old(self).flush_scheduler
                },
                None => {
                    let written = entries_of(
                        batch.rows@,
                        (old(self).committed_sequence + 1) as u64,
                    );
                    let held = old(self).version.mutable@ + written;
                    &&& r matches Ok((response, job))
                    &&& response == (WriteResponse { affected_rows: batch.rows@.len() as usize })
                    &&& final(self).entries() == old(self).entries() + written
                    &&& final(self).committed_sequence == old(self).committed_sequence
                        + batch.rows@.len()
                    &&& job is Some <==> old(self).wants_flush_at(held.len()) && held.len() > 0
                        && old(self).flush_scheduler.in_flight is None
                        && old(self).flush_scheduler.scheduled < u64::MAX
                    &&& match job {
                        Some(j) => {
                            &&& j == (FlushJob {
                                id: old(self).flush_scheduler.scheduled,
                                sequence: final(self).committed_sequence,
                            })
                            &&& final(self).flush_scheduler.in_flight == Some(j)
                            &&& final(self).version.immutable is Some
                            &&& final(self).version.immutable->Some_0@ == held
                            &&& final(self).version.mutable@.len() == 0
                        },
                        None => {
                            &&& final(self).flush_scheduler == old(self).flush_scheduler
                            &&& final(self).version.immutable == old(self).version.immutable
                            &&& final(self).version.mutable@ == held
                        },
                    }
                },
            },
    {
        let response = match self.write(ctx, batch) {
            Ok(response) => response,
            Err(e) => {
                return Err(e);
            },
        };
        if self.should_flush() {
            let job = self.schedule_flush();
            Ok((response, job))
        } else {
            Ok((response, None))
        }
    }

    /// Whether there is something to flush: a flush is under way, or the
    /// memtable holds something and a job can be handed out.
    pub open spec fn can_flush(self) -> bool {
        self.flush_scheduler.in_flight is Some || (self.version.mutable@.len() > 0
            && self.flush_scheduler.scheduled < u64::MAX)
    }

    /// Flushes the memtable into the new file `file_name`, whatever the
    /// strategy says: schedules the flush unless one is under way, and
    /// carries out the one that is under way then. This succeeds exactly
    /// when there is something to flush, no file of that name exists and the
    /// manifest has room. A flush that fails on the file or on the manifest
    /// stays under way, with its frozen memtable, and can be tried again.
    pub fn flush(&mut self, file_name: &str) -> (r: Result<FileMeta>)
        requires
            old(self).well_formed(),
        ensures
            final(self).well_formed(),
            final(self).entries() == old(self).entries(),
            final(self).committed_sequence == old(self).committed_sequence,
            final(self).name == old(self).name,
            final(self).wal == old(self).wal,
            final(self).flush_strategy == old(self).flush_strategy,
            final(self).version.metadata == old(self).version.metadata,
            r is Ok <==> old(self).can_flush() && old(self).sst_layer.content(file_name@) is None
                && old(self).manifest.records@.len() < old(self).manifest.capacity,
            match r {
                Ok(meta) => {
                    &&& meta.file_name@ == file_name@
                    &&& meta.level == 0
                    &&& final(self).version.files@ == old(self).version.files@.push(meta)
                    &&& final(self).version.immutable is None
                    &&& final(self).flush_scheduler.in_flight is None
                    &&& final(self).version.manifest_version == old(self).manifest.records@.len()
                    &&& final(self).manifest.records@.len() == old(self).manifest.records@.len() + 1
                    &&& final(self).manifest.records@.last().actions@.len() == 1
                    &&& final(self).manifest.records@.last().actions@[0] matches RegionMetaAction::Edit(
                        edit,
                    ) && edit.files_to_add@ == seq![meta] && edit.files_to_remove@.len() == 0
                        && edit.flushed_sequence == final(self).version.flushed_sequence
                    &&& match old(self).flush_scheduler.in_flight {
                        Some(job) => {
                            &&& final(self).version.flushed_sequence == job.sequence
                            &&& final(self).version.mutable == old(self).version.mutable
                            &&& final(self).sst_layer.content(file_name@) == Some(
                                old(self).version.immutable->Some_0@,
                            )
                        },
                        None => {
                            &&& final(self).version.flushed_sequence == old(self).committed_sequence
                            &&& final(self).version.mutable@.len() == 0
                            &&& final(self).sst_layer.content(file_name@) == Some(
                                old(self).version.mutable@,
                            )
                        },
                    }
                },
                Err(e) => {
                    &&& final(self).version.files == old(self).version.files
                    &&& final(self).version.flushed_sequence == old(self).version.flushed_sequence
                    &&& final(self).version.manifest_version == old(self).version.manifest_version
                    &&& final(self).manifest == old(self).manifest
                    &&& final(self).sst_layer == old(self).sst_layer || e == Error::ManifestFull
                    &&& if !old(self).can_flush() {
                        e == Error::NothingToFlush && final(self).version == old(self).version
                            && final(self).flush_scheduler == old(self).flush_scheduler
                    } else {
                        &&& final(self).flush_scheduler.in_flight is Some
                        &&& if old(self).sst_layer.content(file_name@) is Some {
                            e is FileExists
                        } else {
                            e == Error::ManifestFull
                        }
                    }
                },
            },
    {
        let _ = self.schedule_flush();
        self.run_flush(file_name)
    }

    /// The metadata in force.
    pub fn in_memory_metadata(&self) -> (m: RegionMetadataRef)
        ensures
            m == self.version.metadata,
    {
        share(&self.version.metadata)
    }

    /// The highest sequence number that a write of this region was committed
    /// under; 0 before the first write.
    pub fn committed_sequence(&self) -> (s: SequenceNumber)
        ensures
            s == self.committed_sequence,
    {
        self.committed_sequence
    }

    /// The version of the last record of the manifest that the region's
    /// version has taken in.
    pub fn manifest_version(&self) -> (v: u64)
        ensures
            v == self.version.manifest_version,
    {
        self.version.manifest_version
    }
}

/// Recovery loses nothing: a region in order, on a log that keeps what it
/// gets, comes back from its stores with the same mutations, the same
/// committed sequence number and the same metadata, and in order again. So
/// every reader sees after the recovery what it saw before.
pub proof fn lemma_recovery_restores<S: LogStore>(before: RegionImpl<S>, after: RegionImpl<S>)
    requires
        before.well_formed(),
        before.wal.durable(),
        after.recovered_from(
            StoreConfig {
                log_store: before.wal,
                sst_layer: before.sst_layer,
                manifest: before.manifest,
                memtable_builder: before.memtable_builder,
                flush_scheduler: before.flush_scheduler,
                flush_strategy: before.flush_strategy,
            },
        ),
    ensures
        after.entries() == before.entries(),
        after.committed_sequence == before.committed_sequence,
        *after.version.metadata == *before.version.metadata,
        after.well_formed(),
{
    let in_files = file_entries(before.sst_layer.files@, before.version.files@);
    let in_memory = frozen_entries(before.version.immutable) + before.version.mutable@;
    let log = before.wal.log();
    assert(log =~= in_files + in_memory);
    assert forall|i: int| 0 <= i < in_files.len() implies (#[trigger] log[i]).sequence
        <= before.version.flushed_sequence by {
        assert(log[i] == in_files[i]);
    }
    assert forall|i: int| in_files.len() <= i < log.len() implies (#[trigger] log[i]).sequence
        > before.version.flushed_sequence by {
        assert(log[i] == in_memory[i - in_files.len()]);
    }
    lemma_entries_after_is_suffix(log, before.version.flushed_sequence, in_files.len() as int);
    assert(log.skip(in_files.len() as int) =~= in_memory);
    assert(frozen_entries(after.version.immutable) =~= Seq::<Entry>::empty());
    assert(after.entries() =~= before.entries());
    assert(frozen_entries(after.version.immutable) + after.version.mutable@ =~= in_memory);
    if in_memory.len() > 0 {
        assert(log.last() == in_memory.last());
    } else {
        assert(log =~= in_files);
    }
}

} // verus!
