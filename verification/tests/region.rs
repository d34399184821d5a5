use std::sync::Arc;

use greptime::datatypes::data_type::{ConcreteDataType, LogicalTypeId};
use greptime::datatypes::schema::{ColumnSchema, Schema};
use greptime::storage::error::{Error, WalError};
use greptime::storage::flush::{FlushJob, FlushSchedulerImpl, SizeBasedStrategy};
use greptime::storage::manifest::{
    RecoveredMetadataMap, RegionChange, RegionManifest, RegionMetaAction, RegionMetaActionList,
};
use greptime::storage::memtable::{Entry, OpType, TimeRange, ENTRY_BYTES};
use greptime::storage::metadata::{
    RegionDescBuilder, RegionMetadata, TIMESTAMP_NAME, VERSION_COLUMN_NAME,
};
use greptime::storage::region::{ReadContext, RegionImpl, StoreConfig, WriteContext};
use greptime::storage::snapshot::ScanRequest;
use greptime::storage::sst::{sequence_range, AccessLayer, FileInfo};
use greptime::datatypes::vectors::TimestampMillisecond;
use greptime::storage::test_util::{
    build_region_edit, build_region_meta, log_store_dir, new_metadata, new_put_data,
    new_store_config, new_write_batch_for_test, TesterBase,
};
use greptime::storage::write_batch::WriteBatch;
use greptime::storage::version::{DefaultMemtableBuilder, Version};
use greptime::storage::wal::{LogStore, MemoryLogStore, NoopLogStore};

fn new_tester(region_name: &str) -> TesterBase<MemoryLogStore> {
    let metadata = new_metadata(region_name, false);
    let region = RegionImpl::create(metadata, new_store_config()).unwrap();
    TesterBase::with_region(region)
}

fn column(name: &str, id: LogicalTypeId, nullable: bool, time_index: bool) -> ColumnSchema {
    ColumnSchema::new(
        name.to_string(),
        ConcreteDataType::from_logical_type_id(id),
        nullable,
    )
    .with_time_index(time_index)
}

#[test]
fn test_new_region() {
    let region_name = "region-0";
    let desc = RegionDescBuilder::new(region_name)
        .enable_version_column(true)
        .push_key_column(("k1", LogicalTypeId::Int32, false))
        .push_value_column(("v0", LogicalTypeId::Float32, true))
        .build();
    let metadata = RegionMetadata::try_from_descriptor(desc).unwrap();

    let store_config = new_store_config();
    let placeholder_memtable = store_config.memtable_builder.build();

    let region = RegionImpl::new(
        Version::new(Arc::new(metadata), placeholder_memtable),
        store_config,
    );

    let expect_schema = Schema::try_new(
        vec![
            column("k1", LogicalTypeId::Int32, false, false),
            column(TIMESTAMP_NAME, LogicalTypeId::TimestampMillisecond, false, true),
            column(VERSION_COLUMN_NAME, LogicalTypeId::UInt64, false, false),
            column("v0", LogicalTypeId::Float32, true, false),
        ],
        Some(1),
        0,
    )
    .unwrap();

    assert_eq!(region_name, region.name());
    assert_eq!(expect_schema, *region.in_memory_metadata().schema());
}

#[test]
fn test_recover_region_manifets() {
    let memtable_builder = DefaultMemtableBuilder::default();
    let mut manifest = RegionManifest::new();
    let region_meta = Arc::new(build_region_meta());

    // Recover from empty
    assert!(
        RegionImpl::<NoopLogStore>::recover_from_manifest(&manifest, &memtable_builder)
            .0
            .is_none()
    );

    {
        // save some actions into region_meta
        manifest
            .update(RegionMetaActionList::with_action(RegionMetaAction::Change(
                RegionChange {
                    metadata: region_meta.clone(),
                    committed_sequence: 40,
                },
            )))
            .unwrap();

        manifest
            .update(RegionMetaActionList::new(vec![
                RegionMetaAction::Edit(build_region_edit(1, &["f1"], &[])),
                RegionMetaAction::Edit(build_region_edit(2, &["f2", "f3"], &[])),
            ]))
            .unwrap();

        manifest
            .update(RegionMetaActionList::with_action(RegionMetaAction::Change(
                RegionChange {
                    metadata: region_meta.clone(),
                    committed_sequence: 42,
                },
            )))
            .unwrap();
    }

    // try to recover
    let (version, recovered_metadata) =
        RegionImpl::<NoopLogStore>::recover_from_manifest(&manifest, &memtable_builder);

    assert_eq!(42, recovered_metadata.first_key_value().unwrap().0);
    let version = version.unwrap();
    assert_eq!(*version.metadata(), region_meta);
    assert_eq!(version.flushed_sequence(), 2);
    assert_eq!(version.manifest_version(), 1);
    let ssts = version.ssts();
    let files = ssts.levels()[0].files();
    assert_eq!(3, files.len());
    for (i, file) in files.iter().enumerate() {
        assert_eq!(format!("f{}", i + 1), file.file_name());
    }

    // check manifest state
    assert_eq!(3, manifest.last_version());
}

#[test]
fn test_put_then_full_scan() {
    let mut tester = new_tester("region-a");
    let response = tester.put(&[(0, None), (1, Some(5))]).unwrap();
    assert_eq!(2, response.affected_rows);
    assert_eq!(2, tester.committed_sequence());
    assert_eq!(vec![(0, None), (1, Some(5))], tester.full_scan().unwrap());
}

#[test]
fn test_delete_hides_key() {
    let mut tester = new_tester("region-b");
    tester.put(&[(0, None), (1, Some(5))]).unwrap();
    let response = tester.delete(&[0]).unwrap();
    assert_eq!(1, response.affected_rows);
    assert_eq!(3, tester.committed_sequence());
    assert_eq!(vec![(1, Some(5))], tester.full_scan().unwrap());
}

#[test]
fn test_last_put_wins_and_rows_are_sorted() {
    let mut tester = new_tester("region-c");
    tester.put(&[(7, Some(1)), (3, Some(2)), (5, Some(3))]).unwrap();
    tester.put(&[(3, Some(20)), (9, None)]).unwrap();
    tester.delete(&[5, 100]).unwrap();
    tester.put(&[(5, Some(30))]).unwrap();
    tester.delete(&[9]).unwrap();
    assert_eq!(
        vec![(3, Some(20)), (5, Some(30)), (7, Some(1))],
        tester.full_scan().unwrap()
    );
}

#[test]
fn test_same_key_twice_in_one_batch() {
    let mut tester = new_tester("region-d");
    tester.put(&[(1, Some(1)), (1, Some(2))]).unwrap();
    assert_eq!(vec![(1, Some(2))], tester.full_scan().unwrap());
}

#[test]
fn test_sequence_ceiling_boundary() {
    let mut tester = new_tester("region-e");
    tester.put(&[(1, Some(10))]).unwrap(); // sequence 1
    tester.put(&[(1, Some(11)), (2, Some(20))]).unwrap(); // sequences 2, 3
    tester.delete(&[2]).unwrap(); // sequence 4

    let scan = |tester: &TesterBase<MemoryLogStore>, sequence: u64| {
        let snapshot = tester.region.snapshot(&ReadContext::default()).unwrap();
        let request = ScanRequest {
            sequence: Some(sequence),
            projection: None,
            time_range: None,
        };
        snapshot
            .scan(&ReadContext::default(), request)
            .unwrap()
            .reader
            .rows
    };
    assert_eq!(Vec::<(i64, Option<i64>)>::new(), scan(&tester, 0));
    assert_eq!(vec![(1, Some(10))], scan(&tester, 1));
    assert_eq!(vec![(1, Some(11))], scan(&tester, 2));
    assert_eq!(vec![(1, Some(11)), (2, Some(20))], scan(&tester, 3));
    assert_eq!(vec![(1, Some(11))], scan(&tester, 4));
    // A ceiling beyond the snapshot reads up to the snapshot.
    assert_eq!(vec![(1, Some(11))], scan(&tester, 400));
}

#[test]
fn test_scan_projection() {
    let mut tester = new_tester("region-f");
    tester.put(&[(1, Some(10)), (2, None)]).unwrap();
    let snapshot = tester.region.snapshot(&ReadContext::default()).unwrap();
    let request = ScanRequest {
        sequence: None,
        projection: Some(vec![1]),
        time_range: None,
    };
    let mut reader = snapshot.scan(&ReadContext::default(), request).unwrap().reader;
    let chunk = reader.next_chunk().unwrap().unwrap();
    assert_eq!(1, chunk.columns.len());
    assert_eq!(2, chunk.columns[0].len());
    assert_eq!(ConcreteDataType::int64_datatype(), chunk.columns[0].data_type());
    assert!(reader.next_chunk().unwrap().is_none());

    let request = ScanRequest {
        sequence: None,
        projection: Some(vec![0, 2]),
        time_range: None,
    };
    let err = snapshot.scan(&ReadContext::default(), request).unwrap_err();
    assert_eq!(Error::InvalidProjection { index: 2 }, err);
}

#[test]
fn test_scan_time_range() {
    let mut tester = new_tester("region-r");
    tester
        .put(&[(1, Some(1)), (2, Some(2)), (3, None), (4, Some(4)), (5, Some(5))])
        .unwrap();
    tester.delete(&[4]).unwrap();
    let scan = |start: i64, end: i64| {
        let snapshot = tester.region.snapshot(&ReadContext::default()).unwrap();
        let request = ScanRequest {
            sequence: None,
            projection: None,
            time_range: Some(TimeRange { start, end }),
        };
        snapshot
            .scan(&ReadContext::default(), request)
            .unwrap()
            .reader
            .rows
    };
    // The start belongs to the range, the end does not.
    assert_eq!(vec![(2, Some(2)), (3, None)], scan(2, 4));
    assert_eq!(vec![(2, Some(2)), (3, None)], scan(2, 5));
    assert_eq!(vec![(5, Some(5))], scan(4, i64::MAX));
    assert!(scan(3, 3).is_empty());
    assert!(scan(6, 2).is_empty());
    assert_eq!(5 - 1, scan(i64::MIN, i64::MAX).len());
    assert_eq!(
        vec![(2, Some(2))],
        tester
            .region
            .version
            .mutable
            .scan_range(2, Some(TimeRange { start: 2, end: 9 }))
    );
}

#[test]
fn test_scan_in_chunks() {
    let mut tester = new_tester("region-s");
    let data: Vec<(i64, Option<i64>)> = (0..2500).rev().map(|i| (i, Some(i * 2))).collect();
    tester.put(&data).unwrap();
    let snapshot = tester.region.snapshot(&ReadContext::default()).unwrap();
    let mut reader = snapshot
        .scan(&ReadContext::default(), ScanRequest::default())
        .unwrap()
        .reader;
    assert_eq!(tester.region.in_memory_metadata().schema(), reader.schema());
    let mut sizes = Vec::new();
    let mut first_keys = Vec::new();
    while let Some(chunk) = reader.next_chunk().unwrap() {
        assert_eq!(2, chunk.columns.len());
        sizes.push(chunk.columns[0].len());
        assert_eq!(chunk.columns[0].len(), chunk.columns[1].len());
        first_keys.push(chunk.columns[0].get(0));
    }
    assert_eq!(vec![1024, 1024, 452], sizes);
    assert_eq!(
        vec![0, 1024, 2048],
        first_keys
            .into_iter()
            .map(|v| match v {
                greptime::datatypes::value::Value::Timestamp(t) => t.value(),
                other => panic!("{other:?}"),
            })
            .collect::<Vec<_>>()
    );
    assert!(reader.next_chunk().unwrap().is_none());
    let rows = tester.full_scan().unwrap();
    assert_eq!(2500, rows.len());
    assert_eq!((0, Some(0)), rows[0]);
    assert_eq!((2499, Some(4998)), rows[2499]);
}

#[test]
fn test_flush_after_threshold() {
    let metadata = new_metadata("region-g", false);
    let mut config = new_store_config();
    config.flush_strategy = SizeBasedStrategy::new(2 * ENTRY_BYTES);
    let region = RegionImpl::create(metadata, config).unwrap();
    let mut tester = TesterBase::with_region(region);

    tester.put(&[(1, Some(1)), (2, Some(2))]).unwrap();
    assert!(!tester.region.should_flush());
    tester.put(&[(3, Some(3))]).unwrap();
    assert!(tester.region.should_flush());

    let records_before = tester.region.manifest.last_version();
    let meta = tester.region.flush("0001.sst").unwrap();
    assert_eq!("0001.sst", meta.file_name());
    assert_eq!(0, meta.level());

    let version = &tester.region.version;
    assert!(version.mutable.is_empty());
    assert!(version.immutable.is_none());
    assert_eq!(1, version.ssts().levels()[0].files().len());
    assert_eq!(0, version.ssts().levels()[1].files().len());
    assert_eq!(3, version.flushed_sequence());
    assert_eq!(records_before + 1, tester.region.manifest.last_version());
    assert_eq!(1, tester.region.sst_layer.files.len());
    assert!(!tester.region.should_flush());

    // Readers see what they saw before the flush, and writes go on.
    assert_eq!(
        vec![(1, Some(1)), (2, Some(2)), (3, Some(3))],
        tester.full_scan().unwrap()
    );
    tester.delete(&[2]).unwrap();
    tester.put(&[(4, None)]).unwrap();
    assert_eq!(
        vec![(1, Some(1)), (3, Some(3)), (4, None)],
        tester.full_scan().unwrap()
    );
}

fn put_batch(rows: &[(i64, Option<i64>)]) -> WriteBatch {
    let data: Vec<(TimestampMillisecond, Option<i64>)> = rows
        .iter()
        .map(|(t, v)| (TimestampMillisecond(*t), *v))
        .collect();
    let mut batch = new_write_batch_for_test(false);
    batch.put(new_put_data(&data)).unwrap();
    batch
}

#[test]
fn test_write_schedules_the_flush() {
    let metadata = new_metadata("region-w", false);
    let mut config = new_store_config();
    config.flush_strategy = SizeBasedStrategy::new(2 * ENTRY_BYTES);
    let mut region = RegionImpl::create(metadata, config).unwrap();
    let ctx = WriteContext {};

    // Below the threshold nothing is scheduled.
    let (response, job) = region
        .write_and_schedule(&ctx, put_batch(&[(1, Some(1)), (2, Some(2))]))
        .unwrap();
    assert_eq!(2, response.affected_rows);
    assert_eq!(None, job);
    assert!(region.version.immutable.is_none());

    // The write that crosses it freezes the memtable and hands out the job.
    let (response, job) = region
        .write_and_schedule(&ctx, put_batch(&[(3, Some(3))]))
        .unwrap();
    assert_eq!(1, response.affected_rows);
    assert_eq!(Some(FlushJob { id: 0, sequence: 3 }), job);
    assert!(region.version.mutable.is_empty());
    assert_eq!(3, region.version.immutable.as_ref().unwrap().len());

    // While that flush is under way, no second one is scheduled.
    let (_, job) = region
        .write_and_schedule(
            &ctx,
            put_batch(&[(4, Some(4)), (5, Some(5)), (6, Some(6))]),
        )
        .unwrap();
    assert_eq!(None, job);
    assert!(region.should_flush());

    // Carrying out the job gives one file and one record of the manifest.
    let records = region.manifest.last_version();
    let meta = region.run_flush("0001.sst").unwrap();
    assert_eq!(0, meta.level());
    assert_eq!(records + 1, region.manifest.last_version());
    assert_eq!(1, region.version.ssts().levels()[0].files().len());
    assert_eq!(3, region.version.flushed_sequence());
    assert_eq!(3, region.version.mutable.len());

    // A batch that is refused schedules nothing.
    let versioned = {
        let mut batch = new_write_batch_for_test(true);
        let _ = batch.put(new_put_data(&[(TimestampMillisecond(9), None)]));
        batch
    };
    assert!(region.write_and_schedule(&ctx, versioned).is_err());
    assert_eq!(6, region.committed_sequence());
}

#[test]
fn test_file_info() {
    let entry = |key: i64, sequence: u64| Entry {
        key,
        sequence,
        op: OpType::Put,
        value: Some(key),
    };
    let mut layer = AccessLayer::new();
    assert_eq!(None, layer.file_info("a.sst"));
    layer
        .write_sst("a.sst", &vec![entry(3, 7), entry(1, 5), entry(2, 9), entry(1, 6)])
        .unwrap();
    layer.write_sst("empty.sst", &vec![]).unwrap();
    assert_eq!(
        Some(FileInfo {
            file_name: "a.sst".to_string(),
            rows: 4,
            min_sequence: Some(5),
            max_sequence: Some(9),
        }),
        layer.file_info("a.sst")
    );
    assert_eq!(
        Some(FileInfo {
            file_name: "empty.sst".to_string(),
            rows: 0,
            min_sequence: None,
            max_sequence: None,
        }),
        layer.file_info("empty.sst")
    );
    assert_eq!((Some(4), Some(4)), sequence_range(&vec![entry(0, 4)]));

    // The file of a flush holds the sequence numbers of the writes before it.
    let mut tester = new_tester("region-info");
    tester.put(&[(1, Some(1)), (2, Some(2))]).unwrap();
    tester.delete(&[1]).unwrap();
    tester.region.flush("0001.sst").unwrap();
    let info = tester.region.sst_layer.file_info("0001.sst").unwrap();
    assert_eq!(3, info.rows);
    assert_eq!(Some(1), info.min_sequence);
    assert_eq!(Some(3), info.max_sequence);
}

#[test]
fn test_failed_flush_keeps_frozen_memtable() {
    let mut tester = new_tester("region-h");
    assert_eq!(Error::NothingToFlush, tester.region.flush("a.sst").unwrap_err());

    tester.put(&[(1, Some(1))]).unwrap();
    tester.region.flush("a.sst").unwrap();
    tester.put(&[(2, Some(2))]).unwrap();
    // The name is taken: the flush fails and can be tried again.
    let err = tester.region.flush("a.sst").unwrap_err();
    assert_eq!(
        Error::FileExists {
            file_name: "a.sst".to_string()
        },
        err
    );
    assert!(tester.region.version.immutable.is_some());
    assert_eq!(1, tester.region.version.files.len());
    assert_eq!(vec![(1, Some(1)), (2, Some(2))], tester.full_scan().unwrap());
    // While the flush is under way, another one is not scheduled.
    assert!(tester.region.schedule_flush().is_none());
    tester.put(&[(3, Some(3))]).unwrap();

    tester.region.run_flush("b.sst").unwrap();
    assert!(tester.region.version.immutable.is_none());
    assert_eq!(2, tester.region.version.files.len());
    assert_eq!(2, tester.region.version.flushed_sequence());
    assert_eq!(
        vec![(1, Some(1)), (2, Some(2)), (3, Some(3))],
        tester.full_scan().unwrap()
    );
}

#[test]
fn test_manifest_full_fails_flush() {
    let metadata = new_metadata("region-i", false);
    let mut config = new_store_config();
    config.manifest = RegionManifest::with_capacity(1);
    let region = RegionImpl::create(metadata, config).unwrap();
    let mut tester = TesterBase::with_region(region);
    tester.put(&[(1, Some(1))]).unwrap();
    assert_eq!(Error::ManifestFull, tester.region.flush("a.sst").unwrap_err());
    assert!(tester.region.version.immutable.is_some());
    assert!(tester.region.version.files.is_empty());
    assert_eq!(vec![(1, Some(1))], tester.full_scan().unwrap());

    let mut config = new_store_config();
    config.manifest = RegionManifest::with_capacity(0);
    let created = RegionImpl::create(new_metadata("region-j", false), config);
    assert_eq!(Error::ManifestFull, created.err().unwrap());
}

#[test]
fn test_wal_failure_applies_nothing() {
    let metadata = new_metadata("region-k", false);
    let mut config = new_store_config();
    config.log_store = MemoryLogStore::with_capacity(2);
    let region = RegionImpl::create(metadata, config).unwrap();
    let mut tester = TesterBase::with_region(region);
    tester.put(&[(1, Some(1))]).unwrap();
    let err = tester.put(&[(2, Some(2)), (3, Some(3))]).unwrap_err();
    assert_eq!(
        Error::WriteWal {
            source: WalError::Full
        },
        err
    );
    assert_eq!(1, tester.committed_sequence());
    assert_eq!(vec![(1, Some(1))], tester.full_scan().unwrap());
    tester.put(&[(2, Some(2))]).unwrap();
    assert_eq!(2, tester.committed_sequence());
}

#[test]
fn test_write_rejects_other_schema() {
    let metadata = new_metadata("region-l", true);
    let region = RegionImpl::create(metadata, new_store_config()).unwrap();
    let mut tester = TesterBase::with_region(region);
    let err = tester.put(&[(1, Some(1))]).unwrap_err();
    assert_eq!(
        Error::InvalidInputSchema {
            region: "region-l".to_string()
        },
        err
    );
    assert_eq!(0, tester.committed_sequence());
    assert_eq!(Error::UnsupportedLayout, tester.full_scan().unwrap_err());
}

#[test]
fn test_recovery_restores_everything() {
    let mut tester = new_tester("region-m");
    tester.put(&[(1, Some(1)), (2, Some(2))]).unwrap();
    tester.region.flush("a.sst").unwrap();
    tester.delete(&[1]).unwrap();
    tester.put(&[(3, None)]).unwrap();
    tester.region.schedule_flush().unwrap();
    tester.put(&[(2, Some(22))]).unwrap();
    let before = tester.full_scan().unwrap();
    assert_eq!(vec![(2, Some(22)), (3, None)], before);
    let committed = tester.committed_sequence();

    let region = tester.region;
    let config = StoreConfig {
        log_store: region.wal,
        sst_layer: region.sst_layer,
        manifest: region.manifest,
        memtable_builder: DefaultMemtableBuilder::default(),
        flush_scheduler: FlushSchedulerImpl::new(),
        flush_strategy: region.flush_strategy,
    };
    let recovered = RegionImpl::open(config).unwrap().unwrap();
    assert_eq!("region-m", recovered.name());
    assert_eq!(committed, recovered.committed_sequence());
    assert_eq!(2, recovered.version.flushed_sequence());
    assert_eq!(3, recovered.version.mutable.len());
    let tester = TesterBase::with_region(recovered);
    assert_eq!(before, tester.full_scan().unwrap());
}

fn reopen(tester: TesterBase<MemoryLogStore>) -> TesterBase<MemoryLogStore> {
    let region = tester.region;
    let config = StoreConfig {
        log_store: region.wal,
        sst_layer: region.sst_layer,
        manifest: region.manifest,
        memtable_builder: DefaultMemtableBuilder::default(),
        flush_scheduler: FlushSchedulerImpl::new(),
        flush_strategy: region.flush_strategy,
    };
    TesterBase::with_region(RegionImpl::open(config).unwrap().unwrap())
}

#[test]
fn test_compact() {
    let mut tester = new_tester("region-t");
    assert_eq!(
        Error::NothingToCompact,
        tester.region.compact("c.sst").unwrap_err()
    );
    tester.put(&[(1, Some(1)), (2, Some(2))]).unwrap();
    tester.region.flush("a.sst").unwrap();
    tester.delete(&[1]).unwrap();
    tester.put(&[(3, Some(3))]).unwrap();
    tester.region.flush("b.sst").unwrap();
    tester.put(&[(2, Some(22))]).unwrap();
    let before = tester.full_scan().unwrap();
    assert_eq!(vec![(2, Some(22)), (3, Some(3))], before);

    // A name that is taken fails the compaction and changes nothing.
    assert!(matches!(
        tester.region.compact("a.sst").unwrap_err(),
        Error::FileExists { .. }
    ));
    assert_eq!(2, tester.region.version.files.len());

    let meta = tester.region.compact("c.sst").unwrap();
    assert_eq!(("c.sst", 1), (meta.file_name(), meta.level()));
    assert_eq!(vec![meta], tester.region.version.files);
    let levels = tester.region.version.ssts();
    assert!(levels.levels()[0].files().is_empty());
    assert_eq!(1, levels.levels()[1].files().len());
    // The files that were compacted are gone from the storage.
    assert_eq!(1, tester.region.sst_layer.files.len());
    assert!(tester.region.sst_layer.read_sst("a.sst").is_none());
    assert_eq!(4, tester.region.sst_layer.read_sst("c.sst").unwrap().len());
    assert_eq!(before, tester.full_scan().unwrap());
    assert_eq!(4, tester.region.version.flushed_sequence());

    // Flushing and recovering go on as before.
    tester.region.flush("d.sst").unwrap();
    assert_eq!(2, tester.region.version.files.len());
    let tester = reopen(tester);
    assert_eq!(2, tester.region.version.files.len());
    assert_eq!("c.sst", tester.region.version.files[0].file_name());
    assert_eq!(before, tester.full_scan().unwrap());
}

#[test]
fn test_alter() {
    let mut tester = new_tester("region-u");
    tester.put(&[(1, Some(1))]).unwrap();
    tester.region.flush("a.sst").unwrap();
    // In force at once: nothing was committed since the flush.
    let mut second = new_metadata("region-u", false);
    second.version = 1;
    tester.region.alter(second.clone()).unwrap();
    assert_eq!(second, *tester.region.in_memory_metadata());
    tester.put(&[(2, Some(2))]).unwrap();
    // Pending until the next flush: a write was committed since.
    let mut third = new_metadata("region-u", false);
    third.version = 2;
    tester.region.alter(third.clone()).unwrap();
    assert_eq!(third, *tester.region.in_memory_metadata());
    assert_eq!(4, tester.region.manifest.last_version());
    let rows = tester.full_scan().unwrap();

    let (version, pending) = RegionImpl::<MemoryLogStore>::recover_from_manifest(
        &tester.region.manifest,
        &DefaultMemtableBuilder::default(),
    );
    assert_eq!(second, **version.unwrap().metadata());
    let (sequence, (manifest_version, metadata)) = pending.first_key_value().unwrap();
    assert_eq!((2, 3, &third), (sequence, manifest_version, &*metadata));

    let tester = reopen(tester);
    assert_eq!(third, *tester.region.in_memory_metadata());
    assert_eq!(rows, tester.full_scan().unwrap());

    // A region with a version column takes no rows of two columns.
    let mut tester = tester;
    tester.region.alter(new_metadata("region-u", true)).unwrap();
    assert!(matches!(
        tester.put(&[(3, Some(3))]).unwrap_err(),
        Error::InvalidInputSchema { .. }
    ));

    let mut config = new_store_config();
    config.manifest = RegionManifest::with_capacity(1);
    let mut region = RegionImpl::create(new_metadata("full", false), config).unwrap();
    assert_eq!(
        Error::ManifestFull,
        region.alter(new_metadata("full", true)).unwrap_err()
    );
    assert!(!region.in_memory_metadata().enable_version_column);
}

#[test]
fn test_replay_inner() {
    let mut tester = new_tester("region-p");
    tester.put(&[(1, Some(1)), (2, Some(2))]).unwrap();
    tester.region.flush("a.sst").unwrap();
    tester.put(&[(3, Some(3))]).unwrap();
    tester.delete(&[1]).unwrap();
    let before = tester.full_scan().unwrap();

    // Replaying rebuilds the memtable from the log above the flush point.
    tester.replay_inner(RecoveredMetadataMap::new());
    assert_eq!(2, tester.region.version.mutable.len());
    assert_eq!(4, tester.committed_sequence());
    assert_eq!(before, tester.full_scan().unwrap());
    tester.replay_inner(RecoveredMetadataMap::new());
    assert_eq!(before, tester.full_scan().unwrap());

    // The greatest recovered change gives the metadata.
    let mut recovered = RecoveredMetadataMap::new();
    assert!(recovered.is_empty());
    assert!(recovered.first_key_value().is_none());
    recovered.insert(9, 4, Arc::new(new_metadata("late", false)));
    recovered.insert(7, 3, Arc::new(new_metadata("early", false)));
    recovered.insert(9, 5, Arc::new(new_metadata("latest", false)));
    assert_eq!(7, recovered.first_key_value().unwrap().0);
    let (key, (version, metadata)) = recovered.last_key_value().unwrap();
    assert_eq!((9, 5, "latest"), (key, version, metadata.name()));
    tester.replay_inner(recovered);
    assert_eq!("latest", tester.region.name());
    assert_eq!(before, tester.full_scan().unwrap());
}

#[test]
fn test_open_without_region_or_file() {
    let opened = RegionImpl::<MemoryLogStore>::open(new_store_config()).unwrap();
    assert!(opened.is_none());

    let mut tester = new_tester("region-n");
    tester.put(&[(1, Some(1))]).unwrap();
    tester.region.flush("a.sst").unwrap();
    let region = tester.region;
    let config = StoreConfig {
        log_store: region.wal,
        sst_layer: AccessLayer::new(),
        manifest: region.manifest,
        memtable_builder: DefaultMemtableBuilder::default(),
        flush_scheduler: FlushSchedulerImpl::new(),
        flush_strategy: region.flush_strategy,
    };
    let err = RegionImpl::open(config).err().unwrap();
    assert_eq!(
        Error::FileNotFound {
            file_name: "a.sst".to_string()
        },
        err
    );
}

#[test]
fn test_replay_twice_gives_same_content() {
    let mut log = MemoryLogStore::new();
    let batch: Vec<Entry> = (1..=6u64)
        .map(|s| Entry {
            key: (s % 3) as i64,
            sequence: s,
            op: if s == 5 { OpType::Delete } else { OpType::Put },
            value: Some(s as i64),
        })
        .collect();
    log.append(&batch).unwrap();
    let first = log.replay(2);
    let second = log.replay(2);
    assert_eq!(first, second);
    assert_eq!(4, first.len());
    assert_eq!(3, first[0].sequence);

    let mut a = DefaultMemtableBuilder::default().build();
    let mut b = DefaultMemtableBuilder::default().build();
    a.write(&first).unwrap();
    b.write(&second).unwrap();
    assert_eq!(a.scan(u64::MAX), b.scan(u64::MAX));
    assert_eq!(vec![(0, Some(6)), (1, Some(4))], a.scan(u64::MAX));

    let mut noop = NoopLogStore;
    noop.append(&batch).unwrap();
    assert!(noop.replay(0).is_empty());
}

#[test]
fn test_log_store_dir() {
    assert_eq!("/tmp/store/logstore", log_store_dir("/tmp/store"));
}
