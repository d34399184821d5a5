use greptime::storage::error::{Error, WalError};
use greptime::storage::flush::{FlushSchedulerImpl, SizeBasedStrategy};
use greptime::storage::manifest::RegionManifest;
use greptime::storage::memtable::{Entry, OpType};
use greptime::storage::region::{RegionImpl, StoreConfig};
use greptime::storage::sst::AccessLayer;
use greptime::storage::test_util::{new_metadata, TesterBase};
use greptime::storage::version::DefaultMemtableBuilder;
use greptime::storage::wal::LogStore;
use greptime::storage::wal_format::{
    decode_log, decode_records, encode_entries, encode_record, BufferLogStore,
    ENTRY_RECORD_BYTES, HEAD_BYTES, ROW_BYTES,
};
use greptime::storage::manifest_format::{
    decode_frames, decode_frames_checked, encode_frame, FRAME_HEAD_BYTES,
};
use greptime::storage::write_batch::RowOp;

fn put(key: i64, value: Option<i64>) -> RowOp {
    RowOp {
        op: OpType::Put,
        key,
        value,
    }
}

fn delete(key: i64) -> RowOp {
    RowOp {
        op: OpType::Delete,
        key,
        value: None,
    }
}

fn entry(sequence: u64, row: RowOp) -> Entry {
    Entry {
        key: row.key,
        sequence,
        op: row.op,
        value: row.value,
    }
}

#[test]
fn test_record_bytes() {
    let bytes = encode_record(0x0102, &vec![put(-2, Some(3)), delete(1)]);
    assert_eq!(HEAD_BYTES + 2 * ROW_BYTES, bytes.len());
    let expected: Vec<u8> = [
        vec![2, 0, 0, 0],
        vec![2, 1, 0, 0, 0, 0, 0, 0],
        vec![0],
        vec![0xfe, 0xff, 0xff, 0xff, 0xff, 0xff, 0xff, 0xff],
        vec![1],
        vec![3, 0, 0, 0, 0, 0, 0, 0],
        vec![1],
        vec![1, 0, 0, 0, 0, 0, 0, 0],
        vec![0],
        vec![0; 8],
    ]
    .concat();
    assert_eq!(expected, bytes);
    assert_eq!(vec![0u8; 4], encode_record(0, &vec![])[..4].to_vec());
}

#[test]
fn test_log_round_trip() {
    let batches = vec![
        (1u64, vec![put(5, Some(50)), put(i64::MIN, None)]),
        (3, vec![]),
        (3, vec![delete(5)]),
        (u64::MAX, vec![put(i64::MAX, Some(i64::MIN))]),
    ];
    let mut bytes = Vec::new();
    let mut entries = Vec::new();
    for (first, rows) in &batches {
        bytes.extend(encode_record(*first, rows));
        for (i, row) in rows.iter().enumerate() {
            entries.push(entry(first + i as u64, *row));
        }
    }
    assert_eq!(entries, decode_log(&bytes));
    assert_eq!((entries.clone(), bytes.len()), decode_records(&bytes));
    assert!(decode_log(&[]).is_empty());
}

#[test]
fn test_torn_tail_ends_log() {
    let first = encode_record(1, &vec![put(1, Some(1)), put(2, Some(2))]);
    let second = encode_record(3, &vec![delete(1), put(3, None)]);
    let whole = vec![
        entry(1, put(1, Some(1))),
        entry(2, put(2, Some(2))),
        entry(3, delete(1)),
        entry(4, put(3, None)),
    ];
    let mut bytes = first.clone();
    bytes.extend(&second);
    assert_eq!(whole, decode_log(&bytes));
    // However much of the second record is missing, the first one is read.
    for kept in 0..second.len() {
        let mut torn = first.clone();
        torn.extend(&second[..kept]);
        assert_eq!(
            (whole[..2].to_vec(), first.len()),
            decode_records(&torn),
            "kept {kept}"
        );
    }
}

#[test]
fn test_malformed_record_ends_log() {
    let first = encode_record(1, &vec![put(1, Some(1))]);
    let second = encode_record(2, &vec![put(2, Some(2)), put(3, Some(3))]);
    let third = encode_record(4, &vec![put(4, Some(4))]);
    let good = vec![entry(1, put(1, Some(1)))];
    let log = |second: &Vec<u8>| [first.clone(), second.clone(), third.clone()].concat();
    assert_eq!(4, decode_log(&log(&second)).len());

    // An operation that is none.
    let mut bad = second.clone();
    bad[HEAD_BYTES] = 2;
    assert_eq!(good, decode_log(&log(&bad)));
    // A marker of the value that is none, in the second row.
    let mut bad = second.clone();
    bad[HEAD_BYTES + ROW_BYTES + 9] = 7;
    assert_eq!(good, decode_log(&log(&bad)));
    // More rows than there are bytes.
    let mut bad = second.clone();
    bad[0] = 200;
    assert_eq!(good, decode_log(&log(&bad)));
    // Sequence numbers that do not fit.
    let bad = encode_record(u64::MAX, &vec![put(2, Some(2)), put(3, Some(3))]);
    assert_eq!(good, decode_log(&log(&bad)));
    // A value without the marker is read as no value.
    let mut odd = second.clone();
    odd[HEAD_BYTES + 9] = 0;
    assert_eq!(Some(&entry(2, put(2, None))), decode_log(&log(&odd)).get(1));
}

#[test]
fn test_buffer_log_store() {
    let mut store = BufferLogStore::new();
    let batch = vec![entry(1, put(1, Some(1))), entry(2, delete(1))];
    store.append(&batch).unwrap();
    store.append(&vec![]).unwrap();
    store.append(&vec![entry(3, put(9, None))]).unwrap();
    assert_eq!(3 * ENTRY_RECORD_BYTES, store.bytes().len());
    assert_eq!(
        vec![entry(2, delete(1)), entry(3, put(9, None))],
        store.replay(1)
    );
    assert_eq!(3, store.replay(0).len());
    assert!(store.replay(3).is_empty());
    assert_eq!(
        encode_entries(&batch),
        store.bytes()[..2 * ENTRY_RECORD_BYTES].to_vec()
    );

    // A log with room for two records.
    let mut small = BufferLogStore::open(vec![], 2 * ENTRY_RECORD_BYTES + 5);
    assert_eq!(
        Err(WalError::Full),
        small.append(&vec![batch[0], batch[1], batch[0]])
    );
    assert!(small.bytes().is_empty());
    small.append(&batch).unwrap();
    assert_eq!(Err(WalError::Full), small.append(&vec![batch[0]]));
    assert_eq!(batch, small.replay(0));

    // Opening drops a torn tail, and appending goes on behind the last
    // complete record.
    let mut bytes = store.bytes().clone();
    let complete = bytes.len();
    bytes.extend(&encode_entries(&batch)[..17]);
    let mut reopened = BufferLogStore::open(bytes.clone(), usize::MAX);
    assert_eq!(store.bytes(), reopened.bytes());
    reopened.append(&vec![entry(4, put(4, Some(4)))]).unwrap();
    assert_eq!(4, reopened.replay(0).len());

    // Damage behind the checkpoint is dropped, damage before it is fatal.
    assert!(BufferLogStore::open_checked(bytes.clone(), usize::MAX, complete).is_ok());
    assert_eq!(
        Error::CorruptedLog {
            valid: complete,
            checkpoint: complete + 1
        },
        BufferLogStore::open_checked(bytes.clone(), usize::MAX, complete + 1).unwrap_err()
    );
    bytes[ENTRY_RECORD_BYTES + HEAD_BYTES] = 9;
    assert_eq!(
        Error::CorruptedLog {
            valid: ENTRY_RECORD_BYTES,
            checkpoint: complete
        },
        BufferLogStore::open_checked(bytes, usize::MAX, complete).unwrap_err()
    );
}

#[test]
fn test_region_recovers_from_torn_log() {
    let config = StoreConfig {
        log_store: BufferLogStore::new(),
        sst_layer: AccessLayer::new(),
        manifest: RegionManifest::new(),
        memtable_builder: DefaultMemtableBuilder::default(),
        flush_scheduler: FlushSchedulerImpl::new(),
        flush_strategy: SizeBasedStrategy::default(),
    };
    let region = RegionImpl::create(new_metadata("torn", false), config).unwrap();
    let mut tester = TesterBase::with_region(region);
    tester.put(&[(1, Some(1)), (2, Some(2))]).unwrap();
    tester.region.flush("a.sst").unwrap();
    tester.put(&[(3, Some(3))]).unwrap();
    tester.delete(&[2]).unwrap();
    let before = tester.full_scan().unwrap();
    assert_eq!(vec![(1, Some(1)), (3, Some(3))], before);

    // The crash comes in the middle of the append of one more write.
    let region = tester.region;
    let mut medium = region.wal.bytes().clone();
    medium.extend(&encode_entries(&vec![entry(5, put(4, Some(4)))])[..20]);
    let config = StoreConfig {
        log_store: BufferLogStore::open(medium, usize::MAX),
        sst_layer: region.sst_layer,
        manifest: region.manifest,
        memtable_builder: DefaultMemtableBuilder::default(),
        flush_scheduler: FlushSchedulerImpl::new(),
        flush_strategy: region.flush_strategy,
    };
    let recovered = RegionImpl::open(config).unwrap().unwrap();
    assert_eq!(4, recovered.committed_sequence());
    let mut tester = TesterBase::with_region(recovered);
    assert_eq!(before, tester.full_scan().unwrap());
    tester.put(&[(4, Some(4))]).unwrap();
    assert_eq!(5, tester.committed_sequence());
    assert_eq!(
        vec![(1, Some(1)), (3, Some(3)), (4, Some(4))],
        tester.full_scan().unwrap()
    );
}

#[test]
fn test_manifest_frames() {
    let frame = encode_frame(0x0102, &[7, 8, 9]).unwrap();
    assert_eq!(
        vec![2, 1, 0, 0, 0, 0, 0, 0, 3, 0, 0, 0, 7, 8, 9],
        frame
    );
    assert_eq!(FRAME_HEAD_BYTES, encode_frame(5, &[]).unwrap().len());

    let payloads: Vec<Vec<u8>> = vec![vec![1], vec![], vec![2, 3, 4, 5]];
    let mut bytes = Vec::new();
    for (version, payload) in payloads.iter().enumerate() {
        bytes.extend(encode_frame(version as u64, payload).unwrap());
    }
    assert_eq!(payloads, decode_frames(&bytes));
    assert!(decode_frames(&[]).is_empty());

    // A frame that was cut off ends the manifest.
    let torn = encode_frame(3, &[6, 6, 6]).unwrap();
    for kept in 0..torn.len() {
        let mut medium = bytes.clone();
        medium.extend(&torn[..kept]);
        assert_eq!(payloads, decode_frames(&medium), "kept {kept}");
    }
    // So does a frame that is out of turn.
    let mut medium = bytes.clone();
    medium.extend(encode_frame(4, &[6]).unwrap());
    medium.extend(encode_frame(3, &[6]).unwrap());
    assert_eq!(payloads, decode_frames(&medium));
    assert!(decode_frames(&encode_frame(1, &[6]).unwrap()).is_empty());
    // And one whose payload is longer than what is left.
    let mut medium = bytes.clone();
    medium[11] = 1;
    assert!(decode_frames(&medium).is_empty());
}

#[test]
fn test_manifest_checkpoint() {
    let payloads: Vec<Vec<u8>> = vec![vec![1], vec![2, 2], vec![3]];
    let mut bytes = Vec::new();
    for (version, payload) in payloads.iter().enumerate() {
        bytes.extend(encode_frame(version as u64, payload).unwrap());
    }
    for checkpoint in 0..=3 {
        assert_eq!(
            Ok(payloads.clone()),
            decode_frames_checked(&bytes, checkpoint)
        );
    }
    assert_eq!(
        Err(Error::CorruptedManifest {
            valid: 3,
            checkpoint: 4
        }),
        decode_frames_checked(&bytes, 4)
    );
    // The last frame is cut off: that is the end of the manifest for one
    // who knew two records to be good, and damage for one who knew three.
    let cut = &bytes[..bytes.len() - 1];
    assert_eq!(
        Ok(payloads[..2].to_vec()),
        decode_frames_checked(cut, 2)
    );
    assert_eq!(
        Err(Error::CorruptedManifest {
            valid: 2,
            checkpoint: 3
        }),
        decode_frames_checked(cut, 3)
    );
}
