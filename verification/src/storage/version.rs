//! Versions: consistent snapshots of a region's metadata, memtables and file
//! set, and how a manifest is folded into one.

use vstd::prelude::*;
use crate::sharing::share;
use crate::storage::manifest::{
    edit_files, has_file, replay_list, replay_records, without, MIN_VERSION, ManifestVersion,
    RecoveredMetadataMap, RegionEdit, RegionManifest, RegionMetaAction,
};
use crate::storage::memtable::{MemTable, SequenceNumber};
use crate::storage::metadata::RegionMetadataRef;
use crate::storage::sst::{FileMeta, MAX_LEVEL};

verus! {

/// Makes the memtables of a region.
#[derive(Clone, Copy, Debug, Default, PartialEq, Eq)]
pub struct DefaultMemtableBuilder {}

impl DefaultMemtableBuilder {
    /// An empty memtable that takes writes.
    pub fn build(&self) -> (m: MemTable)
        ensures
            m@.len() == 0,
            !m.frozen,
    {
        MemTable::new()
    }
}

/// The files of one level.
#[derive(Clone, Debug, PartialEq, Eq)]
pub struct LevelMeta {
    pub level: u8,
    pub files: Vec<FileMeta>,
}

impl LevelMeta {
    pub fn level(&self) -> (l: u8)
        ensures
            l == self.level,
    {
        self.level
    }

    pub fn files(&self) -> (f: &Vec<FileMeta>)
        ensures
            *f == self.files,
    {
        &self.files
    }
}

/// The files of a version, level by level.
#[derive(Clone, Debug, PartialEq, Eq)]
pub struct LevelMetas {
    pub levels: Vec<LevelMeta>,
}

impl LevelMetas {
    pub fn levels(&self) -> (l: &Vec<LevelMeta>)
        ensures
            *l == self.levels,
    {
        &self.levels
    }
}

/// Those of `files` that are of the level `level`, in the same order.
pub open spec fn files_at(files: Seq<FileMeta>, level: u8) -> Seq<FileMeta>
    decreases files.len(),
{
    if files.len() == 0 {
        Seq::empty()
    } else if files.last().level == level {
        files_at(files.drop_last(), level).push(files.last())
    } else {
        files_at(files.drop_last(), level)
    }
}

/// One consistent state of a region: the metadata, the memtable that takes
/// writes, the frozen memtable that waits to be flushed, the files, and how
/// far flush and manifest have come.
#[derive(Clone, Debug, PartialEq, Eq)]
pub struct Version {
    pub metadata: RegionMetadataRef,
    pub mutable: MemTable,
    pub immutable: Option<MemTable>,
    pub files: Vec<FileMeta>,
    pub flushed_sequence: SequenceNumber,
    pub manifest_version: ManifestVersion,
}

fn named_in(files: &Vec<FileMeta>, name: &String) -> (b: bool)
    ensures
        b == has_file(files@, name@),
{
    let mut i: usize = 0;
    while i < files.len()
        invariant
            i <= files@.len(),
            forall|j: int| 0 <= j < i ==> (#[trigger] files@[j]).file_name@ != name@,
        decreases files@.len() - i,
    {
        if files[i].file_name == *name {
            return true;
        }
        i += 1;
    }
    false
}

/// The file set that the edit turns `files` into.
fn apply_files(files: &Vec<FileMeta>, edit: &RegionEdit) -> (r: Vec<FileMeta>)
    ensures
        r@ == edit_files(files@, *edit),
{
    let ghost all = files@ + edit.files_to_add@;
    let mut r: Vec<FileMeta> = Vec::new();
    let mut i: usize = 0;
    while i < files.len()
        invariant
            i <= files@.len(),
            all == files@ + edit.files_to_add@,
            r@ == without(all.take(i as int), edit.files_to_remove@),
        decreases files@.len() - i,
    {
        proof {
            let upto = all.take(i + 1);
            assert(upto.drop_last() =~= all.take(i as int));
            assert(upto.last() == files@[i as int]);
        }
        if !named_in(&edit.files_to_remove, &files[i].file_name) {
            r.push(files[i].duplicate());
        }
        i += 1;
    }
    let mut k: usize = 0;
    while k < edit.files_to_add.len()
        invariant
            k <= edit.files_to_add@.len(),
            all == files@ + edit.files_to_add@,
            r@ == without(all.take(files@.len() + k), edit.files_to_remove@),
        decreases edit.files_to_add@.len() - k,
    {
        proof {
            let upto = all.take(files@.len() + k + 1);
            assert(upto.drop_last() =~= all.take(files@.len() + k));
            assert(upto.last() == edit.files_to_add@[k as int]);
        }
        if !named_in(&edit.files_to_remove, &edit.files_to_add[k].file_name) {
            r.push(edit.files_to_add[k].duplicate());
        }
        k += 1;
    }
    proof {
        assert(all.take(all.len() as int) =~= all);
    }
    r
}

impl Version {
    /// The first version of a region: no files, nothing flushed.
    pub fn new(metadata: RegionMetadataRef, memtable: MemTable) -> (v: Version)
        ensures
            v == (Version {
                metadata,
                mutable: memtable,
                immutable: None,
                files: v.files,
                flushed_sequence: 0,
                manifest_version: MIN_VERSION,
            }),
            v.files@.len() == 0,
    {
        Version {
            metadata,
            mutable: memtable,
            immutable: None,
            files: Vec::new(),
            flushed_sequence: 0,
            manifest_version: MIN_VERSION,
        }
    }

    /// The first version of a region that the record `manifest_version`
    /// describes.
    pub fn with_manifest_version(
        metadata: RegionMetadataRef,
        manifest_version: ManifestVersion,
        memtable: MemTable,
    ) -> (v: Version)
        ensures
            v == (Version {
                metadata,
                mutable: memtable,
                immutable: None,
                files: v.files,
                flushed_sequence: 0,
                manifest_version,
            }),
            v.files@.len() == 0,
    {
        Version {
            metadata,
            mutable: memtable,
            immutable: None,
            files: Vec::new(),
            flushed_sequence: 0,
            manifest_version,
        }
    }

    pub fn metadata(&self) -> (m: &RegionMetadataRef)
        ensures
            *m == self.metadata,
    {
        &self.metadata
    }

    pub fn flushed_sequence(&self) -> (s: SequenceNumber)
        ensures
            s == self.flushed_sequence,
    {
        self.flushed_sequence
    }

    pub fn manifest_version(&self) -> (v: ManifestVersion)
        ensures
            v == self.manifest_version,
    {
        self.manifest_version
    }

    /// The files level by level: one entry for each of the levels, with the
    /// files of that level in the order of the file set.
    pub fn ssts(&self) -> (metas: LevelMetas)
        ensures
            metas.levels@.len() == MAX_LEVEL,
            forall|l: int|
                0 <= l < MAX_LEVEL ==> (#[trigger] metas.levels@[l]).level == l && metas.levels@[l].files@
                    == files_at(self.files@, l as u8),
    {
        let mut levels: Vec<LevelMeta> = Vec::new();
        let mut level: u8 = 0;
        while level < MAX_LEVEL
            invariant
                level <= MAX_LEVEL,
                levels@.len() == level,
                forall|l: int|
                    0 <= l < level ==> (#[trigger] levels@[l]).level == l && levels@[l].files@
                        == files_at(self.files@, l as u8),
            decreases MAX_LEVEL - level,
        {
            let mut files: Vec<FileMeta> = Vec::new();
            let mut i: usize = 0;
            while i < self.files.len()
                invariant
                    i <= self.files@.len(),
                    files@ == files_at(self.files@.take(i as int), level),
                decreases self.files@.len() - i,
            {
                proof {
                    let upto = self.files@.take(i + 1);
                    assert(upto.drop_last() =~= self.files@.take(i as int));
                    assert(upto.last() == self.files@[i as int]);
                }
                if self.files[i].level == level {
                    files.push(self.files[i].duplicate());
                }
                i += 1;
            }
            proof {
                assert(self.files@.take(self.files@.len() as int) =~= self.files@);
            }
            levels.push(LevelMeta { level, files });
            level += 1;
        }
        LevelMetas { levels }
    }

    /// Applies an edit that the record `manifest_version` holds: the file
    /// set changes, and the flush point and the manifest version move on.
    pub fn apply_edit(&mut self, edit: &RegionEdit, manifest_version: ManifestVersion)
        ensures
            *final(self) == (Version {
                files: final(self).files,
                flushed_sequence: edit.flushed_sequence,
                manifest_version,
                ..*old(self)
            }),
            final(self).files@ == edit_files(old(self).files@, *edit),
    {
        let files = apply_files(&self.files, edit);
        self.files = files;
        self.flushed_sequence = edit.flushed_sequence;
        self.manifest_version = manifest_version;
    }
}

/// Rebuilds a version from a manifest by replaying every action from the
/// start: edits are folded into the file set and the flush point; the first
/// change gives the metadata; a later change is in force at once if its
/// committed sequence number is at or below the flush point of that moment,
/// and then takes the place of all changes before it; otherwise it is handed
/// back in the map. Without any change there is no version.
pub fn recover_from_manifest(manifest: &RegionManifest, memtable_builder: &DefaultMemtableBuilder) -> (r: (
    Option<Version>,
    RecoveredMetadataMap,
))
    ensures
        ({
            let at = replay_records(manifest.records@);
            &&& r.1@ == at.changes
            &&& match r.0 {
                None => at.metadata is None,
                Some(v) => {
                    &&& at.metadata == Some(*v.metadata)
                    &&& v.files@ == at.files
                    &&& v.flushed_sequence == at.flushed_sequence
                    &&& v.manifest_version == at.manifest_version
                    &&& v.mutable@.len() == 0
                    &&& !v.mutable.frozen
                    &&& v.immutable is None
                },
            }
        }),
{
    let mut metadata: Option<RegionMetadataRef> = None;
    let mut files: Vec<FileMeta> = Vec::new();
    let mut flushed_sequence: SequenceNumber = 0;
    let mut manifest_version: ManifestVersion = MIN_VERSION;
    let mut edited = false;
    let mut changes = RecoveredMetadataMap::new();
    let mut n: usize = 0;
    while n < manifest.records.len()
        invariant
            n <= manifest.records@.len(),
            ({
                let at = replay_records(manifest.records@.take(n as int));
                &&& changes@ == at.changes
                &&& files@ == at.files
                &&& flushed_sequence == at.flushed_sequence
                &&& manifest_version == at.manifest_version
                &&& edited == at.edited
                &&& match metadata {
                    Some(m) => at.metadata == Some(*m),
                    None => at.metadata is None,
                }
            }),
        decreases manifest.records@.len() - n,
    {
        let actions = &manifest.records[n].actions;
        let version = n as u64;
        let ghost start = replay_records(manifest.records@.take(n as int));
        let mut a: usize = 0;
        while a < actions.len()
            invariant
                a <= actions@.len(),
                ({
                    let at = replay_list(start, version, actions@.take(a as int));
                    &&& changes@ == at.changes
                    &&& files@ == at.files
                    &&& flushed_sequence == at.flushed_sequence
                    &&& manifest_version == at.manifest_version
                    &&& edited == at.edited
                    &&& match metadata {
                        Some(m) => at.metadata == Some(*m),
                        None => at.metadata is None,
                    }
                }),
            decreases actions@.len() - a,
        {
            proof {
                let upto = actions@.take(a + 1);
                assert(upto.drop_last() =~= actions@.take(a as int));
                assert(upto.last() == actions@[a as int]);
            }
            match &actions[a] {
                RegionMetaAction::Edit(edit) => {
                    files = apply_files(&files, edit);
                    flushed_sequence = edit.flushed_sequence;
                    manifest_version = version;
                    edited = true;
                },
                RegionMetaAction::Change(change) => {
                    if metadata.is_none() {
                        metadata = Some(share(&change.metadata));
                        if !edited {
                            manifest_version = version;
                        }
                    } else if change.committed_sequence > flushed_sequence {
                        changes.insert(change.committed_sequence, version, share(&change.metadata));
                    } else {
                        metadata = Some(share(&change.metadata));
                        changes.clear();
                    }
                },
            }
            a += 1;
        }
        proof {
            assert(actions@.take(actions@.len() as int) =~= actions@);
            let upto = manifest.records@.take(n + 1);
            assert(upto.drop_last() =~= manifest.records@.take(n as int));
            assert(upto.last() == manifest.records@[n as int]);
        }
        n += 1;
    }
    proof {
        assert(manifest.records@.take(manifest.records@.len() as int) =~= manifest.records@);
    }
    let version = match metadata {
        Some(m) => Some(
            Version {
                metadata: m,
                mutable: memtable_builder.build(),
                immutable: None,
                files,
                flushed_sequence,
                manifest_version,
            },
        ),
        None => None,
    };
    (version, changes)
}

} // verus!
