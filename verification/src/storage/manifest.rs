//! The manifest: the append-only log of schema changes and file-set edits
//! from which a region is rebuilt.

use std::collections::BTreeMap;
use vstd::prelude::*;
use crate::sharing::share;
use crate::storage::error::{Error, Result};
use crate::storage::memtable::SequenceNumber;
use crate::storage::metadata::{RegionMetadata, RegionMetadataRef};
use crate::storage::sst::FileMeta;

verus! {

/// The position of a record in the manifest.
pub type ManifestVersion = u64;

/// The version of the first record.
pub const MIN_VERSION: ManifestVersion = 0;

/// The region got new metadata, in force after `committed_sequence`.
#[derive(Clone, Debug, PartialEq, Eq)]
pub struct RegionChange {
    pub metadata: RegionMetadataRef,
    pub committed_sequence: SequenceNumber,
}

/// The file set of the region changed: everything up to `flushed_sequence`
/// is in files now.
#[derive(Clone, Debug, PartialEq, Eq)]
pub struct RegionEdit {
    pub region_version: u32,
    pub flushed_sequence: SequenceNumber,
    pub files_to_add: Vec<FileMeta>,
    pub files_to_remove: Vec<FileMeta>,
}

/// One action of the manifest.
#[derive(Clone, Debug, PartialEq, Eq)]
pub enum RegionMetaAction {
    Change(RegionChange),
    Edit(RegionEdit),
}

/// The actions of one record; they are appended together or not at all.
#[derive(Clone, Debug, PartialEq, Eq)]
pub struct RegionMetaActionList {
    pub actions: Vec<RegionMetaAction>,
}

impl RegionMetaActionList {
    /// The list of the single action `action`.
    pub fn with_action(action: RegionMetaAction) -> (list: RegionMetaActionList)
        ensures
            list.actions@ == seq![action],
    {
        let mut actions: Vec<RegionMetaAction> = Vec::new();
        actions.push(action);
        RegionMetaActionList { actions }
    }

    /// The list of the given actions.
    pub fn new(actions: Vec<RegionMetaAction>) -> (list: RegionMetaActionList)
        ensures
            list.actions == actions,
    {
        RegionMetaActionList { actions }
    }
}

/// The manifest of one region, kept in memory, with room for a fixed number
/// of records. The version of a record is its position.
#[derive(Clone, Debug, PartialEq, Eq)]
pub struct RegionManifest {
    pub records: Vec<RegionMetaActionList>,
    pub capacity: usize,
}

impl RegionManifest {
    /// An empty manifest with room for any number of records.
    pub fn new() -> (m: RegionManifest)
        ensures
            m.records@.len() == 0,
            m.capacity == usize::MAX,
    {
        RegionManifest { records: Vec::new(), capacity: usize::MAX }
    }

    /// An empty manifest with room for `capacity` records.
    pub fn with_capacity(capacity: usize) -> (m: RegionManifest)
        ensures
            m.records@.len() == 0,
            m.capacity == capacity,
    {
        RegionManifest { records: Vec::new(), capacity }
    }

    /// Appends `actions` as one record and returns its version, which is the
    /// number of records before it. Fails, and changes nothing, exactly when
    /// the manifest is full.
    pub fn update(&mut self, actions: RegionMetaActionList) -> (r: Result<ManifestVersion>)
        ensures
            final(self).capacity == old(self).capacity,
            match r {
                Ok(version) => {
                    &&& old(self).records@.len() < old(self).capacity
                    &&& version == old(self).records@.len()
                    &&& final(self).records@ == old(self).records@.push(actions)
                },
                Err(e) => {
                    &&& old(self).records@.len() >= old(self).capacity
                    &&& e == Error::ManifestFull
                    &&& final(self).records == old(self).records
                },
            },
    {
        if self.records.len() >= self.capacity {
            return Err(Error::ManifestFull);
        }
        let version = self.records.len() as u64;
        self.records.push(actions);
        Ok(version)
    }

    /// The version that the next record will get: the number of records.
    pub fn last_version(&self) -> (v: ManifestVersion)
        ensures
            v == self.records@.len(),
    {
        self.records.len() as u64
    }
}

/// Whether one of `files` has the name `name`.
pub open spec fn has_file(files: Seq<FileMeta>, name: Seq<char>) -> bool {
    exists|i: int| 0 <= i < files.len() && (#[trigger] files[i]).file_name@ == name
}

/// Those of `files` whose name is not among `removed`, in the same order.
pub open spec fn without(files: Seq<FileMeta>, removed: Seq<FileMeta>) -> Seq<FileMeta>
    decreases files.len(),
{
    if files.len() == 0 {
        Seq::empty()
    } else if has_file(removed, files.last().file_name@) {
        without(files.drop_last(), removed)
    } else {
        without(files.drop_last(), removed).push(files.last())
    }
}

/// The file set that an edit turns `files` into: the added files come behind
/// those that are there, then the removed ones are taken out, by name.
pub open spec fn edit_files(files: Seq<FileMeta>, edit: RegionEdit) -> Seq<FileMeta> {
    without(files + edit.files_to_add@, edit.files_to_remove@)
}

/// What replaying a manifest has arrived at.
pub struct Replayed {
    /// The metadata in force; `None` until the first change is seen.
    pub metadata: Option<RegionMetadata>,
    /// The file set.
    pub files: Seq<FileMeta>,
    /// The flushed sequence number of the last edit; 0 before the first.
    pub flushed_sequence: SequenceNumber,
    /// The version of the record of the last edit, or, before any edit, of
    /// the first change.
    pub manifest_version: ManifestVersion,
    /// Whether an edit was seen.
    pub edited: bool,
    /// The changes that are not in force yet: those that came with a
    /// committed sequence number above the flush point of that moment, after
    /// the first change and after the last change that was in force at once,
    /// by that number. Of two with the same number the later stays.
    pub changes: Map<SequenceNumber, (ManifestVersion, RegionMetadata)>,
}

/// The metadata that is in force once every change that was replayed is: the
/// pending change with the greatest committed sequence number, or, without a
/// pending change, the metadata that replaying arrived at.
pub open spec fn final_metadata(at: Replayed) -> Option<RegionMetadata> {
    if at.changes.dom() =~= Set::<SequenceNumber>::empty() {
        at.metadata
    } else {
        let greatest = choose|key: SequenceNumber| #[trigger]
            at.changes.dom().contains(key) && forall|other: SequenceNumber|
                at.changes.dom().contains(other) ==> other <= key;
        Some(at.changes[greatest].1)
    }
}

/// Where a change is recorded under a number that no recorded number
/// exceeds, it is the change that is in force in the end.
pub proof fn lemma_final_metadata_insert(
    at: Replayed,
    key: SequenceNumber,
    version: ManifestVersion,
    metadata: RegionMetadata,
)
    requires
        forall|k: SequenceNumber| at.changes.dom().contains(k) ==> k <= key,
    ensures
        final_metadata(Replayed { changes: at.changes.insert(key, (version, metadata)), ..at })
            == Some(metadata),
{
    let changes = at.changes.insert(key, (version, metadata));
    assert(changes.dom().contains(key));
    assert(!(changes.dom() =~= Set::<SequenceNumber>::empty()));
    let greatest = choose|k: SequenceNumber| #[trigger]
        changes.dom().contains(k) && forall|other: SequenceNumber|
            changes.dom().contains(other) ==> other <= k;
    assert(changes.dom().contains(key) && forall|other: SequenceNumber|
        changes.dom().contains(other) ==> other <= key);
    assert(greatest == key);
}

/// What there is before the first record.
pub open spec fn replay_start() -> Replayed {
    Replayed {
        metadata: None,
        files: Seq::empty(),
        flushed_sequence: 0,
        manifest_version: MIN_VERSION,
        edited: false,
        changes: Map::empty(),
    }
}

/// What one action of the record `version` turns `at` into.
pub open spec fn replay_action(at: Replayed, version: ManifestVersion, action: RegionMetaAction) -> Replayed {
    match action {
        RegionMetaAction::Edit(edit) => Replayed {
            files: edit_files(at.files, edit),
            flushed_sequence: edit.flushed_sequence,
            manifest_version: version,
            edited: true,
            ..at
        },
        RegionMetaAction::Change(change) => if at.metadata is None {
            Replayed {
                metadata: Some(*change.metadata),
                manifest_version: if at.edited {
                    at.manifest_version
                } else {
                    version
                },
                ..at
            }
        } else if change.committed_sequence > at.flushed_sequence {
            Replayed {
                changes: at.changes.insert(change.committed_sequence, (version, *change.metadata)),
                ..at
            }
        } else {
            Replayed { metadata: Some(*change.metadata), changes: Map::empty(), ..at }
        },
    }
}

/// What the actions of the record `version` turn `at` into, one after the
/// other.
pub open spec fn replay_list(at: Replayed, version: ManifestVersion, actions: Seq<RegionMetaAction>) -> Replayed
    decreases actions.len(),
{
    if actions.len() == 0 {
        at
    } else {
        replay_action(replay_list(at, version, actions.drop_last()), version, actions.last())
    }
}

/// What replaying all of `records` from the start arrives at.
pub open spec fn replay_records(records: Seq<RegionMetaActionList>) -> Replayed
    decreases records.len(),
{
    if records.len() == 0 {
        replay_start()
    } else {
        replay_list(
            replay_records(records.drop_last()),
            (records.len() - 1) as u64,
            records.last().actions@,
        )
    }
}

/// All actions of `records` in the order in which they were appended.
pub open spec fn flatten(records: Seq<RegionMetaActionList>) -> Seq<RegionMetaAction>
    decreases records.len(),
{
    if records.len() == 0 {
        Seq::empty()
    } else {
        flatten(records.drop_last()) + records.last().actions@
    }
}

/// The file set that the edits among `actions` turn `files` into, one after
/// the other.
pub open spec fn fold_edits(files: Seq<FileMeta>, actions: Seq<RegionMetaAction>) -> Seq<FileMeta>
    decreases actions.len(),
{
    if actions.len() == 0 {
        files
    } else {
        let before = fold_edits(files, actions.drop_last());
        match actions.last() {
            RegionMetaAction::Edit(edit) => edit_files(before, edit),
            RegionMetaAction::Change(_) => before,
        }
    }
}

/// The flushed sequence number of the last edit among `actions`, or
/// `otherwise` if there is none.
pub open spec fn last_flushed(actions: Seq<RegionMetaAction>, otherwise: SequenceNumber) -> SequenceNumber
    decreases actions.len(),
{
    if actions.len() == 0 {
        otherwise
    } else {
        match actions.last() {
            RegionMetaAction::Edit(edit) => edit.flushed_sequence,
            RegionMetaAction::Change(_) => last_flushed(actions.drop_last(), otherwise),
        }
    }
}

/// Whether `action` is an edit that adds the file `file`.
pub open spec fn adds(action: RegionMetaAction, file: FileMeta) -> bool {
    action matches RegionMetaAction::Edit(edit) && edit.files_to_add@.contains(file)
}

/// Whether `action` is an edit that removes the file named `name`.
pub open spec fn removes(action: RegionMetaAction, name: Seq<char>) -> bool {
    action matches RegionMetaAction::Edit(edit) && has_file(edit.files_to_remove@, name)
}

/// Whether some edit among `actions` adds `file`, and neither that edit nor
/// any after it removes a file of that name.
pub open spec fn survives(actions: Seq<RegionMetaAction>, file: FileMeta) -> bool {
    exists|i: int|
        0 <= i < actions.len() && adds(#[trigger] actions[i], file) && forall|j: int|
            i <= j < actions.len() ==> !removes(#[trigger] actions[j], file.file_name@)
}

/// What `without` keeps: the files whose name is not among the removed.
pub proof fn lemma_without(files: Seq<FileMeta>, removed: Seq<FileMeta>, file: FileMeta)
    ensures
        without(files, removed).contains(file) <==> files.contains(file) && !has_file(
            removed,
            file.file_name@,
        ),
    decreases files.len(),
{
    if files.len() > 0 {
        let front = files.drop_last();
        lemma_without(front, removed, file);
        if files.contains(file) {
            let i = choose|i: int| 0 <= i < files.len() && files[i] == file;
            if i < front.len() {
                assert(front[i] == file);
            }
        }
        if front.contains(file) {
            let i = choose|i: int| 0 <= i < front.len() && front[i] == file;
            assert(files[i] == file);
        }
        assert(files[files.len() - 1] == files.last());
        let kept = without(front, removed);
        if !has_file(removed, files.last().file_name@) {
            assert(kept.push(files.last())[kept.len() as int] == files.last());
            if kept.push(files.last()).contains(file) {
                let i = choose|i: int|
                    0 <= i < kept.push(files.last()).len() && kept.push(files.last())[i] == file;
                if i < kept.len() {
                    assert(kept[i] == file);
                }
            }
            if kept.contains(file) {
                let i = choose|i: int| 0 <= i < kept.len() && kept[i] == file;
                assert(kept.push(files.last())[i] == file);
            }
        }
    }
}

/// What an edit leaves in the file set: what was there or is added, unless
/// the edit removes a file of that name.
pub proof fn lemma_edit_files(files: Seq<FileMeta>, edit: RegionEdit, file: FileMeta)
    ensures
        edit_files(files, edit).contains(file) <==> (files.contains(file)
            || edit.files_to_add@.contains(file)) && !has_file(
            edit.files_to_remove@,
            file.file_name@,
        ),
{
    let all = files + edit.files_to_add@;
    lemma_without(all, edit.files_to_remove@, file);
    if files.contains(file) {
        let i = choose|i: int| 0 <= i < files.len() && files[i] == file;
        assert(all[i] == file);
    }
    if edit.files_to_add@.contains(file) {
        let i = choose|i: int| 0 <= i < edit.files_to_add@.len() && edit.files_to_add@[i] == file;
        assert(all[files.len() + i] == file);
    }
    if all.contains(file) {
        let i = choose|i: int| 0 <= i < all.len() && all[i] == file;
        if i < files.len() {
            assert(files[i] == file);
        } else {
            assert(edit.files_to_add@[i - files.len()] == file);
        }
    }
}

/// The files that a run of actions leaves: those that were there and that no
/// edit removes, and those that an edit adds and that neither it nor a later
/// edit removes.
pub proof fn lemma_fold_edits(files: Seq<FileMeta>, actions: Seq<RegionMetaAction>, file: FileMeta)
    ensures
        fold_edits(files, actions).contains(file) <==> (files.contains(file) && forall|j: int|
            0 <= j < actions.len() ==> !removes(#[trigger] actions[j], file.file_name@))
            || survives(actions, file),
    decreases actions.len(),
{
    if actions.len() > 0 {
        let front = actions.drop_last();
        let last = actions.last();
        lemma_fold_edits(files, front, file);
        assert(forall|j: int| 0 <= j < front.len() ==> front[j] == actions[j]);
        assert(actions[actions.len() - 1] == last);
        let before = fold_edits(files, front);
        match last {
            RegionMetaAction::Edit(edit) => {
                lemma_edit_files(before, edit, file);
            },
            RegionMetaAction::Change(_) => {},
        }
        let kept = forall|j: int|
            0 <= j < actions.len() ==> !removes(#[trigger] actions[j], file.file_name@);
        let kept_front = forall|j: int|
            0 <= j < front.len() ==> !removes(#[trigger] front[j], file.file_name@);
        if survives(front, file) && !removes(last, file.file_name@) {
            let i = choose|i: int|
                0 <= i < front.len() && adds(#[trigger] front[i], file) && forall|j: int|
                    i <= j < front.len() ==> !removes(#[trigger] front[j], file.file_name@);
            assert(adds(actions[i], file));
            assert forall|j: int| i <= j < actions.len() implies !removes(
                #[trigger] actions[j],
                file.file_name@,
            ) by {
                if j < front.len() {
                    assert(front[j] == actions[j]);
                }
            }
            assert(survives(actions, file));
        }
        if adds(last, file) && !removes(last, file.file_name@) {
            assert(adds(actions[actions.len() - 1], file));
            assert(survives(actions, file));
        }
        if survives(actions, file) {
            let i = choose|i: int|
                0 <= i < actions.len() && adds(#[trigger] actions[i], file) && forall|j: int|
                    i <= j < actions.len() ==> !removes(#[trigger] actions[j], file.file_name@);
            assert(!removes(actions[actions.len() - 1], file.file_name@));
            if i < front.len() {
                assert(adds(front[i], file));
                assert forall|j: int| i <= j < front.len() implies !removes(
                    #[trigger] front[j],
                    file.file_name@,
                ) by {
                    assert(front[j] == actions[j]);
                }
                assert(survives(front, file));
            }
        }
        if kept {
            assert(!removes(actions[actions.len() - 1], file.file_name@));
            assert forall|j: int| 0 <= j < front.len() implies !removes(
                #[trigger] front[j],
                file.file_name@,
            ) by {
                assert(front[j] == actions[j]);
            }
        }
        if kept_front && !removes(last, file.file_name@) {
            assert forall|j: int| 0 <= j < actions.len() implies !removes(
                #[trigger] actions[j],
                file.file_name@,
            ) by {
                if j < front.len() {
                    assert(front[j] == actions[j]);
                }
            }
        }
    }
}

/// Folding two runs of actions one after the other is folding their
/// concatenation.
pub proof fn lemma_fold_concat(
    files: Seq<FileMeta>,
    otherwise: SequenceNumber,
    first: Seq<RegionMetaAction>,
    second: Seq<RegionMetaAction>,
)
    ensures
        fold_edits(files, first + second) == fold_edits(fold_edits(files, first), second),
        last_flushed(first + second, otherwise) == last_flushed(
            second,
            last_flushed(first, otherwise),
        ),
    decreases second.len(),
{
    if second.len() == 0 {
        assert(first + second =~= first);
    } else {
        assert((first + second).drop_last() =~= first + second.drop_last());
        assert((first + second).last() == second.last());
        lemma_fold_concat(files, otherwise, first, second.drop_last());
    }
}

/// The files and the flush point that replaying one record arrives at are
/// those of folding its actions.
pub proof fn lemma_replay_list(at: Replayed, version: ManifestVersion, actions: Seq<RegionMetaAction>)
    ensures
        replay_list(at, version, actions).files == fold_edits(at.files, actions),
        replay_list(at, version, actions).flushed_sequence == last_flushed(
            actions,
            at.flushed_sequence,
        ),
    decreases actions.len(),
{
    if actions.len() > 0 {
        lemma_replay_list(at, version, actions.drop_last());
    }
}

/// Recovery yields the file set that holds exactly the files that an edit
/// added and that neither that edit nor a later one removed, and the flushed
/// sequence number of the last edit (0 if there is none).
pub proof fn lemma_replay_records(records: Seq<RegionMetaActionList>)
    ensures
        replay_records(records).files == fold_edits(Seq::empty(), flatten(records)),
        replay_records(records).flushed_sequence == last_flushed(flatten(records), 0),
        forall|file: FileMeta| #[trigger]
            replay_records(records).files.contains(file) <==> survives(flatten(records), file),
    decreases records.len(),
{
    if records.len() > 0 {
        let front = records.drop_last();
        lemma_replay_records(front);
        lemma_replay_list(
            replay_records(front),
            (records.len() - 1) as u64,
            records.last().actions@,
        );
        lemma_fold_concat(Seq::empty(), 0, flatten(front), records.last().actions@);
    }
    assert forall|file: FileMeta| #[trigger]
        replay_records(records).files.contains(file) <==> survives(flatten(records), file) by {
        lemma_fold_edits(Seq::empty(), flatten(records), file);
    }
}

/// The changes that recovery found and that are not in force yet, by their
/// committed sequence number.
#[derive(Clone, Debug, PartialEq, Eq)]
pub struct RecoveredMetadataMap {
    pub map: BTreeMap<SequenceNumber, (ManifestVersion, RegionMetadataRef)>,
}

impl View for RecoveredMetadataMap {
    type V = Map<SequenceNumber, (ManifestVersion, RegionMetadata)>;

    open spec fn view(&self) -> Map<SequenceNumber, (ManifestVersion, RegionMetadata)> {
        Map::new(
            |key: SequenceNumber| self.map@.contains_key(key),
            |key: SequenceNumber| (self.map@[key].0, *self.map@[key].1),
        )
    }
}

/// The entry with the least key of `map`, if the map has entries.
///
/// Trusted: this calls `BTreeMap::first_key_value`, which the standard
/// library documents to return the entry whose key is the minimum of the
/// map, and nothing for an empty map.
#[verifier::external_body]
fn first_entry(map: &BTreeMap<SequenceNumber, (ManifestVersion, RegionMetadataRef)>) -> (r: Option<
    (&SequenceNumber, &(ManifestVersion, RegionMetadataRef)),
>)
    ensures
        match r {
            Some((key, value)) => {
                &&& map@.contains_key(*key)
                &&& map@[*key] == *value
                &&& forall|other: SequenceNumber| map@.contains_key(other) ==> *key <= other
            },
            None => forall|other: SequenceNumber| !map@.contains_key(other),
        },
{
    map.first_key_value()
}

/// The entry with the greatest key of `map`, if the map has entries.
///
/// Trusted: this calls `BTreeMap::last_key_value`, which the standard
/// library documents to return the entry whose key is the maximum of the
/// map, and nothing for an empty map.
#[verifier::external_body]
fn last_entry(map: &BTreeMap<SequenceNumber, (ManifestVersion, RegionMetadataRef)>) -> (r: Option<
    (&SequenceNumber, &(ManifestVersion, RegionMetadataRef)),
>)
    ensures
        match r {
            Some((key, value)) => {
                &&& map@.contains_key(*key)
                &&& map@[*key] == *value
                &&& forall|other: SequenceNumber| map@.contains_key(other) ==> other <= *key
            },
            None => forall|other: SequenceNumber| !map@.contains_key(other),
        },
{
    map.last_key_value()
}

impl RecoveredMetadataMap {
    /// The empty map.
    pub fn new() -> (m: RecoveredMetadataMap)
        ensures
            m@ == Map::<SequenceNumber, (ManifestVersion, RegionMetadata)>::empty(),
    {
        let m = RecoveredMetadataMap { map: BTreeMap::new() };
        proof {
            assert(m@ =~= Map::<SequenceNumber, (ManifestVersion, RegionMetadata)>::empty());
        }
        m
    }

    /// Forgets all changes.
    pub fn clear(&mut self)
        ensures
            final(self)@ == Map::<SequenceNumber, (ManifestVersion, RegionMetadata)>::empty(),
    {
        self.map.clear();
        proof {
            assert(self@ =~= Map::<SequenceNumber, (ManifestVersion, RegionMetadata)>::empty());
        }
    }

    pub fn is_empty(&self) -> (b: bool)
        ensures
            b == (self@.dom() =~= Set::<SequenceNumber>::empty()),
    {
        let b = self.map.is_empty();
        proof {
            if b {
                assert(self@.dom() =~= Set::<SequenceNumber>::empty());
            } else {
                let key = choose|key: SequenceNumber| self.map@.contains_key(key);
                assert(self.map@.contains_key(key));
                assert(self@.dom().contains(key));
            }
        }
        b
    }

    /// Records `metadata` under `committed_sequence`, in place of what was
    /// there under that number.
    pub fn insert(
        &mut self,
        committed_sequence: SequenceNumber,
        manifest_version: ManifestVersion,
        metadata: RegionMetadataRef,
    )
        ensures
            final(self)@ == old(self)@.insert(committed_sequence, (manifest_version, *metadata)),
    {
        let _ = self.map.insert(committed_sequence, (manifest_version, metadata));
        proof {
            assert(self@ =~= old(self)@.insert(committed_sequence, (manifest_version, *metadata)));
        }
    }

    /// The greatest committed sequence number of the map, with the version
    /// of the record and the metadata that stand under it.
    pub fn last_key_value(&self) -> (r: Option<(SequenceNumber, (ManifestVersion, RegionMetadataRef))>)
        ensures
            match r {
                Some((key, (version, metadata))) => {
                    &&& self@.dom().contains(key)
                    &&& self@[key] == (version, *metadata)
                    &&& forall|other: SequenceNumber| self@.dom().contains(other) ==> other <= key
                },
                None => self@.dom() =~= Set::<SequenceNumber>::empty(),
            },
    {
        match last_entry(&self.map) {
            Some((key, value)) => Some((*key, (value.0, share(&value.1)))),
            None => None,
        }
    }

    /// The least committed sequence number of the map, with the version of
    /// the record and the metadata that stand under it.
    pub fn first_key_value(&self) -> (r: Option<(SequenceNumber, (ManifestVersion, RegionMetadataRef))>)
        ensures
            match r {
                Some((key, (version, metadata))) => {
                    &&& self@.dom().contains(key)
                    &&& self@[key] == (version, *metadata)
                    &&& forall|other: SequenceNumber| self@.dom().contains(other) ==> key <= other
                },
                None => self@.dom() =~= Set::<SequenceNumber>::empty(),
            },
    {
        match first_entry(&self.map) {
            Some((key, value)) => Some((*key, (value.0, share(&value.1)))),
            None => None,
        }
    }
}

} // verus!
