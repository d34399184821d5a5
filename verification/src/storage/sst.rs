//! The layer of immutable sorted files: what a flush writes and a scan reads.

use vstd::prelude::*;
use crate::storage::error::{Error, Result};
use crate::storage::memtable::{Entry, SequenceNumber};

verus! {

/// The number of levels that files are kept in.
pub const MAX_LEVEL: u8 = 2;

/// What the manifest records of a file.
#[derive(Clone, Debug, PartialEq, Eq)]
pub struct FileMeta {
    pub file_name: String,
    pub level: u8,
}

impl FileMeta {
    pub fn file_name(&self) -> (n: &str)
        ensures
            n@ == self.file_name@,
    {
        self.file_name.as_str()
    }

    pub fn level(&self) -> (l: u8)
        ensures
            l == self.level,
    {
        self.level
    }

    /// A copy of this record.
    pub fn duplicate(&self) -> (m: FileMeta)
        ensures
            m == *self,
    {
        FileMeta { file_name: self.file_name.clone(), level: self.level }
    }
}

/// A copy of each of `files`, in the same order.
pub fn duplicate_files(files: &Vec<FileMeta>) -> (copy: Vec<FileMeta>)
    ensures
        copy@ == files@,
{
    let mut copy: Vec<FileMeta> = Vec::new();
    let mut i: usize = 0;
    while i < files.len()
        invariant
            i <= files@.len(),
            copy@ == files@.take(i as int),
        decreases files@.len() - i,
    {
        copy.push(files[i].duplicate());
        proof {
            assert(files@.take(i + 1) =~= files@.take(i as int).push(files@[i as int]));
        }
        i += 1;
    }
    proof {
        assert(files@.take(files@.len() as int) =~= files@);
    }
    copy
}

/// An immutable file of mutations.
#[derive(Clone, Debug, PartialEq, Eq)]
pub struct SstFile {
    pub file_name: String,
    pub entries: Vec<Entry>,
}

/// What the file `name` holds among `files`, if it is there.
pub open spec fn content_of(files: Seq<SstFile>, name: Seq<char>) -> Option<Seq<Entry>>
    decreases files.len(),
{
    if files.len() == 0 {
        None
    } else if files.last().file_name@ == name {
        Some(files.last().entries@)
    } else {
        content_of(files.drop_last(), name)
    }
}

/// Where there is no content under a name, no file has that name.
pub proof fn lemma_content_of_none(files: Seq<SstFile>, name: Seq<char>)
    requires
        content_of(files, name) is None,
    ensures
        forall|i: int| 0 <= i < files.len() ==> (#[trigger] files[i]).file_name@ != name,
    decreases files.len(),
{
    if files.len() > 0 {
        lemma_content_of_none(files.drop_last(), name);
        assert(forall|i: int| 0 <= i < files.len() - 1 ==> files.drop_last()[i] == files[i]);
    }
}

/// Those of `files` that do not have the name `name`, in the same order.
pub open spec fn others(files: Seq<SstFile>, name: Seq<char>) -> Seq<SstFile>
    decreases files.len(),
{
    if files.len() == 0 {
        Seq::empty()
    } else if files.last().file_name@ == name {
        others(files.drop_last(), name)
    } else {
        others(files.drop_last(), name).push(files.last())
    }
}

/// Taking the files of one name out leaves nothing under that name, and all
/// else as it was.
pub proof fn lemma_others(files: Seq<SstFile>, name: Seq<char>, other: Seq<char>)
    ensures
        content_of(others(files, name), other) == if other == name {
            None
        } else {
            content_of(files, other)
        },
    decreases files.len(),
{
    if files.len() > 0 {
        lemma_others(files.drop_last(), name, other);
        if files.last().file_name@ != name {
            let kept = others(files.drop_last(), name).push(files.last());
            assert(kept.drop_last() =~= others(files.drop_last(), name));
            assert(kept.last() == files.last());
        }
    }
}

/// What the layer tells of one file: its name, how many mutations it holds,
/// and the lowest and the highest of their sequence numbers, which a file
/// without mutations does not have.
#[derive(Debug, PartialEq, Eq)]
pub struct FileInfo {
    pub file_name: String,
    pub rows: usize,
    pub min_sequence: Option<SequenceNumber>,
    pub max_sequence: Option<SequenceNumber>,
}

/// Whether `lowest` is the lowest sequence number among `entries`: one of
/// them has it and none has a lower one; without entries there is none.
pub open spec fn is_lowest_sequence(entries: Seq<Entry>, lowest: Option<SequenceNumber>) -> bool {
    match lowest {
        None => entries.len() == 0,
        Some(s) => {
            &&& exists|i: int| 0 <= i < entries.len() && (#[trigger] entries[i]).sequence == s
            &&& forall|i: int| 0 <= i < entries.len() ==> s <= (#[trigger] entries[i]).sequence
        },
    }
}

/// Whether `highest` is the highest sequence number among `entries`.
pub open spec fn is_highest_sequence(entries: Seq<Entry>, highest: Option<SequenceNumber>) -> bool {
    match highest {
        None => entries.len() == 0,
        Some(s) => {
            &&& exists|i: int| 0 <= i < entries.len() && (#[trigger] entries[i]).sequence == s
            &&& forall|i: int| 0 <= i < entries.len() ==> (#[trigger] entries[i]).sequence <= s
        },
    }
}

/// The lowest and the highest sequence number among `entries`.
pub fn sequence_range(entries: &Vec<Entry>) -> (r: (Option<SequenceNumber>, Option<SequenceNumber>))
    ensures
        is_lowest_sequence(entries@, r.0),
        is_highest_sequence(entries@, r.1),
{
    if entries.len() == 0 {
        return (None, None);
    }
    let mut low: SequenceNumber = entries[0].sequence;
    let mut high: SequenceNumber = entries[0].sequence;
    let mut i: usize = 1;
    while i < entries.len()
        invariant
            1 <= i <= entries@.len(),
            exists|k: int| 0 <= k < i && (#[trigger] entries@[k]).sequence == low,
            exists|k: int| 0 <= k < i && (#[trigger] entries@[k]).sequence == high,
            forall|k: int| 0 <= k < i ==> low <= (#[trigger] entries@[k]).sequence <= high,
        decreases entries@.len() - i,
    {
        let s = entries[i].sequence;
        if s < low {
            low = s;
        }
        if s > high {
            high = s;
        }
        proof {
            assert(entries@[i as int].sequence == s);
        }
        i += 1;
    }
    (Some(low), Some(high))
}

/// The files of one region, by name. This layer keeps them in memory.
#[derive(Clone, Debug, PartialEq, Eq)]
pub struct AccessLayer {
    pub files: Vec<SstFile>,
}

impl AccessLayer {
    /// What the file `name` holds, if the layer has it.
    pub open spec fn content(self, name: Seq<char>) -> Option<Seq<Entry>> {
        content_of(self.files@, name)
    }

    /// A layer without files.
    pub fn new() -> (layer: AccessLayer)
        ensures
            layer.files@.len() == 0,
    {
        AccessLayer { files: Vec::new() }
    }

    fn find(&self, name: &String) -> (r: Option<usize>)
        ensures
            match r {
                Some(i) => i < self.files@.len() && self.content(name@) == Some(
                    self.files@[i as int].entries@,
                ),
                None => self.content(name@) is None,
            },
    {
        let mut i: usize = self.files.len();
        proof {
            assert(self.files@.take(self.files@.len() as int) =~= self.files@);
        }
        while i > 0
            invariant
                i <= self.files@.len(),
                content_of(self.files@, name@) == content_of(self.files@.take(i as int), name@),
            decreases i,
        {
            proof {
                let upto = self.files@.take(i as int);
                assert(upto.drop_last() =~= self.files@.take(i - 1));
                assert(upto.last() == self.files@[i - 1]);
            }
            if self.files[i - 1].file_name == *name {
                return Some(i - 1);
            }
            i -= 1;
        }
        None
    }

    /// Writes `entries` as the new file `file_name` of level 0, and returns
    /// what the manifest is to record of it. Fails, and changes nothing, if a
    /// file of that name exists.
    pub fn write_sst(&mut self, file_name: &str, entries: &Vec<Entry>) -> (r: Result<FileMeta>)
        ensures
            match r {
                Ok(meta) => {
                    &&& old(self).content(file_name@) is None
                    &&& final(self).content(file_name@) == Some(entries@)
                    &&& forall|other: Seq<char>|
                        other != file_name@ ==> #[trigger] final(self).content(other) == old(
                            self,
                        ).content(other)
                    &&& meta.file_name@ == file_name@
                    &&& meta.level == 0
                },
                Err(e) => {
                    &&& old(self).content(file_name@) is Some
                    &&& e matches Error::FileExists { file_name: n }
                    &&& n@ == file_name@
                    &&& *final(self) == *old(self)
                },
            },
    {
        let name = file_name.to_string();
        if self.find(&name).is_some() {
            return Err(Error::FileExists { file_name: name });
        }
        let ghost before = self.files@;
        let mut copy: Vec<Entry> = Vec::new();
        let mut i: usize = 0;
        while i < entries.len()
            invariant
                i <= entries@.len(),
                copy@ == entries@.take(i as int),
            decreases entries@.len() - i,
        {
            copy.push(entries[i]);
            proof {
                assert(entries@.take(i + 1) =~= entries@.take(i as int).push(entries@[i as int]));
            }
            i += 1;
        }
        proof {
            assert(entries@.take(entries@.len() as int) =~= entries@);
        }
        let meta = FileMeta { file_name: name.clone(), level: 0 };
        self.files.push(SstFile { file_name: name, entries: copy });
        proof {
            assert(self.files@.drop_last() =~= before);
        }
        Ok(meta)
    }

    /// Deletes the file `file_name`, and returns whether it was there. All
    /// other files stay as they are.
    pub fn delete_sst(&mut self, file_name: &str) -> (deleted: bool)
        ensures
            deleted == (old(self).content(file_name@) is Some),
            final(self).content(file_name@) is None,
            forall|other: Seq<char>|
                other != file_name@ ==> #[trigger] final(self).content(other) == old(self).content(
                    other,
                ),
    {
        let name = file_name.to_string();
        let deleted = self.find(&name).is_some();
        let ghost before = self.files@;
        let mut kept: Vec<SstFile> = Vec::new();
        let mut rest: Vec<SstFile> = Vec::new();
        core::mem::swap(&mut self.files, &mut rest);
        let n = rest.len();
        let mut stack: Vec<SstFile> = Vec::new();
        while rest.len() > 0
            invariant
                n == before.len(),
                rest@.len() + stack@.len() == n,
                rest@ == before.take(rest@.len() as int),
                forall|k: int| 0 <= k < stack@.len() ==> (#[trigger] stack@[k]) == before[n - 1 - k],
            decreases rest@.len(),
        {
            let ghost was = stack@;
            let ghost left = rest@;
            match rest.pop() {
                Some(file) => {
                    stack.push(file);
                },
                None => {},
            }
            proof {
                assert(rest@ =~= before.take(rest@.len() as int));
                assert forall|k: int| 0 <= k < stack@.len() implies (#[trigger] stack@[k])
                    == before[n - 1 - k] by {
                    if k < was.len() {
                        assert(stack@[k] == was[k]);
                    } else {
                        assert(stack@[k] == left[left.len() - 1]);
                    }
                }
            }
        }
        let mut done: usize = 0;
        while stack.len() > 0
            invariant
                n == before.len(),
                done + stack@.len() == n,
                name@ == file_name@,
                forall|k: int| 0 <= k < stack@.len() ==> (#[trigger] stack@[k]) == before[n - 1 - k],
                kept@ == others(before.take(done as int), file_name@),
            decreases stack@.len(),
        {
            let ghost left = stack@;
            proof {
                let upto = before.take(done + 1);
                assert(upto.drop_last() =~= before.take(done as int));
                assert(upto.last() == before[done as int]);
            }
            match stack.pop() {
                Some(file) => {
                    proof {
                        assert(file == left[left.len() - 1]);
                        assert(file == before[done as int]);
                    }
                    if file.file_name != name {
                        kept.push(file);
                    }
                },
                None => {},
            }
            proof {
                assert forall|k: int| 0 <= k < stack@.len() implies (#[trigger] stack@[k])
                    == before[n - 1 - k] by {
                    assert(stack@[k] == left[k]);
                }
            }
            done += 1;
        }
        proof {
            assert(before.take(n as int) =~= before);
            assert forall|other: Seq<char>| true implies content_of(kept@, other) == if other
                == file_name@ {
                None
            } else {
                content_of(before, other)
            } by {
                lemma_others(before, file_name@, other);
            }
        }
        self.files = kept;
        deleted
    }

    /// What the layer tells of the file `file_name`, if it has it.
    pub fn file_info(&self, file_name: &str) -> (r: Option<FileInfo>)
        ensures
            match self.content(file_name@) {
                Some(entries) => {
                    &&& r matches Some(info)
                    &&& info.file_name@ == file_name@
                    &&& info.rows == entries.len()
                    &&& is_lowest_sequence(entries, info.min_sequence)
                    &&& is_highest_sequence(entries, info.max_sequence)
                },
                None => r is None,
            },
    {
        let name = file_name.to_string();
        match self.find(&name) {
            Some(i) => {
                let (min_sequence, max_sequence) = sequence_range(&self.files[i].entries);
                Some(
                    FileInfo {
                        file_name: name,
                        rows: self.files[i].entries.len(),
                        min_sequence,
                        max_sequence,
                    },
                )
            },
            None => None,
        }
    }

    /// What the file `file_name` holds, if the layer has it.
    pub fn read_sst(&self, file_name: &str) -> (r: Option<&Vec<Entry>>)
        ensures
            match r {
                Some(entries) => self.content(file_name@) == Some(entries@),
                None => self.content(file_name@) is None,
            },
    {
        let name = file_name.to_string();
        match self.find(&name) {
            Some(i) => Some(&self.files[i].entries),
            None => None,
        }
    }
}

} // verus!
