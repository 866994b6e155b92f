use crate::names::is_random_name;
use crate::names::random_file_name;
use crate::paths::FilePath;
use crate::paths::PathModel;
use vstd::prelude::*;

verus! {

/// What a [`FileList`] stands for.
pub struct FileListModel {
    /// The files the session believes it created, in the order they were added.
    pub files: Seq<PathModel>,
    /// The files removed since the last reconciliation.
    pub pending: Seq<PathModel>,
}

impl FileListModel {
    /// No listed file and no pending deletion.
    pub open spec fn empty() -> FileListModel {
        FileListModel { files: Seq::empty(), pending: Seq::empty() }
    }

    /// The list after `path` was created.
    pub open spec fn add(self, path: PathModel) -> FileListModel {
        FileListModel { files: self.files.push(path), pending: self.pending }
    }

    /// The list after the file of row `index` was removed from disk.
    pub open spec fn mark_deleted(self, index: int) -> FileListModel {
        if 0 <= index < self.files.len() {
            FileListModel { files: self.files, pending: self.pending.push(self.files[index]) }
        } else {
            self
        }
    }

    /// The list after the file of row `index` was moved to `target`.
    pub open spec fn rename(self, index: int, target: PathModel) -> FileListModel {
        if 0 <= index < self.files.len() {
            FileListModel { files: self.files.update(index, target), pending: self.pending }
        } else {
            self
        }
    }

    /// Whether `path` survives a reconciliation: whether no pending deletion names it.
    pub open spec fn survives(self, path: PathModel) -> bool {
        !self.pending.contains(path)
    }

    /// The list at the end of a tick: every listed path that a pending deletion
    /// names is dropped, the others keep their order, and no deletion stays pending.
    pub open spec fn reconcile(self) -> FileListModel {
        FileListModel {
            files: self.files.filter(|path: PathModel| self.survives(path)),
            pending: Seq::empty(),
        }
    }
}

/// The models of a run of paths, in order.
pub open spec fn models(paths: Seq<FilePath>) -> Seq<PathModel> {
    paths.map_values(|path: FilePath| path@)
}

/// The files that the session created, with the deletions of the current tick.
#[derive(Debug)]
pub struct FileList {
    files: Vec<FilePath>,
    deleted: Vec<FilePath>,
}

impl View for FileList {
    type V = FileListModel;

    closed spec fn view(&self) -> FileListModel {
        FileListModel { files: models(self.files@), pending: models(self.deleted@) }
    }
}

/// Filtering a run extended by one item filters the run and then decides the item.
proof fn lemma_filter_step<A>(s: Seq<A>, keep: spec_fn(A) -> bool, n: int)
    requires
        0 <= n < s.len(),
    ensures
        s.take(n + 1).filter(keep) == if keep(s[n]) {
            s.take(n).filter(keep).push(s[n])
        } else {
            s.take(n).filter(keep)
        },
{
    reveal(Seq::filter);
    assert(s.take(n + 1).drop_last() =~= s.take(n));
}

fn holds(paths: &Vec<FilePath>, path: &FilePath) -> (found: bool)
    ensures
        found == models(paths@).contains(path@),
{
    let mut i: usize = 0;
    while i < paths.len()
        invariant
            i <= paths.len(),
            forall|j: int| 0 <= j < i ==> models(paths@)[j] != path@,
        decreases paths.len() - i,
    {
        if paths[i].same_as(path) {
            assert(models(paths@)[i as int] == path@);
            return true;
        }
        i += 1;
    }
    false
}

impl FileList {
    /// A list that tracks nothing.
    pub fn new() -> (list: FileList)
        ensures
            list@ == FileListModel::empty(),
    {
        let list = FileList { files: Vec::new(), deleted: Vec::new() };
        assert(list@.files =~= Seq::empty());
        assert(list@.pending =~= Seq::empty());
        list
    }

    /// Number of listed files.
    pub fn len(&self) -> (n: usize)
        ensures
            n == self@.files.len(),
    {
        self.files.len()
    }

    /// The file of row `index`, if there is such a row.
    pub fn path_at(&self, index: usize) -> (path: Option<&FilePath>)
        ensures
            path is Some <==> index < self@.files.len(),
            path matches Some(p) ==> p@ == self@.files[index as int],
    {
        if index < self.files.len() {
            Some(&self.files[index])
        } else {
            None
        }
    }

    /// Whether `path` is listed.
    pub fn contains(&self, path: &FilePath) -> (found: bool)
        ensures
            found == self@.files.contains(path@),
    {
        holds(&self.files, path)
    }

    /// Lists a file that was just created.
    pub fn add(&mut self, path: FilePath)
        ensures
            final(self)@ == old(self)@.add(path@),
    {
        self.files.push(path);
        assert(self@.files =~= old(self)@.files.push(path@));
    }

    /// Records that the file of row `index` was removed from disk: the row stays
    /// until the next reconciliation, which drops it. Returns whether there is such
    /// a row; without one nothing changes.
    pub fn record_delete(&mut self, index: usize) -> (marked: bool)
        ensures
            marked == (index < old(self)@.files.len()),
            final(self)@ == old(self)@.mark_deleted(index as int),
            final(self)@.files == old(self)@.files,
    {
        if index < self.files.len() {
            let path = self.files[index].clone();
            self.deleted.push(path);
            assert(self@.pending =~= old(self)@.pending.push(old(self)@.files[index as int]));
            true
        } else {
            false
        }
    }

    /// Chooses where the file of row `index` goes when it is renamed: a freshly
    /// generated name in the same directory. Nothing without such a row.
    pub fn plan_rename(&self, index: usize) -> (target: Option<FilePath>)
        ensures
            target is Some <==> index < self@.files.len(),
            target matches Some(p) ==> p@.dir == self@.files[index as int].dir && is_random_name(
                p@.name,
            ),
    {
        if index < self.files.len() {
            self.files[index].with_file_name(random_file_name())
        } else {
            None
        }
    }

    /// Records that the file of row `index` was moved to `target`: the row now holds
    /// `target`. Returns whether there is such a row; without one nothing changes.
    pub fn record_rename(&mut self, index: usize, target: FilePath) -> (renamed: bool)
        ensures
            renamed == (index < old(self)@.files.len()),
            final(self)@ == old(self)@.rename(index as int, target@),
            renamed ==> final(self)@.files[index as int] == target@,
    {
        if index < self.files.len() {
            self.files.set(index, target);
            assert(self@.files =~= old(self)@.files.update(index as int, target@));
            true
        } else {
            false
        }
    }

    /// Ends the tick: drops every listed file that a pending deletion names and
    /// forgets the pending deletions.
    pub fn reconcile(&mut self)
        ensures
            final(self)@ == old(self)@.reconcile(),
            forall|path: PathModel|
                old(self)@.pending.contains(path) ==> !final(self)@.files.contains(path),
    {
        let ghost before = self@;
        let ghost keep = |path: PathModel| before.survives(path);
        let mut kept: Vec<FilePath> = Vec::new();
        let mut i: usize = 0;
        while i < self.files.len()
            invariant
                i <= self.files.len(),
                self@ == before,
                keep == (|path: PathModel| before.survives(path)),
                models(kept@) == before.files.take(i as int).filter(keep),
            decreases self.files.len() - i,
        {
            proof {
                lemma_filter_step(before.files, keep, i as int);
            }
            if !holds(&self.deleted, &self.files[i]) {
                let path = self.files[i].clone();
                kept.push(path);
                assert(models(kept@) =~= before.files.take(i as int).filter(keep).push(
                    before.files[i as int],
                ));
            }
            i += 1;
        }
        assert(before.files.take(i as int) =~= before.files);
        self.files = kept;
        self.deleted = Vec::new();
        assert(self@.pending =~= Seq::empty());
        proof {
            lemma_reconcile_drops_pending(before);
        }
    }
}

/// A path that a pending deletion names is not listed after reconciliation.
pub proof fn lemma_reconcile_drops_pending(list: FileListModel)
    ensures
        forall|path: PathModel|
            list.pending.contains(path) ==> !list.reconcile().files.contains(path),
{
    let keep = |path: PathModel| list.survives(path);
    let kept = list.files.filter(keep);
    assert forall|path: PathModel| list.pending.contains(path) implies !kept.contains(path) by {
        if kept.contains(path) {
            let i = choose|i: int| 0 <= i < kept.len() && kept[i] == path;
            list.files.lemma_filter_pred(keep, i);
        }
    }
}

/// Once the file of a row was removed from disk, its path is gone from the listed
/// files at the end of the tick.
pub proof fn lemma_deleted_file_unlisted(list: FileListModel, index: int)
    requires
        0 <= index < list.files.len(),
    ensures
        !list.mark_deleted(index).reconcile().files.contains(list.files[index]),
{
    let marked = list.mark_deleted(index);
    assert(marked.pending.last() == list.files[index]);
    assert(marked.pending.contains(list.files[index]));
    lemma_reconcile_drops_pending(marked);
}

} // verus!
