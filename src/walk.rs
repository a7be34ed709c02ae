use vstd::prelude::*;

verus! {

/// What a directory listing says an entry is.
#[derive(Clone, Copy, Debug, PartialEq, Eq, Structural)]
pub enum EntryKind {
    Directory,
    File,
}

/// One entry of a directory listing: its full path and its kind.
pub struct Entry {
    pub path: String,
    pub kind: EntryKind,
}

/// The paths of the subdirectories in a listing, in listing order.
pub open spec fn dir_paths(entries: Seq<Entry>) -> Seq<Seq<char>>
    decreases entries.len(),
{
    if entries.len() == 0 {
        seq![]
    } else {
        let rest = dir_paths(entries.drop_last());
        let e = entries.last();
        if e.kind == EntryKind::Directory {
            rest.push(e.path@)
        } else {
            rest
        }
    }
}

/// The paths of the regular files in a listing, in listing order.
pub open spec fn file_paths(entries: Seq<Entry>) -> Seq<Seq<char>>
    decreases entries.len(),
{
    if entries.len() == 0 {
        seq![]
    } else {
        let rest = file_paths(entries.drop_last());
        let e = entries.last();
        if e.kind == EntryKind::File {
            rest.push(e.path@)
        } else {
            rest
        }
    }
}

/// The texts of a sequence of strings.
pub open spec fn texts(v: Seq<String>) -> Seq<Seq<char>> {
    v.map_values(|s: String| s@)
}

/// Every entry of a listing is scheduled once, either as a directory to
/// descend into or as a file to transform, and never as both.
pub proof fn lemma_listing_partition(entries: Seq<Entry>)
    ensures
        dir_paths(entries).len() + file_paths(entries).len() == entries.len(),
        forall|i: int|
            0 <= i < entries.len() && (#[trigger] entries[i]).kind == EntryKind::Directory
                ==> dir_paths(entries).contains(entries[i].path@),
        forall|i: int|
            0 <= i < entries.len() && (#[trigger] entries[i]).kind == EntryKind::File
                ==> file_paths(entries).contains(entries[i].path@),
    decreases entries.len(),
{
    if entries.len() > 0 {
        let init = entries.drop_last();
        lemma_listing_partition(init);
        assert forall|i: int|
            0 <= i < entries.len() && (#[trigger] entries[i]).kind == EntryKind::Directory
                implies dir_paths(entries).contains(entries[i].path@) by {
            if i < entries.len() - 1 {
                assert(init[i] == entries[i]);
                let j = choose|j: int| 0 <= j < dir_paths(init).len() && dir_paths(init)[j] == entries[i].path@;
                assert(dir_paths(entries)[j] == entries[i].path@);
            } else {
                assert(dir_paths(entries).last() == entries[i].path@);
            }
        }
        assert forall|i: int|
            0 <= i < entries.len() && (#[trigger] entries[i]).kind == EntryKind::File
                implies file_paths(entries).contains(entries[i].path@) by {
            if i < entries.len() - 1 {
                assert(init[i] == entries[i]);
                let j = choose|j: int| 0 <= j < file_paths(init).len() && file_paths(init)[j] == entries[i].path@;
                assert(file_paths(entries)[j] == entries[i].path@);
            } else {
                assert(file_paths(entries).last() == entries[i].path@);
            }
        }
    }
}

/// The pending work of a depth-first walk: a stack of directories still to
/// list, and whether the walk was stopped by a failure. A stopped walk hands
/// out no more work.
pub struct Walker {
    pending: Vec<String>,
    halted: bool,
}

impl Walker {
    /// The directories still to list; the next one is the last.
    pub closed spec fn pending(&self) -> Seq<Seq<char>> {
        texts(self.pending@)
    }

    /// Whether a failure stopped the walk.
    pub closed spec fn halted(&self) -> bool {
        self.halted
    }

    /// A walk that starts at `root`.
    pub fn new(root: String) -> (w: Walker)
        ensures
            w.pending() == seq![root@],
            !w.halted(),
    {
        let mut pending: Vec<String> = Vec::new();
        pending.push(root);
        proof {
            assert(texts(pending@) =~= seq![root@]);
        }
        Walker { pending, halted: false }
    }

    /// Whether the walk has nothing more to do.
    pub fn is_done(&self) -> (r: bool)
        ensures
            r == (self.halted() || self.pending().len() == 0),
    {
        self.halted || self.pending.len() == 0
    }

    /// Whether a failure stopped the walk.
    pub fn is_halted(&self) -> (r: bool)
        ensures
            r == self.halted(),
    {
        self.halted
    }

    /// Takes the next directory to list, if the walk has one.
    pub fn next_directory(&mut self) -> (r: Option<String>)
        ensures
            old(self).halted() || old(self).pending().len() == 0 ==> {
                &&& r is None
                &&& final(self).pending() == old(self).pending()
                &&& final(self).halted() == old(self).halted()
            },
            !old(self).halted() && old(self).pending().len() > 0 ==> {
                &&& r matches Some(d) && d@ == old(self).pending().last()
                &&& final(self).pending() == old(self).pending().drop_last()
                &&& !final(self).halted()
            },
    {
        if self.halted {
            return None;
        }
        let r = self.pending.pop();
        proof {
            if old(self).pending@.len() > 0 {
                assert(texts(self.pending@) =~= texts(old(self).pending@).drop_last());
            }
        }
        r
    }

    /// Stops the walk: nothing more is handed out.
    pub fn halt(&mut self)
        ensures
            final(self).halted(),
            final(self).pending().len() == 0,
    {
        self.pending.clear();
        self.halted = true;
    }

    /// Takes the outcome of listing the directory last handed out: `None`
    /// when it could not be listed, which stops the walk. Of a listing, the
    /// subdirectories go on the stack and the files come back, in listing
    /// order, to be transformed. A stopped walk takes nothing more.
    pub fn accept_listing(&mut self, listing: Option<Vec<Entry>>) -> (r: Option<Vec<String>>)
        ensures
            old(self).halted() ==> {
                &&& r is None
                &&& final(self).halted()
                &&& final(self).pending() == old(self).pending()
            },
            !old(self).halted() && listing is None ==> {
                &&& r is None
                &&& final(self).halted()
                &&& final(self).pending().len() == 0
            },
            !old(self).halted() && listing is Some ==> {
                &&& r matches Some(files) && texts(files@) == file_paths(listing->0@)
                &&& final(self).pending() == old(self).pending() + dir_paths(listing->0@)
                &&& !final(self).halted()
            },
    {
        if self.halted {
            return None;
        }
        let entries = match listing {
            Some(entries) => entries,
            None => {
                self.halt();
                return None;
            },
        };
        let mut files: Vec<String> = Vec::new();
        let n = entries.len();
        for i in 0..n
            invariant
                n == entries@.len(),
                !self.halted,
                texts(self.pending@) == texts(old(self).pending@) + dir_paths(entries@.take(i as int)),
                texts(files@) == file_paths(entries@.take(i as int)),
        {
            proof {
                assert(entries@.take(i as int + 1).drop_last() =~= entries@.take(i as int));
                assert(entries@.take(i as int + 1).last() == entries@[i as int]);
            }
            let path = entries[i].path.clone();
            match entries[i].kind {
                EntryKind::Directory => {
                    let ghost before = self.pending@;
                    self.pending.push(path);
                    proof {
                        assert(texts(self.pending@) =~= texts(before).push(path@));
                        assert(dir_paths(entries@.take(i as int + 1)) == dir_paths(
                            entries@.take(i as int),
                        ).push(path@));
                        assert(texts(self.pending@) =~= texts(old(self).pending@) + dir_paths(
                            entries@.take(i as int + 1),
                        ));
                        assert(file_paths(entries@.take(i as int + 1)) == file_paths(entries@.take(i as int)));
                    }
                },
                EntryKind::File => {
                    let ghost before = files@;
                    files.push(path);
                    proof {
                        assert(texts(files@) =~= texts(before).push(path@));
                        assert(file_paths(entries@.take(i as int + 1)) == file_paths(
                            entries@.take(i as int),
                        ).push(path@));
                        assert(texts(files@) =~= file_paths(entries@.take(i as int + 1)));
                        assert(dir_paths(entries@.take(i as int + 1)) == dir_paths(entries@.take(i as int)));
                    }
                },
            }
        }
        proof {
            assert(entries@.take(n as int) =~= entries@);
        }
        Some(files)
    }
}

} // verus!
