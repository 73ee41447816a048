//! List entries and the entry catalog.
//!
//! A directory's catalog is one synthetic parent entry followed by one entry
//! per direct child. The caller reads the directory and hands the children
//! in as plain `ChildInfo` values; the catalog orders them deterministically:
//! directories first, then files, each group in the order given.

use vstd::prelude::*;

use crate::fs_path::FsPath;

verus! {

/// What one raw directory child looks like to the catalog.
pub struct ChildInfo {
    /// The child's file name (one path component).
    pub name: String,
    /// Whether the child is itself a directory.
    pub is_dir: bool,
}

/// The model of one raw directory child.
pub ghost struct ChildV {
    /// The child's file name.
    pub name: Seq<char>,
    /// Whether the child is itself a directory.
    pub is_dir: bool,
}

impl View for ChildInfo {
    type V = ChildV;

    open spec fn view(&self) -> ChildV {
        ChildV { name: self.name@, is_dir: self.is_dir }
    }
}

impl DeepView for ChildInfo {
    type V = ChildV;

    open spec fn deep_view(&self) -> ChildV {
        self.view()
    }
}

/// What kind of row an entry is.
#[derive(Clone, Copy, Debug, PartialEq, Eq, Structural)]
pub enum ListEntryKind {
    /// A child directory.
    Dir,
    /// A child file (anything that is not a directory).
    File,
    /// The synthetic first row: "navigate to the enclosing directory".
    Parent,
}

/// One row of the entry list.
///
/// A `Dir` or `File` entry always carries the child's path. A `Parent` entry
/// carries the enclosing directory's path, or no target at all when the
/// listed directory is the filesystem root: the root has no parent, so the
/// parent row there is a no-op target and activating it reports `AtRoot`.
#[derive(Debug)]
pub struct ListEntry {
    target: Option<FsPath>,
    kind: ListEntryKind,
}

/// The model of one entry: its target path, if any, and its kind.
pub ghost struct EntryV {
    /// The path this row navigates to or opens.
    pub target: Option<Seq<Seq<char>>>,
    /// What kind of row this is.
    pub kind: ListEntryKind,
}

impl View for ListEntry {
    type V = EntryV;

    closed spec fn view(&self) -> EntryV {
        EntryV {
            target: match self.target {
                Some(p) => Some(p@),
                None => None,
            },
            kind: self.kind,
        }
    }
}

impl DeepView for ListEntry {
    type V = EntryV;

    open spec fn deep_view(&self) -> EntryV {
        self.view()
    }
}

impl ListEntry {
    /// An entry for a direct child of the listed directory.
    pub fn from_dir_entry(path: FsPath, is_dir: bool) -> (r: ListEntry)
        ensures
            r@.target == Some(path@),
            r@.kind == (if is_dir {
                ListEntryKind::Dir
            } else {
                ListEntryKind::File
            }),
    {
        let kind = if is_dir {
            ListEntryKind::Dir
        } else {
            ListEntryKind::File
        };
        ListEntry { target: Some(path), kind }
    }

    /// The synthetic parent entry; `target` is `None` at the filesystem root.
    pub fn parent(target: Option<FsPath>) -> (r: ListEntry)
        ensures
            r@.kind == ListEntryKind::Parent,
            target is Some ==> r@.target == Some(target->Some_0@),
            target is None ==> r@.target is None,
    {
        ListEntry { target, kind: ListEntryKind::Parent }
    }

    /// This entry's kind.
    pub fn kind(&self) -> (r: ListEntryKind)
        ensures
            r == self@.kind,
    {
        self.kind
    }

    /// The path this entry navigates to or opens, if it has one.
    pub fn target(&self) -> (r: Option<&FsPath>)
        ensures
            self@.target is Some ==> r is Some && r->Some_0@ == self@.target->Some_0,
            self@.target is None ==> r is None,
    {
        match &self.target {
            Some(p) => Some(p),
            None => None,
        }
    }

}

/// The target of the synthetic parent entry for a listed directory.
pub open spec fn parent_target(path: Seq<Seq<char>>) -> Option<Seq<Seq<char>>> {
    if path.len() == 0 {
        None
    } else {
        Some(path.drop_last())
    }
}

/// The synthetic parent entry for a listed directory.
pub open spec fn parent_entry(path: Seq<Seq<char>>) -> EntryV {
    EntryV { target: parent_target(path), kind: ListEntryKind::Parent }
}

/// The entry for one child of a listed directory.
pub open spec fn child_entry(path: Seq<Seq<char>>, c: ChildV) -> EntryV {
    EntryV {
        target: Some(path.push(c.name)),
        kind: if c.is_dir {
            ListEntryKind::Dir
        } else {
            ListEntryKind::File
        },
    }
}

/// The entries of the directory children among `kids`, in the given order.
pub open spec fn dir_entries(path: Seq<Seq<char>>, kids: Seq<ChildV>) -> Seq<EntryV>
    decreases kids.len(),
{
    if kids.len() == 0 {
        Seq::<EntryV>::empty()
    } else {
        dir_entries(path, kids.drop_last()) + (if kids.last().is_dir {
            seq![child_entry(path, kids.last())]
        } else {
            Seq::<EntryV>::empty()
        })
    }
}

/// The entries of the file children among `kids`, in the given order.
pub open spec fn file_entries(path: Seq<Seq<char>>, kids: Seq<ChildV>) -> Seq<EntryV>
    decreases kids.len(),
{
    if kids.len() == 0 {
        Seq::<EntryV>::empty()
    } else {
        file_entries(path, kids.drop_last()) + (if !kids.last().is_dir {
            seq![child_entry(path, kids.last())]
        } else {
            Seq::<EntryV>::empty()
        })
    }
}

/// The full catalog of a directory: the parent entry, then the directory
/// children, then the file children.
pub open spec fn spec_list(path: Seq<Seq<char>>, kids: Seq<ChildV>) -> Seq<EntryV> {
    seq![parent_entry(path)] + dir_entries(path, kids) + file_entries(path, kids)
}

/// Together, the directory group and the file group hold one entry per child.
pub proof fn lemma_partition_len(path: Seq<Seq<char>>, kids: Seq<ChildV>)
    ensures
        dir_entries(path, kids).len() + file_entries(path, kids).len() == kids.len(),
    decreases kids.len(),
{
    if kids.len() > 0 {
        lemma_partition_len(path, kids.drop_last());
    }
}

/// A directory with N children lists as exactly N + 1 entries, the first of
/// them the synthetic parent entry.
pub proof fn lemma_list_len(path: Seq<Seq<char>>, kids: Seq<ChildV>)
    ensures
        spec_list(path, kids).len() == kids.len() + 1,
        spec_list(path, kids)[0] == parent_entry(path),
{
    lemma_partition_len(path, kids);
}

/// Every entry of the directory group is a directory row with a target.
proof fn lemma_dir_entries_shape(path: Seq<Seq<char>>, kids: Seq<ChildV>)
    ensures
        forall|i: int|
            0 <= i < dir_entries(path, kids).len() ==> (#[trigger] dir_entries(path, kids)[i]).kind
                == ListEntryKind::Dir && dir_entries(path, kids)[i].target is Some,
    decreases kids.len(),
{
    if kids.len() > 0 {
        lemma_dir_entries_shape(path, kids.drop_last());
    }
}

/// Every entry of the file group is a file row with a target.
proof fn lemma_file_entries_shape(path: Seq<Seq<char>>, kids: Seq<ChildV>)
    ensures
        forall|i: int|
            0 <= i < file_entries(path, kids).len() ==> (#[trigger] file_entries(path, kids)[i]).kind
                == ListEntryKind::File && file_entries(path, kids)[i].target is Some,
    decreases kids.len(),
{
    if kids.len() > 0 {
        lemma_file_entries_shape(path, kids.drop_last());
    }
}

/// The shape of a catalog: one entry per child plus the parent entry first,
/// and every child row carries its target path.
pub proof fn lemma_list_shape(path: Seq<Seq<char>>, kids: Seq<ChildV>)
    ensures
        spec_list(path, kids).len() == kids.len() + 1,
        spec_list(path, kids)[0] == parent_entry(path),
        forall|i: int|
            1 <= i < spec_list(path, kids).len() ==> (#[trigger] spec_list(path, kids)[i]).kind
                != ListEntryKind::Parent && spec_list(path, kids)[i].target is Some,
{
    lemma_list_len(path, kids);
    lemma_dir_entries_shape(path, kids);
    lemma_file_entries_shape(path, kids);
}

/// Appending one more child extends the directory group by its entry when it
/// is a directory, and leaves the group unchanged otherwise.
proof fn lemma_groups_snoc(path: Seq<Seq<char>>, kids: Seq<ChildV>, i: int)
    requires
        0 <= i < kids.len(),
    ensures
        dir_entries(path, kids.subrange(0, i + 1)) == dir_entries(path, kids.subrange(0, i)) + (
        if kids[i].is_dir {
            seq![child_entry(path, kids[i])]
        } else {
            Seq::<EntryV>::empty()
        }),
        file_entries(path, kids.subrange(0, i + 1)) == file_entries(path, kids.subrange(0, i)) + (
        if !kids[i].is_dir {
            seq![child_entry(path, kids[i])]
        } else {
            Seq::<EntryV>::empty()
        }),
{
    assert(kids.subrange(0, i + 1).drop_last() =~= kids.subrange(0, i));
    assert(kids.subrange(0, i + 1).last() == kids[i]);
}

/// Lists a directory: the synthetic parent entry first, then one entry per
/// child, directories before files, each group in the order given.
pub fn list(path: &FsPath, children: &Vec<ChildInfo>) -> (r: Vec<ListEntry>)
    ensures
        r.deep_view() == spec_list(path@, children.deep_view()),
        r@.len() == children@.len() + 1,
        r.deep_view()[0] == parent_entry(path@),
{
    let ghost kids: Seq<ChildV> = children.deep_view();
    let mut r: Vec<ListEntry> = Vec::new();
    r.push(ListEntry::parent(path.parent()));
    proof {
        assert(r.deep_view() =~= seq![parent_entry(path@)]);
        assert(kids.subrange(0, 0) =~= Seq::<ChildV>::empty());
    }
    let mut i: usize = 0;
    while i < children.len()
        invariant
            i <= children@.len(),
            kids == children.deep_view(),
            kids.len() == children@.len(),
            r.deep_view() == seq![parent_entry(path@)] + dir_entries(
                path@,
                kids.subrange(0, i as int),
            ),
        decreases children@.len() - i,
    {
        proof {
            lemma_groups_snoc(path@, kids, i as int);
        }
        if children[i].is_dir {
            let child_path = path.join(children[i].name.clone());
            let ghost before = r.deep_view();
            r.push(ListEntry::from_dir_entry(child_path, true));
            proof {
                assert(r.deep_view() =~= before.push(child_entry(path@, kids[i as int])));
                assert(r.deep_view() =~= seq![parent_entry(path@)] + dir_entries(
                    path@,
                    kids.subrange(0, i as int + 1),
                ));
            }
        } else {
            proof {
                assert(r.deep_view() =~= seq![parent_entry(path@)] + dir_entries(
                    path@,
                    kids.subrange(0, i as int + 1),
                ));
            }
        }
        i = i + 1;
    }
    proof {
        assert(kids.subrange(0, kids.len() as int) =~= kids);
        assert(kids.subrange(0, 0) =~= Seq::<ChildV>::empty());
    }
    let ghost after_dirs = r.deep_view();
    let mut j: usize = 0;
    while j < children.len()
        invariant
            j <= children@.len(),
            kids == children.deep_view(),
            kids.len() == children@.len(),
            after_dirs == seq![parent_entry(path@)] + dir_entries(path@, kids),
            r.deep_view() == after_dirs + file_entries(path@, kids.subrange(0, j as int)),
        decreases children@.len() - j,
    {
        proof {
            lemma_groups_snoc(path@, kids, j as int);
        }
        if !children[j].is_dir {
            let child_path = path.join(children[j].name.clone());
            let ghost before = r.deep_view();
            r.push(ListEntry::from_dir_entry(child_path, false));
            proof {
                assert(r.deep_view() =~= before.push(child_entry(path@, kids[j as int])));
                assert(r.deep_view() =~= after_dirs + file_entries(
                    path@,
                    kids.subrange(0, j as int + 1),
                ));
            }
        } else {
            proof {
                assert(r.deep_view() =~= after_dirs + file_entries(
                    path@,
                    kids.subrange(0, j as int + 1),
                ));
            }
        }
        j = j + 1;
    }
    proof {
        assert(kids.subrange(0, kids.len() as int) =~= kids);
        assert(r.deep_view() =~= spec_list(path@, kids));
        lemma_list_len(path@, kids);
    }
    r
}

} // verus!
