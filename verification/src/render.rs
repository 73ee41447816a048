//! The textual contents of a frame.
//!
//! Every visible row is built here as plain text: the selected row carries a
//! two-character marker, a directory row a trailing separator, the parent
//! row its own fixed text. Rows that would overflow the width are truncated,
//! never wrapped. Drawing the finished lines is the caller's business.

use vstd::prelude::*;
use vstd::string::StrSliceExecFns;
use vstd::string::StringExecFns;

use crate::entry::{EntryV, ListEntry, ListEntryKind};
use crate::fs_path::FsPath;

verus! {

/// The name an entry is listed under: the last component of its target, or
/// a placeholder when the target has none (or there is no target at all).
pub open spec fn spec_base_text(e: EntryV) -> Seq<char> {
    match e.target {
        Some(p) => if p.len() > 0 {
            p.last()
        } else {
            "?"@
        },
        None => "?"@,
    }
}

/// The unmarked text of one row: the parent row is its own fixed text, a
/// directory carries a trailing separator, a file is its bare name.
pub open spec fn spec_row_text(e: EntryV) -> Seq<char> {
    match e.kind {
        ListEntryKind::Parent => "../"@,
        ListEntryKind::Dir => spec_base_text(e) + "/"@,
        ListEntryKind::File => spec_base_text(e),
    }
}

/// The first `width` characters of `s`, or all of `s` if it fits.
pub open spec fn spec_truncate(s: Seq<char>, width: int) -> Seq<char> {
    if s.len() <= width {
        s
    } else {
        s.subrange(0, width)
    }
}

/// A finished row: the selection marker, then the row text, truncated.
pub open spec fn spec_row(selected: bool, text: Seq<char>, width: int) -> Seq<char> {
    spec_truncate(
        (if selected {
            "> "@
        } else {
            "  "@
        }) + text,
        width,
    )
}

/// The text a path is displayed as: the separator-joined components below
/// the root, or the bare separator for the root itself.
pub open spec fn spec_path_tail(p: Seq<Seq<char>>) -> Seq<char>
    decreases p.len(),
{
    if p.len() == 0 {
        Seq::<char>::empty()
    } else {
        spec_path_tail(p.drop_last()) + "/"@ + p.last()
    }
}

/// The display text of a whole path.
pub open spec fn spec_path_text(p: Seq<Seq<char>>) -> Seq<char> {
    if p.len() == 0 {
        "/"@
    } else {
        spec_path_tail(p)
    }
}

fn base_text(e: &ListEntry) -> (r: String)
    ensures
        r@ == spec_base_text(e@),
{
    match e.target() {
        Some(p) => match p.last() {
            Some(name) => name.clone(),
            None => String::from_str("?"),
        },
        None => String::from_str("?"),
    }
}

/// The unmarked text of one row.
pub fn row_text(e: &ListEntry) -> (r: String)
    ensures
        r@ == spec_row_text(e@),
{
    match e.kind() {
        ListEntryKind::Parent => String::from_str("../"),
        ListEntryKind::Dir => base_text(e).concat("/"),
        ListEntryKind::File => base_text(e),
    }
}

/// At most the first `width` characters of `s`.
pub fn truncate_text(s: String, width: usize) -> (r: String)
    ensures
        r@ == spec_truncate(s@, width as int),
{
    let n = s.as_str().unicode_len();
    if n <= width {
        s
    } else {
        String::from_str(s.as_str().substring_char(0, width))
    }
}

/// One finished row of the frame, marked if selected and truncated to the
/// terminal width.
pub fn format_row(selected: bool, text: &String, width: usize) -> (r: String)
    ensures
        r@ == spec_row(selected, text@, width as int),
{
    let prefix = if selected {
        String::from_str("> ")
    } else {
        String::from_str("  ")
    };
    truncate_text(prefix.concat(text.as_str()), width)
}

/// The display text of a path.
pub fn path_text(p: &FsPath) -> (r: String)
    ensures
        r@ == spec_path_text(p@),
{
    if p.is_root() {
        return String::from_str("/");
    }
    let comps = p.components();
    let mut s = String::new();
    proof {
        assert(p@.subrange(0, 0) =~= Seq::<Seq<char>>::empty());
        assert(s@ =~= spec_path_tail(p@.subrange(0, 0)));
    }
    let mut i: usize = 0;
    while i < comps.len()
        invariant
            comps.deep_view() == p@,
            p@.len() == comps@.len(),
            i <= comps@.len(),
            s@ == spec_path_tail(p@.subrange(0, i as int)),
        decreases comps@.len() - i,
    {
        s.append("/");
        s.append(comps[i].as_str());
        proof {
            assert(p@.subrange(0, i as int + 1).drop_last() =~= p@.subrange(0, i as int));
            assert(p@.subrange(0, i as int + 1).last() == p@[i as int]);
            assert(s@ =~= spec_path_tail(p@.subrange(0, i as int + 1)));
        }
        i = i + 1;
    }
    proof {
        assert(p@.subrange(0, p@.len() as int) =~= p@);
    }
    s
}

} // verus!
