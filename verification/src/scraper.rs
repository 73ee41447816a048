//! The navigation state machine and its frame contract.
//!
//! `DirScraper` owns where the browser is, what is listed, what is selected,
//! what was selected before each descent, and which slice of the list is on
//! screen. Directory contents are handed in as plain values by the caller
//! (the filesystem read itself is an external collaborator), so every
//! transition here is all-or-nothing: a failed change of directory leaves
//! the whole state untouched.

use vstd::prelude::*;
use vstd::string::StringExecFns;

use crate::entry::{
    spec_list, lemma_list_shape, ChildInfo, ChildV, EntryV, ListEntry, ListEntryKind, list,
};
use crate::errors::{spec_to_nav, NavError, PathError};
use crate::fs_path::FsPath;
use crate::render::{
    format_row, path_text, row_text, spec_path_text, spec_row, spec_row_text, spec_truncate,
    truncate_text,
};
use crate::rover::{spec_shift, Direction, Rover};
use crate::viewport::{spec_compute, Rect, RectV};

verus! {

/// The session flag: which future feature set is active. `Command` is an
/// extension point and carries no behaviour of its own yet.
#[derive(Clone, Copy, Debug, PartialEq, Eq, Structural)]
pub enum Mode {
    /// The ordinary browsing mode.
    Flow,
    /// The reserved command mode.
    Command,
}

/// The display name of a mode.
pub open spec fn spec_mode_name(m: Mode) -> Seq<char> {
    match m {
        Mode::Flow => "Flow"@,
        Mode::Command => "Command"@,
    }
}

/// The display name of a mode.
pub fn mode_name(m: Mode) -> (r: String)
    ensures
        r@ == spec_mode_name(m),
{
    match m {
        Mode::Flow => String::from_str("Flow"),
        Mode::Command => String::from_str("Command"),
    }
}

/// The header line: the current path, then the mode in brackets.
pub open spec fn spec_header(path: Seq<Seq<char>>, m: Mode) -> Seq<char> {
    spec_path_text(path) + "  ["@ + spec_mode_name(m) + "]"@
}

/// The header line of a frame.
pub fn header_text(path: &FsPath, m: Mode) -> (r: String)
    ensures
        r@ == spec_header(path@, m),
{
    let mut s = path_text(path);
    s.append("  [");
    s.append(mode_name(m).as_str());
    s.append("]");
    proof {
        assert(s@ =~= spec_header(path@, m));
    }
    s
}

/// What activating the selected entry asks the caller to do.
#[derive(Debug)]
pub enum EntryAction {
    /// Nothing is selected: nothing to do.
    Idle,
    /// Change directory to this path.
    Enter(FsPath),
    /// Open this file with the OS's registered default handler.
    Open(FsPath),
    /// The parent row at the filesystem root: it has no target, so the
    /// request is reported as `AtRoot` rather than looping onto itself.
    Root,
}

/// The model of the whole browser state.
pub ghost struct ScraperView {
    /// Whether a quit command has been received.
    pub should_exit: bool,
    /// The directory currently displayed.
    pub current_path: Seq<Seq<char>>,
    /// The catalog of `current_path`, parent entry first.
    pub entries: Seq<EntryV>,
    /// First visible index of the viewport.
    pub offset: usize,
    /// The highlighted index; `None` only before the first load.
    pub pivot: Option<usize>,
    /// Maximum number of visible list rows.
    pub capacity: usize,
    /// The pivots saved at each descent, oldest first.
    pub history: Seq<usize>,
    /// The session mode flag.
    pub mode: Mode,
    /// The terminal dimensions last reported.
    pub dimens: RectV,
}

impl ScraperView {
    /// Well-formedness: the pivot is defined and in range exactly when
    /// entries are listed, the first entry is always the synthetic parent,
    /// every other entry carries a target, and at least one row is visible.
    pub open spec fn wf(self) -> bool {
        &&& self.capacity >= 1
        &&& (self.entries.len() > 0 <==> self.pivot is Some)
        &&& (self.pivot is Some ==> (self.pivot->Some_0 as int) < self.entries.len())
        &&& (self.entries.len() > 0 ==> self.entries[0].kind == ListEntryKind::Parent)
        &&& (forall|i: int|
            1 <= i < self.entries.len() ==> (#[trigger] self.entries[i]).kind
                != ListEntryKind::Parent && self.entries[i].target is Some)
    }
}

/// Whether changing directory from `cur` to `target` is a descent: the
/// target is a direct child of the current directory.
pub open spec fn is_descent(cur: Seq<Seq<char>>, target: Seq<Seq<char>>) -> bool {
    target.len() > 0 && target.drop_last() == cur
}

/// How many list rows fit a terminal of height `h`: one row is reserved for
/// the header, and at least one list row is always kept.
pub open spec fn spec_row_capacity(h: usize) -> usize {
    if h >= 2 {
        (h - 1) as usize
    } else {
        1usize
    }
}

/// The state after a successful change of directory: the target's catalog
/// replaces the entries wholesale, the pivot returns to the first entry and
/// the window to the top, and on a descent the pivot left behind is saved.
pub open spec fn spec_goto(s: ScraperView, target: Seq<Seq<char>>, kids: Seq<ChildV>) -> ScraperView {
    ScraperView {
        current_path: target,
        entries: spec_list(target, kids),
        offset: 0,
        pivot: Some(0usize),
        history: if is_descent(s.current_path, target) && s.pivot is Some {
            s.history.push(s.pivot->Some_0)
        } else {
            s.history
        },
        ..s
    }
}

/// The state after a successful ascent: a change of directory to the parent,
/// followed by restoring the most recently saved pivot, clamped to the new
/// entry count, if any pivot is saved.
pub open spec fn spec_ascend(s: ScraperView, kids: Seq<ChildV>) -> ScraperView {
    let g = spec_goto(s, s.current_path.drop_last(), kids);
    if s.history.len() > 0 {
        let p = s.history.last() as int;
        let len = g.entries.len() as int;
        let restored = if p < len {
            p
        } else {
            len - 1
        };
        ScraperView { pivot: Some(restored as usize), history: s.history.drop_last(), ..g }
    } else {
        g
    }
}

/// The state the browser starts in.
pub open spec fn spec_init(path: Seq<Seq<char>>, dimens: RectV, kids: Seq<ChildV>) -> ScraperView {
    ScraperView {
        should_exit: false,
        current_path: path,
        entries: spec_list(path, kids),
        offset: 0,
        pivot: Some(0usize),
        capacity: spec_row_capacity(dimens.h),
        history: Seq::<usize>::empty(),
        mode: Mode::Flow,
        dimens,
    }
}

/// The directory browser: current path, catalog, selection, pivot history,
/// viewport, and session flags.
pub struct DirScraper {
    should_exit: bool,
    current_path: FsPath,
    rover: Rover<ListEntry>,
    pivot_history: Vec<usize>,
    mode: Mode,
    terminal_dimens: Rect,
}

impl View for DirScraper {
    type V = ScraperView;

    closed spec fn view(&self) -> ScraperView {
        ScraperView {
            should_exit: self.should_exit,
            current_path: self.current_path@,
            entries: self.rover@.entries,
            offset: self.rover@.offset,
            pivot: self.rover@.pivot,
            capacity: self.rover@.capacity,
            history: self.pivot_history@,
            mode: self.mode,
            dimens: self.terminal_dimens@,
        }
    }
}

impl DirScraper {
    /// Starts the browser at `path`, whose listing the caller supplies. A
    /// listing failure is returned as the startup error, the browser never
    /// built.
    pub fn init(path: FsPath, dimens: Rect, listing: Result<Vec<ChildInfo>, PathError>) -> (r:
        Result<DirScraper, PathError>)
        ensures
            listing is Err ==> r is Err && r->Err_0 == listing->Err_0,
            listing is Ok ==> r is Ok && r->Ok_0@ == spec_init(
                path@,
                dimens@,
                listing->Ok_0.deep_view(),
            ) && r->Ok_0@.wf(),
    {
        let children = match listing {
            Ok(c) => c,
            Err(e) => {
                return Err(e);
            },
        };
        proof {
            lemma_list_shape(path@, children.deep_view());
        }
        let entries = list(&path, &children);
        let capacity = if dimens.height() >= 2 {
            dimens.height() - 1
        } else {
            1
        };
        let mut rover = Rover::<ListEntry>::new(capacity);
        rover.reset(entries);
        Ok(
            DirScraper {
                should_exit: false,
                current_path: path,
                rover,
                pivot_history: Vec::new(),
                mode: Mode::Flow,
                terminal_dimens: dimens,
            },
        )
    }

    /// Changes directory to `target`, whose listing the caller supplies.
    /// All-or-nothing: on a listing failure the error is returned and the
    /// whole state is left unchanged.
    pub fn goto(&mut self, target: &FsPath, listing: Result<Vec<ChildInfo>, PathError>) -> (r:
        Result<(), PathError>)
        requires
            old(self)@.wf(),
        ensures
            listing is Err ==> r is Err && r->Err_0 == listing->Err_0 && *final(self) == *old(
                self,
            ),
            listing is Ok ==> r is Ok && final(self)@ == spec_goto(
                old(self)@,
                target@,
                listing->Ok_0.deep_view(),
            ),
            final(self)@.wf(),
    {
        let children = match listing {
            Ok(c) => c,
            Err(e) => {
                return Err(e);
            },
        };
        proof {
            lemma_list_shape(target@, children.deep_view());
        }
        let descent = match target.parent() {
            Some(tp) => tp.eq_path(&self.current_path),
            None => false,
        };
        if descent {
            match self.rover.pivot() {
                Some(p) => self.pivot_history.push(p),
                None => {},
            }
        }
        let entries = list(target, &children);
        self.current_path = target.clone_path();
        self.rover.reset(entries);
        Ok(())
    }

    /// Ascends to the parent directory, whose listing the caller supplies,
    /// and restores the most recently saved pivot, clamped to the new entry
    /// count. At the filesystem root it reports `AtRoot` and changes
    /// nothing; on a listing failure it surfaces that error and changes
    /// nothing.
    pub fn to_parent_entry(&mut self, listing: Result<Vec<ChildInfo>, PathError>) -> (r: Result<
        (),
        NavError,
    >)
        requires
            old(self)@.wf(),
        ensures
            old(self)@.current_path.len() == 0 ==> r == Result::<(), NavError>::Err(
                NavError::AtRoot,
            ) && *final(self) == *old(self),
            old(self)@.current_path.len() > 0 && listing is Err ==> r is Err && r->Err_0
                == spec_to_nav(listing->Err_0) && *final(self) == *old(self),
            old(self)@.current_path.len() > 0 && listing is Ok ==> r is Ok && final(self)@
                == spec_ascend(old(self)@, listing->Ok_0.deep_view()),
            final(self)@.wf(),
    {
        let parent = match self.current_path.parent() {
            Some(p) => p,
            None => {
                return Err(NavError::AtRoot);
            },
        };
        match self.goto(&parent, listing) {
            Ok(()) => {},
            Err(e) => {
                return Err(e.to_nav());
            },
        }
        if self.pivot_history.len() > 0 {
            let p = match self.pivot_history.pop() {
                Some(p) => p,
                None => 0,
            };
            let len = self.rover.len();
            let idx = if p < len {
                p
            } else {
                len - 1
            };
            let _ = self.rover.set_selected(idx);
        }
        Ok(())
    }

    /// What activating the selected entry asks for: enter a directory (the
    /// parent row included), open a file, report the root's no-op parent
    /// row, or nothing while the list is empty.
    pub fn selected_action(&self) -> (r: EntryAction)
        requires
            self@.wf(),
        ensures
            self@.pivot is None ==> r == EntryAction::Idle,
            self@.pivot is Some ==> ({
                let e = self@.entries[self@.pivot->Some_0 as int];
                &&& (e.kind == ListEntryKind::File ==> (r matches EntryAction::Open(p) && p@
                    == e.target->Some_0))
                &&& (e.kind == ListEntryKind::Dir ==> (r matches EntryAction::Enter(p) && p@
                    == e.target->Some_0))
                &&& (e.kind == ListEntryKind::Parent && e.target is Some ==> (r
                    matches EntryAction::Enter(p) && p@ == e.target->Some_0))
                &&& (e.kind == ListEntryKind::Parent && e.target is None ==> r
                    == EntryAction::Root)
            }),
    {
        let entry = match self.rover.selected_ref() {
            Some(e) => e,
            None => {
                return EntryAction::Idle;
            },
        };
        match entry.kind() {
            ListEntryKind::File => match entry.target() {
                Some(p) => EntryAction::Open(p.clone_path()),
                None => {
                    proof {
                        assert(false);
                    }
                    EntryAction::Idle
                },
            },
            ListEntryKind::Dir => match entry.target() {
                Some(p) => EntryAction::Enter(p.clone_path()),
                None => {
                    proof {
                        assert(false);
                    }
                    EntryAction::Idle
                },
            },
            ListEntryKind::Parent => match entry.target() {
                Some(p) => EntryAction::Enter(p.clone_path()),
                None => EntryAction::Root,
            },
        }
    }

    /// Moves the pivot one step with cyclic wraparound; a no-op while the
    /// list is empty.
    pub fn shift(&mut self, d: Direction)
        requires
            old(self)@.wf(),
        ensures
            old(self)@.pivot is None ==> *final(self) == *old(self),
            old(self)@.pivot is Some ==> final(self)@ == (ScraperView {
                pivot: final(self)@.pivot,
                ..old(self)@
            }) && final(self)@.pivot is Some && (final(self)@.pivot->Some_0 as int) == spec_shift(
                old(self)@.pivot->Some_0 as int,
                d,
                old(self)@.entries.len() as int,
            ),
            final(self)@.wf(),
    {
        self.rover.shift(d);
    }

    /// Selects the given index, or rejects it as out of range, leaving the
    /// whole state unchanged.
    pub fn set_selected(&mut self, idx: usize) -> (r: Result<(), NavError>)
        requires
            old(self)@.wf(),
        ensures
            (idx as int) < old(self)@.entries.len() ==> r is Ok && final(self)@ == (ScraperView {
                pivot: Some(idx),
                ..old(self)@
            }),
            (idx as int) >= old(self)@.entries.len() ==> r == Result::<(), NavError>::Err(
                NavError::IndexOutOfRange,
            ) && *final(self) == *old(self),
            final(self)@.wf(),
    {
        self.rover.set_selected(idx)
    }

    /// Records a terminal resize: the stored dimensions change and the row
    /// capacity follows the new height. The offset is re-derived at the
    /// next render.
    pub fn resize(&mut self, w: usize, h: usize)
        requires
            old(self)@.wf(),
        ensures
            final(self)@ == (ScraperView {
                capacity: spec_row_capacity(h),
                dimens: RectV { x: old(self)@.dimens.x, y: old(self)@.dimens.y, w, h },
                ..old(self)@
            }),
            final(self)@.wf(),
    {
        self.terminal_dimens.resize(w, h);
        let capacity = if h >= 2 {
            h - 1
        } else {
            1
        };
        self.rover.resize(capacity);
    }

    /// Whether a quit command has been received.
    pub fn should_exit(&self) -> (r: bool)
        ensures
            r == self@.should_exit,
    {
        self.should_exit
    }

    /// Records a quit command; only the exit flag changes.
    pub fn request_exit(&mut self)
        ensures
            final(self)@ == (ScraperView { should_exit: true, ..old(self)@ }),
    {
        self.should_exit = true;
    }

    /// The session mode flag.
    pub fn mode(&self) -> (r: Mode)
        ensures
            r == self@.mode,
    {
        self.mode
    }

    /// Sets the session mode flag; only the mode changes.
    pub fn set_mode(&mut self, m: Mode)
        ensures
            final(self)@ == (ScraperView { mode: m, ..old(self)@ }),
    {
        self.mode = m;
    }

    /// The directory currently displayed.
    pub fn current_path(&self) -> (r: &FsPath)
        ensures
            r@ == self@.current_path,
    {
        &self.current_path
    }

    /// The highlighted index, if any.
    pub fn pivot(&self) -> (r: Option<usize>)
        ensures
            r == self@.pivot,
    {
        self.rover.pivot()
    }

    /// First visible index of the viewport.
    pub fn offset(&self) -> (r: usize)
        ensures
            r == self@.offset,
    {
        self.rover.offset()
    }

    /// Maximum number of visible list rows.
    pub fn capacity(&self) -> (r: usize)
        ensures
            r == self@.capacity,
    {
        self.rover.capacity()
    }

    /// How many entries are listed.
    pub fn entry_count(&self) -> (r: usize)
        ensures
            r == self@.entries.len(),
    {
        self.rover.len()
    }

    /// The entry at the given index.
    pub fn entry_at(&self, i: usize) -> (r: &ListEntry)
        requires
            (i as int) < self@.entries.len(),
        ensures
            r@ == self@.entries[i as int],
    {
        self.rover.get(i)
    }

    /// Builds the full frame as plain lines: the header, then each visible
    /// row, the selected one marked, every line truncated to the terminal
    /// width. The offset is re-derived first, so after this call the pivot
    /// row is within the visible window.
    pub fn render_frame(&mut self) -> (r: Vec<String>)
        requires
            old(self)@.wf(),
        ensures
            final(self)@ == (ScraperView { offset: final(self)@.offset, ..old(self)@ }),
            final(self)@.wf(),
            final(self)@.pivot is Some ==> {
                &&& final(self)@.offset <= final(self)@.pivot->Some_0
                &&& (final(self)@.pivot->Some_0 as int) < final(self)@.offset + final(self)@.capacity
                &&& (final(self)@.offset as int) == spec_compute(
                    old(self)@.offset as int,
                    old(self)@.pivot->Some_0 as int,
                    old(self)@.capacity as int,
                    old(self)@.entries.len() as int,
                )
            },
            final(self)@.pivot is None ==> final(self)@.offset == 0,
            r@.len() >= 1,
            r.deep_view()[0] == spec_truncate(
                spec_header(old(self)@.current_path, old(self)@.mode),
                old(self)@.dimens.w as int,
            ),
            (r@.len() as int) == 1 + (if final(self)@.offset + final(self)@.capacity <= final(self)@.entries.len() {
                final(self)@.capacity as int
            } else {
                final(self)@.entries.len() - final(self)@.offset
            }),
            forall|i: int|
                final(self)@.offset <= i < final(self)@.offset + r@.len() - 1
                    ==> r.deep_view()[i - final(self)@.offset + 1] == spec_row(
                    final(self)@.pivot == Some(i as usize),
                    spec_row_text(final(self)@.entries[i]),
                    final(self)@.dimens.w as int,
                ),
    {
        let w = self.terminal_dimens.width();
        let mut frame: Vec<String> = Vec::new();
        let header = truncate_text(header_text(&self.current_path, self.mode), w);
        frame.push(header);
        let range = self.rover.render();
        let start = range.0;
        let end = range.1;
        proof {
            assert(frame.deep_view() =~= seq![
                spec_truncate(spec_header(self.current_path@, self.mode), w as int),
            ]);
        }
        let mut i: usize = start;
        while i < end
            invariant
                self@.wf(),
                start == self@.offset,
                start <= i <= end,
                (end as int) <= self@.entries.len(),
                (end as int) <= start + self@.capacity,
                w == self@.dimens.w,
                frame@.len() == 1 + i - start,
                frame.deep_view()[0] == spec_truncate(
                    spec_header(self@.current_path, self@.mode),
                    w as int,
                ),
                forall|j: int|
                    start <= j < i ==> frame.deep_view()[j - start + 1] == spec_row(
                        self@.pivot == Some(j as usize),
                        spec_row_text(self@.entries[j]),
                        w as int,
                    ),
            decreases end - i,
        {
            let e = self.rover.get(i);
            let text = row_text(e);
            let selected = match self.rover.pivot() {
                Some(p) => p == i,
                None => false,
            };
            let ghost before = frame.deep_view();
            frame.push(format_row(selected, &text, w));
            proof {
                assert(frame.deep_view() =~= before.push(
                    spec_row(self@.pivot == Some(i as usize), spec_row_text(self@.entries[i as int]), w as int),
                ));
            }
            i = i + 1;
        }
        frame
    }
}

/// Descending into a selected subdirectory and then ascending returns to the
/// starting directory with the starting pivot restored, provided the
/// directory still has room for it (the restored pivot is clamped
/// otherwise), and leaves the pivot history as it began.
pub proof fn lemma_round_trip(
    s: ScraperView,
    name: Seq<char>,
    kids_child: Seq<ChildV>,
    kids_back: Seq<ChildV>,
)
    requires
        s.wf(),
        s.pivot is Some,
        s.entries[s.pivot->Some_0 as int].kind == ListEntryKind::Dir,
        s.entries[s.pivot->Some_0 as int].target == Some(s.current_path.push(name)),
        (s.pivot->Some_0 as int) < kids_back.len() + 1,
    ensures
        ({
            let s1 = spec_goto(s, s.current_path.push(name), kids_child);
            let s2 = spec_ascend(s1, kids_back);
            &&& s1.pivot == Some(0usize)
            &&& s2.current_path == s.current_path
            &&& s2.pivot == s.pivot
            &&& s2.history == s.history
        }),
{
    let target = s.current_path.push(name);
    assert(target.drop_last() =~= s.current_path);
    let s1 = spec_goto(s, target, kids_child);
    assert(s1.history == s.history.push(s.pivot->Some_0));
    lemma_list_shape(s.current_path, kids_back);
    let s2 = spec_ascend(s1, kids_back);
    assert(!is_descent(s1.current_path, s1.current_path.drop_last()));
    assert(s2.history =~= s.history);
}

} // verus!
