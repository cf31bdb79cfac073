//! Reading a directory entry by entry.
//!
//! An open directory is a cursor with two states, open and exhausted. An
//! open cursor describes the native read call, and each step hands the
//! cursor what that call left behind. A step that yields an entry asks the
//! directory for its position, an answer that is not used. An answer that
//! reports failure or the end of the stream exhausts the cursor, and that
//! step, and no other, asks for the native descriptor to be closed. An
//! exhausted cursor describes no call, yields nothing and asks for nothing.

use crate::call::FileHandle;
use crate::marshal::{lossy_text, text_of_native, until_terminator};
use vstd::prelude::*;

verus! {

/// One entry of a directory.
#[derive(Debug, PartialEq, Eq)]
pub struct DirEntry {
    /// The entry's name.
    pub path: String,
    /// The entry's inode number.
    pub inode: libc::ino_t,
    /// The entry's type, in the platform's encoding.
    pub file_type: libc::c_uchar,
}

/// What a directory entry holds.
pub struct DirEntryView {
    pub path: Seq<char>,
    pub inode: libc::ino_t,
    pub file_type: libc::c_uchar,
}

impl View for DirEntry {
    type V = DirEntryView;

    open spec fn view(&self) -> DirEntryView {
        DirEntryView { path: self.path@, inode: self.inode, file_type: self.file_type }
    }
}

/// What the native read call leaves behind: its status code, the address of
/// the entry that it read (zero where the stream had none left), and the
/// fields of the record that it filled. The name is the record's name field
/// as it stands, a native string followed by whatever the field held before.
#[derive(Debug, PartialEq, Eq)]
pub struct Lookahead {
    pub code: i32,
    pub next_entry: usize,
    pub name: Vec<u8>,
    pub inode: libc::ino_t,
    pub file_type: libc::c_uchar,
}

/// What an answer of the native read call holds.
pub struct LookaheadView {
    pub code: i32,
    pub next_entry: usize,
    pub name: Seq<u8>,
    pub inode: libc::ino_t,
    pub file_type: libc::c_uchar,
}

impl View for Lookahead {
    type V = LookaheadView;

    open spec fn view(&self) -> LookaheadView {
        LookaheadView {
            code: self.code,
            next_entry: self.next_entry,
            name: self.name@,
            inode: self.inode,
            file_type: self.file_type,
        }
    }
}

/// The native call that reads the next record of an open directory.
#[derive(Debug, PartialEq, Eq)]
pub struct ReaddirCall {
    pub fd: FileHandle,
}

/// The native call that asks an open directory for its position. Its
/// answer is not used.
#[derive(Debug, PartialEq, Eq)]
pub struct TelldirCall {
    pub fd: FileHandle,
}

/// The native call that closes an open directory.
#[derive(Debug, PartialEq, Eq)]
pub struct ClosedirCall {
    pub fd: FileHandle,
}

/// The state of a directory cursor.
pub struct DirectoryView {
    pub handle: FileHandle,
    pub exhausted: bool,
}

/// A cursor over the entries of an open directory.
#[derive(Debug)]
pub struct GlusterDirectory {
    dir_handle: FileHandle,
    exhausted: bool,
}

impl View for GlusterDirectory {
    type V = DirectoryView;

    closed spec fn view(&self) -> DirectoryView {
        DirectoryView { handle: self.dir_handle, exhausted: self.exhausted }
    }
}

/// True of an answer that ends the iteration: the call failed, or no entry
/// follows.
pub open spec fn ends_stream(answer: LookaheadView) -> bool {
    answer.code < 0 || answer.next_entry == 0
}

/// The entry that an answer describes.
pub open spec fn entry_of(answer: LookaheadView) -> DirEntryView {
    DirEntryView {
        path: lossy_text(until_terminator(answer.name)),
        inode: answer.inode,
        file_type: answer.file_type,
    }
}

/// What one step of a cursor does: the state it leaves, the entry it
/// yields, and the native calls that it asks for, of the position and of
/// the close.
pub struct Step {
    pub state: DirectoryView,
    pub entry: Option<DirEntryView>,
    pub tell: Option<TelldirCall>,
    pub release: Option<ClosedirCall>,
}

/// What one step of a cursor hands back: the entry it yields, and the
/// native calls to make before the next step, of the position and of the
/// close.
#[derive(Debug, PartialEq, Eq)]
pub struct Advance {
    pub entry: Option<DirEntry>,
    pub tell: Option<TelldirCall>,
    pub close: Option<ClosedirCall>,
}

/// One step of a cursor in `state` on `answer`.
pub open spec fn step(state: DirectoryView, answer: LookaheadView) -> Step {
    if state.exhausted {
        Step { state, entry: None, tell: None, release: None }
    } else if ends_stream(answer) {
        Step {
            state: DirectoryView { handle: state.handle, exhausted: true },
            entry: None,
            tell: None,
            release: Some(ClosedirCall { fd: state.handle }),
        }
    } else {
        Step {
            state,
            entry: Some(entry_of(answer)),
            tell: Some(TelldirCall { fd: state.handle }),
            release: None,
        }
    }
}

/// What a run of steps does: the state it leaves, the entries it yields in
/// order, and the native calls that it asks for in order, of the position
/// and of the close.
pub struct Run {
    pub state: DirectoryView,
    pub entries: Seq<DirEntryView>,
    pub tells: Seq<TelldirCall>,
    pub releases: Seq<ClosedirCall>,
}

/// The steps of a cursor in `state` on each of `answers` in turn.
pub open spec fn run(state: DirectoryView, answers: Seq<LookaheadView>) -> Run
    decreases answers.len(),
{
    if answers.len() == 0 {
        Run { state, entries: Seq::empty(), tells: Seq::empty(), releases: Seq::empty() }
    } else {
        let first = step(state, answers[0]);
        let rest = run(first.state, answers.drop_first());
        Run {
            state: rest.state,
            entries: match first.entry {
                Some(entry) => seq![entry] + rest.entries,
                None => rest.entries,
            },
            tells: match first.tell {
                Some(tell) => seq![tell] + rest.tells,
                None => rest.tells,
            },
            releases: match first.release {
                Some(release) => seq![release] + rest.releases,
                None => rest.releases,
            },
        }
    }
}

/// A cursor that starts open on `handle`.
pub open spec fn opened(handle: FileHandle) -> DirectoryView {
    DirectoryView { handle, exhausted: false }
}

/// An exhausted cursor stays as it is whatever it is handed: it yields no
/// entry and asks for no native call. The close that exhaustion asked for
/// is the only one, and nothing more is owed for the descriptor.
pub proof fn lemma_exhausted_is_final(state: DirectoryView, answers: Seq<LookaheadView>)
    requires
        state.exhausted,
    ensures
        run(state, answers) == (Run {
            state,
            entries: Seq::empty(),
            tells: Seq::empty(),
            releases: Seq::empty(),
        }),
    decreases answers.len(),
{
    if answers.len() > 0 {
        lemma_exhausted_is_final(state, answers.drop_first());
    }
}

/// Iterating a directory of `records.len()` entries ends: an open cursor
/// that is handed the record of each entry and then an answer that ends the
/// stream yields exactly those entries, in the order of the records, asks
/// for the position once with each entry, asks once for the descriptor to
/// be closed, and is left exhausted.
pub proof fn lemma_iteration_yields_every_entry(
    handle: FileHandle,
    records: Seq<LookaheadView>,
    end: LookaheadView,
)
    requires
        forall|i: int| 0 <= i < records.len() ==> !ends_stream(#[trigger] records[i]),
        ends_stream(end),
    ensures
        run(opened(handle), records.push(end)) == (Run {
            state: DirectoryView { handle, exhausted: true },
            entries: records.map_values(|record: LookaheadView| entry_of(record)),
            tells: records.map_values(|record: LookaheadView| TelldirCall { fd: handle }),
            releases: seq![ClosedirCall { fd: handle }],
        }),
    decreases records.len(),
{
    let answers = records.push(end);
    let state = opened(handle);
    let expected = records.map_values(|record: LookaheadView| entry_of(record));
    let asked = records.map_values(|record: LookaheadView| TelldirCall { fd: handle });
    if records.len() == 0 {
        assert(answers[0] == end);
        lemma_exhausted_is_final(step(state, end).state, answers.drop_first());
        assert(run(state, answers).entries =~= expected);
        assert(run(state, answers).tells =~= asked);
        assert(run(state, answers).releases =~= seq![ClosedirCall { fd: handle }]);
    } else {
        let rest = records.drop_first();
        assert(answers[0] == records[0]);
        assert(answers.drop_first() =~= rest.push(end));
        assert forall|i: int| 0 <= i < rest.len() implies !ends_stream(#[trigger] rest[i]) by {
            assert(rest[i] == records[i + 1]);
        }
        lemma_iteration_yields_every_entry(handle, rest, end);
        let tail = rest.map_values(|record: LookaheadView| entry_of(record));
        assert(seq![entry_of(records[0])] + tail =~= expected);
        let asked_tail = rest.map_values(|record: LookaheadView| TelldirCall { fd: handle });
        assert(seq![TelldirCall { fd: handle }] + asked_tail =~= asked);
    }
}

/// Whatever an open cursor is handed, it asks at most once for its
/// descriptor to be closed, and exactly once where it is left exhausted.
pub proof fn lemma_released_once(handle: FileHandle, answers: Seq<LookaheadView>)
    ensures
        run(opened(handle), answers).state.handle == handle,
        run(opened(handle), answers).state.exhausted ==> run(opened(handle), answers).releases
            == seq![ClosedirCall { fd: handle }],
        !run(opened(handle), answers).state.exhausted ==> run(opened(handle), answers).releases
            == Seq::<ClosedirCall>::empty(),
    decreases answers.len(),
{
    if answers.len() > 0 {
        let first = step(opened(handle), answers[0]);
        if first.state.exhausted {
            lemma_exhausted_is_final(first.state, answers.drop_first());
            assert(run(opened(handle), answers).releases =~= seq![ClosedirCall { fd: handle }]);
        } else {
            lemma_released_once(handle, answers.drop_first());
        }
    }
}

impl GlusterDirectory {
    /// A cursor at the start of the open directory `dir_handle`.
    pub fn new(dir_handle: FileHandle) -> (directory: GlusterDirectory)
        ensures
            directory@ == opened(dir_handle),
    {
        GlusterDirectory { dir_handle, exhausted: false }
    }

    /// The directory's native descriptor.
    pub fn dir_handle(&self) -> (handle: FileHandle)
        ensures
            handle == self@.handle,
    {
        self.dir_handle
    }

    /// True once an answer has ended the iteration. The descriptor is then
    /// closed, or its close has been asked for.
    pub fn is_exhausted(&self) -> (exhausted: bool)
        ensures
            exhausted == self@.exhausted,
    {
        self.exhausted
    }

    /// The native call whose answer the next step takes: a read of the next
    /// record of the directory. An exhausted cursor describes no call: its
    /// descriptor is closed, and the end of the sequence is all that it has
    /// left to report.
    pub fn lookahead(&self) -> (call: Option<ReaddirCall>)
        ensures
            self@.exhausted ==> call is None,
            !self@.exhausted ==> call == Some(ReaddirCall { fd: self@.handle }),
    {
        if self.exhausted {
            return None;
        }
        Some(ReaddirCall { fd: self.dir_handle })
    }

    /// Takes the answer of the native read call and makes one step. An open
    /// cursor yields the entry that the answer describes and asks for the
    /// directory's position, unless the answer reports failure or the end of
    /// the stream: then the cursor becomes exhausted, yields nothing, and
    /// asks for its descriptor to be closed. An exhausted cursor yields
    /// nothing and asks for nothing.
    pub fn next(&mut self, answer: Lookahead) -> (r: Advance)
        ensures
            final(self)@ == step(old(self)@, answer@).state,
            r.tell == step(old(self)@, answer@).tell,
            r.close == step(old(self)@, answer@).release,
            match r.entry {
                Some(entry) => step(old(self)@, answer@).entry == Some(entry@),
                None => step(old(self)@, answer@).entry is None,
            },
    {
        if self.exhausted {
            return Advance { entry: None, tell: None, close: None };
        }
        if answer.code < 0 || answer.next_entry == 0 {
            self.exhausted = true;
            return Advance {
                entry: None,
                tell: None,
                close: Some(ClosedirCall { fd: self.dir_handle }),
            };
        }
        let path = text_of_native(answer.name.as_slice());
        Advance {
            entry: Some(DirEntry { path, inode: answer.inode, file_type: answer.file_type }),
            tell: Some(TelldirCall { fd: self.dir_handle }),
            close: None,
        }
    }
}

} // verus!
