//! A model of the directory that the launcher works in.
//!
//! The model knows what exists at each path and, for a file, what it holds.
//! It says what each [request](crate::protocol::Request) may do to the
//! directory and which replies it may get. It assumes that nothing else
//! changes the directory while a request is carried out, and nothing more:
//! why a request fails is left open, so any action may fail at any time.

use vstd::prelude::*;
use crate::protocol::{ReplyView, RequestView};

verus! {

/// What there is at a path.
pub enum Entry {
    /// A directory.
    Dir,
    /// A file that holds `contents`.
    File { contents: Seq<u8> },
}

/// The working directory: the paths at which something exists, each with
/// what is there.
pub struct Disk {
    pub entries: Map<Seq<char>, Entry>,
}

impl Disk {
    /// Whether anything exists at `path`.
    pub open spec fn holds(self, path: Seq<char>) -> bool {
        self.entries.contains_key(path)
    }

    /// The disk with `entry` at `path` and everything else as it is.
    pub open spec fn with(self, path: Seq<char>, entry: Entry) -> Disk {
        Disk { entries: self.entries.insert(path, entry) }
    }

    /// Whether `self` and `other` agree everywhere but, at most, at `path`.
    pub open spec fn agrees_but_at(self, other: Disk, path: Seq<char>) -> bool {
        self.entries.remove(path) == other.entries.remove(path)
    }

    /// Two disks that agree but at `path` hold the same at any other path.
    pub proof fn agreement_elsewhere(self, other: Disk, path: Seq<char>, elsewhere: Seq<char>)
        requires
            self.agrees_but_at(other, path),
            elsewhere != path,
        ensures
            self.holds(elsewhere) <==> other.holds(elsewhere),
            self.holds(elsewhere) ==> self.entries[elsewhere] == other.entries[elsewhere],
    {
        assert(self.entries.remove(path).contains_key(elsewhere) <==> self.holds(elsewhere));
        assert(other.entries.remove(path).contains_key(elsewhere) <==> other.holds(elsewhere));
        if self.holds(elsewhere) {
            assert(self.entries.remove(path)[elsewhere] == self.entries[elsewhere]);
            assert(other.entries.remove(path)[elsewhere] == other.entries[elsewhere]);
        }
    }
}

/// Whether carrying out `request` on the disk `before` can end with `reply`
/// and leave the disk as `after`.
///
/// - A probe tells the truth and changes nothing.
/// - A directory that was made is there afterwards; one that was not leaves
///   the disk as it was.
/// - A file that was written is there afterwards and holds what was to be
///   written. Where writing failed, the file may have been created and partly
///   filled all the same; every other path is as it was.
/// - The started companion is free to change the disk; a start that failed
///   changes nothing.
/// - A pause changes nothing, and the end of the run is never carried out.
pub open spec fn carried_out(before: Disk, request: RequestView, reply: ReplyView, after: Disk)
    -> bool {
    match request {
        RequestView::Probe { path } => {
            &&& reply == ReplyView::Exists(before.holds(path))
            &&& after == before
        },
        RequestView::CreateDir { path } => match reply {
            ReplyView::Succeeded => after == before.with(path, Entry::Dir),
            ReplyView::Failed { .. } => after == before,
            _ => false,
        },
        RequestView::WriteNewFile { path, contents } => match reply {
            ReplyView::Succeeded => after == before.with(path, Entry::File { contents }),
            ReplyView::Failed { .. } => after.agrees_but_at(before, path),
            _ => false,
        },
        RequestView::Spawn { .. } => match reply {
            ReplyView::Succeeded => true,
            ReplyView::Failed { .. } => after == before,
            _ => false,
        },
        RequestView::ReadLine => {
            &&& reply == ReplyView::LineRead
            &&& after == before
        },
        RequestView::Finish => false,
    }
}

} // verus!
