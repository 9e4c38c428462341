//! The size of all that lies under a directory, summed up along a
//! breadth-first walk.

use crate::entity::find::{texts_of, DirectoryWalk, Visit};
use crate::entity::kind::NodeFlags;
use crate::entity::size::EntitySize;
use vstd::prelude::*;

verus! {

/// What was found at a path that the walk asked about, as far as sizes go.
#[derive(Debug)]
pub enum Measure {
    /// The node could not be read at all.
    Unreadable,
    /// A node that is no directory, with its length in bytes.
    Leaf(u64),
    /// A directory with the paths of its direct children, none where they
    /// could not be listed. A directory has no length of its own.
    Directory(Vec<String>),
}

impl Measure {
    /// What was found at a node that could be read: by the node's own type a
    /// directory, whose direct children are `children`, or a leaf of `len`
    /// bytes; a link to a directory is a leaf.
    pub fn of_node(flags: &NodeFlags, len: u64, children: Vec<String>) -> (measure: Measure)
        ensures
            measure is Directory <==> flags.is_dir,
            measure is Leaf <==> !flags.is_dir,
            measure.bytes() == if flags.is_dir {
                0
            } else {
                len
            },
            measure.children() == if flags.is_dir {
                texts_of(children@)
            } else {
                Seq::empty()
            },
    {
        if flags.is_dir {
            Measure::Directory(children)
        } else {
            Measure::Leaf(len)
        }
    }

    /// The bytes that the measure adds to the sum.
    pub open spec fn bytes(self) -> u64 {
        match self {
            Measure::Leaf(len) => len,
            _ => 0,
        }
    }

    /// The paths that the measure adds to those still to be walked.
    pub open spec fn children(self) -> Seq<Seq<char>> {
        match self {
            Measure::Directory(children) => texts_of(children@),
            _ => Seq::empty(),
        }
    }
}

/// Where a sum stands: the paths still to be visited and the bytes so far.
pub struct DirectorySizeView {
    pub pending: Seq<Seq<char>>,
    pub total: u64,
}

/// The sum of the lengths of all that lies under a directory, in the
/// making. Whoever drives it takes the next path with `next_path`, reads the
/// node there, and hands the outcome to `record`, until no path is left.
#[derive(Debug)]
pub struct DirectorySize {
    walk: DirectoryWalk,
    total: EntitySize,
}

impl View for DirectorySize {
    type V = DirectorySizeView;

    closed spec fn view(&self) -> DirectorySizeView {
        DirectorySizeView { pending: self.walk@.pending, total: self.total@ }
    }
}

impl DirectorySize {
    /// A sum that has `root` to visit and no byte yet.
    pub fn new(root: String) -> (sum: Self)
        ensures
            sum@ == (DirectorySizeView { pending: seq![root@], total: 0 }),
    {
        Self { walk: DirectoryWalk::new(root), total: EntitySize::new(0) }
    }

    /// Whether no path is left to visit.
    pub fn is_done(&self) -> (done: bool)
        ensures
            done == (self@.pending.len() == 0),
    {
        self.walk.is_done()
    }

    /// Takes the path to visit next: the one that has waited longest.
    pub fn next_path(&mut self) -> (path: Option<String>)
        ensures
            old(self)@.pending.len() == 0 ==> path is None && final(self)@ == old(self)@,
            old(self)@.pending.len() > 0 ==> (path matches Some(p) && p@ == old(self)@.pending[0])
                && final(self)@ == (DirectorySizeView {
                pending: old(self)@.pending.drop_first(),
                ..old(self)@
            }),
    {
        self.walk.next_path()
    }

    /// Whether the sum can take the bytes of `measure` without leaving the
    /// range of 64 bits.
    pub fn fits(&self, measure: &Measure) -> (fits: bool)
        ensures
            fits == (self@.total + measure.bytes() <= u64::MAX),
    {
        match measure {
            Measure::Leaf(len) => *len <= u64::MAX - self.total.size_byte(),
            _ => true,
        }
    }

    /// Records the outcome of visiting the path that `next_path` gave: the
    /// bytes of a leaf join the sum, the children of a directory queue up.
    pub fn record(&mut self, measure: Measure)
        requires
            old(self)@.total + measure.bytes() <= u64::MAX,
        ensures
            final(self)@ == (DirectorySizeView {
                pending: old(self)@.pending + measure.children(),
                total: (old(self)@.total + measure.bytes()) as u64,
            }),
    {
        match measure {
            Measure::Unreadable => {
                self.walk.record(Visit::Unreadable);
            },
            Measure::Leaf(len) => {
                self.total.add(len);
                self.walk.record(Visit::Leaf(None));
            },
            Measure::Directory(children) => {
                self.walk.record(Visit::Directory(None, children));
            },
        }
    }

    /// The sum so far.
    pub fn total(&self) -> (total: EntitySize)
        ensures
            total@ == self@.total,
    {
        self.total
    }
}

} // verus!
