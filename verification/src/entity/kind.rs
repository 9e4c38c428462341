//! What sort of filesystem node an entity is.

use vstd::prelude::*;

verus! {

/// The sort of a node, taken from the node itself and not from what a
/// symbolic link points to.
#[derive(Debug, PartialEq, Eq, Clone, Copy, Hash, Structural)]
pub enum EntityKind {
    File,
    Directory,
    Symlink,
    Block,
    Character,
    Pipe,
    Socket,
    Unknown,
}

/// What the operating system says of a node's type, one answer per question.
#[derive(Debug, PartialEq, Eq, Clone, Copy, Structural)]
pub struct NodeFlags {
    pub is_file: bool,
    pub is_dir: bool,
    pub is_symlink: bool,
    pub is_block_device: bool,
    pub is_char_device: bool,
    pub is_fifo: bool,
    pub is_socket: bool,
}

/// The kind for `flags`: the first of file, directory, symbolic link, block
/// device, character device, pipe and socket that the flags affirm, and
/// `Unknown` where they affirm none.
pub open spec fn kind_of_flags(flags: NodeFlags) -> EntityKind {
    if flags.is_file {
        EntityKind::File
    } else if flags.is_dir {
        EntityKind::Directory
    } else if flags.is_symlink {
        EntityKind::Symlink
    } else if flags.is_block_device {
        EntityKind::Block
    } else if flags.is_char_device {
        EntityKind::Character
    } else if flags.is_fifo {
        EntityKind::Pipe
    } else if flags.is_socket {
        EntityKind::Socket
    } else {
        EntityKind::Unknown
    }
}

impl EntityKind {
    /// The one-character mark of this kind, as a long listing shows it.
    pub open spec fn mark(self) -> Seq<char> {
        match self {
            EntityKind::File => seq!['-'],
            EntityKind::Directory => seq!['d'],
            EntityKind::Symlink => seq!['l'],
            EntityKind::Block => seq!['b'],
            EntityKind::Character => seq!['c'],
            EntityKind::Pipe => seq!['p'],
            EntityKind::Socket => seq!['s'],
            EntityKind::Unknown => seq!['?'],
        }
    }

    /// The kind that `flags` describe.
    pub fn from_flags(flags: &NodeFlags) -> (kind: EntityKind)
        ensures
            kind == kind_of_flags(*flags),
    {
        if flags.is_file {
            EntityKind::File
        } else if flags.is_dir {
            EntityKind::Directory
        } else if flags.is_symlink {
            EntityKind::Symlink
        } else if flags.is_block_device {
            EntityKind::Block
        } else if flags.is_char_device {
            EntityKind::Character
        } else if flags.is_fifo {
            EntityKind::Pipe
        } else if flags.is_socket {
            EntityKind::Socket
        } else {
            EntityKind::Unknown
        }
    }

    /// The mark of this kind as text.
    pub fn symbol(&self) -> (text: &'static str)
        ensures
            text@ == self.mark(),
    {
        proof {
            reveal_strlit("-");
            reveal_strlit("d");
            reveal_strlit("l");
            reveal_strlit("b");
            reveal_strlit("c");
            reveal_strlit("p");
            reveal_strlit("s");
            reveal_strlit("?");
        }
        let text = match self {
            EntityKind::File => "-",
            EntityKind::Directory => "d",
            EntityKind::Symlink => "l",
            EntityKind::Block => "b",
            EntityKind::Character => "c",
            EntityKind::Pipe => "p",
            EntityKind::Socket => "s",
            EntityKind::Unknown => "?",
        };
        assert(text@ =~= self.mark());
        text
    }
}

impl Default for EntityKind {
    fn default() -> (kind: Self)
        ensures
            kind == EntityKind::Unknown,
    {
        EntityKind::Unknown
    }
}

} // verus!
