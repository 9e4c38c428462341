//! The size of a node in bytes, with the unit it is shown in.

use vstd::prelude::*;

verus! {

/// The unit a size is shown in.
#[derive(Debug, PartialEq, Eq, PartialOrd, Ord, Clone, Copy, Hash, Structural)]
pub enum EntitySizeKind {
    /// No size to show: the size is zero.
    Empty,
    Byte,
    KiloByte,
    MegaByte,
    GigaByte,
}

/// A size in bytes together with its unit. The unit is always the one that
/// `unit_for` gives for the size.
#[derive(Debug, Eq, PartialOrd, Ord, Clone, Copy, Hash)]
pub struct EntitySize {
    size_byte: u64,
    kind: EntitySizeKind,
}

impl View for EntitySize {
    type V = u64;

    /// The size in bytes.
    closed spec fn view(&self) -> u64 {
        self.size_byte
    }
}

impl PartialEq for EntitySize {
    fn eq(&self, other: &Self) -> (same: bool) {
        self.size_byte == other.size_byte
    }
}

impl vstd::std_specs::cmp::PartialEqSpecImpl for EntitySize {
    open spec fn obeys_eq_spec() -> bool {
        true
    }

    open spec fn eq_spec(&self, other: &Self) -> bool {
        self@ == other@
    }
}

pub const KILOBYTE: u64 = 1024;

pub const MEGABYTE: u64 = 1024 * 1024;

pub const GIGABYTE: u64 = 1024 * 1024 * 1024;

/// The unit for a size: none for zero, and otherwise the largest unit that the
/// size exceeds, so that 1024 is still shown in bytes and 1025 in kilobytes.
pub open spec fn unit_for(size_byte: u64) -> EntitySizeKind {
    if size_byte > GIGABYTE {
        EntitySizeKind::GigaByte
    } else if size_byte > MEGABYTE {
        EntitySizeKind::MegaByte
    } else if size_byte > KILOBYTE {
        EntitySizeKind::KiloByte
    } else if size_byte > 0 {
        EntitySizeKind::Byte
    } else {
        EntitySizeKind::Empty
    }
}

impl EntitySizeKind {
    /// How many bytes one of this unit holds; zero for no unit.
    pub open spec fn bytes(&self) -> u64 {
        match self {
            EntitySizeKind::Empty => 0,
            EntitySizeKind::Byte => 1,
            EntitySizeKind::KiloByte => KILOBYTE,
            EntitySizeKind::MegaByte => MEGABYTE,
            EntitySizeKind::GigaByte => GIGABYTE,
        }
    }

    /// The unit's abbreviation.
    pub open spec fn label_text(self) -> Seq<char> {
        match self {
            EntitySizeKind::Empty => "None"@,
            EntitySizeKind::Byte => "B"@,
            EntitySizeKind::KiloByte => "KB"@,
            EntitySizeKind::MegaByte => "MB"@,
            EntitySizeKind::GigaByte => "GB"@,
        }
    }

    /// How many bytes one of this unit holds.
    #[verifier::when_used_as_spec(bytes)]
    pub fn value(&self) -> (bytes: u64)
        ensures
            bytes == self.bytes(),
    {
        match self {
            EntitySizeKind::Empty => 0,
            EntitySizeKind::Byte => 1,
            EntitySizeKind::KiloByte => KILOBYTE,
            EntitySizeKind::MegaByte => MEGABYTE,
            EntitySizeKind::GigaByte => GIGABYTE,
        }
    }

    /// The unit's abbreviation: `None`, `B`, `KB`, `MB` or `GB`.
    pub fn label(&self) -> (text: &'static str)
        ensures
            text@ == self.label_text(),
    {
        match self {
            EntitySizeKind::Empty => "None",
            EntitySizeKind::Byte => "B",
            EntitySizeKind::KiloByte => "KB",
            EntitySizeKind::MegaByte => "MB",
            EntitySizeKind::GigaByte => "GB",
        }
    }
}

impl Default for EntitySizeKind {
    fn default() -> (kind: Self)
        ensures
            kind == EntitySizeKind::Empty,
    {
        EntitySizeKind::Empty
    }
}

impl EntitySize {
    #[verifier::type_invariant]
    spec fn unit_matches(self) -> bool {
        self.kind == unit_for(self.size_byte)
    }

    /// The unit for `size_byte`.
    fn range_size(size_byte: u64) -> (kind: EntitySizeKind)
        ensures
            kind == unit_for(size_byte),
    {
        if size_byte > GIGABYTE {
            EntitySizeKind::GigaByte
        } else if size_byte > MEGABYTE {
            EntitySizeKind::MegaByte
        } else if size_byte > KILOBYTE {
            EntitySizeKind::KiloByte
        } else if size_byte > 0 {
            EntitySizeKind::Byte
        } else {
            EntitySizeKind::Empty
        }
    }

    /// The size of `size_byte` bytes, in the unit that fits it.
    pub fn new(size_byte: u64) -> (size: Self)
        ensures
            size@ == size_byte,
    {
        Self { size_byte, kind: Self::range_size(size_byte) }
    }

    /// Grows the size by `size_byte` bytes and picks the unit anew.
    pub fn add(&mut self, size_byte: u64)
        requires
            old(self)@ + size_byte <= u64::MAX,
        ensures
            final(self)@ == old(self)@ + size_byte,
    {
        let total = self.size_byte + size_byte;
        *self = Self::new(total);
    }

    /// The size in bytes.
    pub fn size_byte(&self) -> (bytes: u64)
        ensures
            bytes == self@,
    {
        self.size_byte
    }

    /// The unit the size is shown in, which is the one that fits the size.
    pub fn kind(&self) -> (kind: EntitySizeKind)
        ensures
            kind == unit_for(self@),
            kind == EntitySizeKind::Empty <==> self@ == 0,
    {
        proof {
            use_type_invariant(self);
        }
        self.kind
    }

    /// Whether this size is smaller than `other`, by the bytes alone.
    pub fn smaller_than(&self, other: &Self) -> (smaller: bool)
        ensures
            smaller == (self@ < other@),
    {
        self.size_byte < other.size_byte
    }
}

impl Default for EntitySize {
    /// The size of nothing.
    fn default() -> (size: Self)
        ensures
            size@ == 0,
    {
        Self { size_byte: 0, kind: EntitySizeKind::Empty }
    }
}

} // verus!
