//! Unix permission bits of a filesystem node: three categories of three kinds.

use crate::numeral::{numeral, octal};
use vstd::prelude::*;
use vstd::string::StringExecFns;

verus! {

/// What a permission bit allows.
#[derive(PartialEq, Eq, Clone, Copy, Debug, Structural)]
pub enum EntityPermissionsKind {
    Read,
    Write,
    Execute,
}

/// Whom a permission bit applies to.
#[derive(PartialEq, Eq, Clone, Copy, Debug, Structural)]
pub enum EntityPermissionsCategory {
    User,
    Group,
    Other,
}

/// The nine permission bits of a node. No bit above `0o777` is ever stored.
#[derive(Eq, PartialOrd, Ord, Clone, Copy, Debug, Hash)]
pub struct EntityPermissions {
    mode: u32,
}

impl View for EntityPermissions {
    type V = u32;

    /// The stored mode.
    closed spec fn view(&self) -> u32 {
        self.mode
    }
}

impl PartialEq for EntityPermissions {
    fn eq(&self, other: &Self) -> (same: bool) {
        self.mode == other.mode
    }
}

impl vstd::std_specs::cmp::PartialEqSpecImpl for EntityPermissions {
    open spec fn obeys_eq_spec() -> bool {
        true
    }

    open spec fn eq_spec(&self, other: &Self) -> bool {
        self@ == other@
    }
}

/// The single bit that stands for `kind` within `category`.
pub open spec fn permission_bit(
    category: EntityPermissionsCategory,
    kind: EntityPermissionsKind,
) -> u32 {
    kind.mask_spec() << category.shift_spec()
}

/// The letter shown for a granted permission of `kind`.
pub open spec fn kind_letter(kind: EntityPermissionsKind) -> char {
    match kind {
        EntityPermissionsKind::Read => 'r',
        EntityPermissionsKind::Write => 'w',
        EntityPermissionsKind::Execute => 'e',
    }
}

/// The category shown at position `i` of the nine-character rendering.
pub open spec fn slot_category(i: int) -> EntityPermissionsCategory {
    if i < 3 {
        EntityPermissionsCategory::User
    } else if i < 6 {
        EntityPermissionsCategory::Group
    } else {
        EntityPermissionsCategory::Other
    }
}

/// The kind shown at position `i` of the nine-character rendering.
pub open spec fn slot_kind(i: int) -> EntityPermissionsKind {
    if i % 3 == 0 {
        EntityPermissionsKind::Read
    } else if i % 3 == 1 {
        EntityPermissionsKind::Write
    } else {
        EntityPermissionsKind::Execute
    }
}

/// The nine-character rendering of `mode`: user, group, other, each as read,
/// write, execute, with `-` for a bit that is not set.
pub open spec fn symbolic_text(mode: u32) -> Seq<char> {
    Seq::new(
        9,
        |i: int|
            if mode & permission_bit(slot_category(i), slot_kind(i)) != 0 {
                kind_letter(slot_kind(i))
            } else {
                '-'
            },
    )
}

impl EntityPermissionsKind {
    pub open spec fn mask_spec(&self) -> u32 {
        match self {
            EntityPermissionsKind::Read => 0o4,
            EntityPermissionsKind::Write => 0o2,
            EntityPermissionsKind::Execute => 0o1,
        }
    }

    /// The bit of this kind within one category's three bits.
    #[verifier::when_used_as_spec(mask_spec)]
    pub fn mask(&self) -> (m: u32)
        ensures
            m == self.mask_spec(),
    {
        match self {
            EntityPermissionsKind::Read => 0o4,
            EntityPermissionsKind::Write => 0o2,
            EntityPermissionsKind::Execute => 0o1,
        }
    }
}

impl EntityPermissionsCategory {
    pub open spec fn mask_spec(&self) -> u32 {
        match self {
            EntityPermissionsCategory::User => 0o700,
            EntityPermissionsCategory::Group => 0o070,
            EntityPermissionsCategory::Other => 0o007,
        }
    }

    pub open spec fn shift_spec(&self) -> u32 {
        match self {
            EntityPermissionsCategory::User => 6,
            EntityPermissionsCategory::Group => 3,
            EntityPermissionsCategory::Other => 0,
        }
    }

    /// The three bits of this category within the mode.
    #[verifier::when_used_as_spec(mask_spec)]
    pub fn mask(&self) -> (m: u32)
        ensures
            m == self.mask_spec(),
    {
        match self {
            EntityPermissionsCategory::User => 0o700,
            EntityPermissionsCategory::Group => 0o070,
            EntityPermissionsCategory::Other => 0o007,
        }
    }

    /// How far this category's bits sit above the lowest bit.
    #[verifier::when_used_as_spec(shift_spec)]
    pub fn shift(&self) -> (s: u32)
        ensures
            s == self.shift_spec(),
    {
        match self {
            EntityPermissionsCategory::User => 0o6,
            EntityPermissionsCategory::Group => 0o3,
            EntityPermissionsCategory::Other => 0o0,
        }
    }
}

impl EntityPermissions {
    #[verifier::type_invariant]
    spec fn masked(self) -> bool {
        self.mode <= 0o777
    }

    /// Whether the bit of `kind` within `category` is set.
    pub open spec fn grants(
        self,
        category: EntityPermissionsCategory,
        kind: EntityPermissionsKind,
    ) -> bool {
        self@ & permission_bit(category, kind) != 0
    }

    /// Keeps the nine permission bits of `mode` and drops the rest.
    pub fn new(mode: u32) -> (p: Self)
        ensures
            p@ == mode & 0o777,
    {
        assert(mode & 0o777 <= 0o777) by (bit_vector);
        Self { mode: mode & 0o777 }
    }

    /// The stored mode, which has no bit outside the nine permission bits.
    pub fn mode(&self) -> (m: u32)
        ensures
            m == self@,
            m == m & 0o777,
            m <= 0o777,
    {
        proof {
            use_type_invariant(self);
        }
        let m = self.mode;
        assert(m <= 0o777 ==> m == m & 0o777) by (bit_vector);
        m
    }

    /// Whether `permission` is granted to `category`.
    pub fn has(
        &self,
        category: EntityPermissionsCategory,
        permission: EntityPermissionsKind,
    ) -> (granted: bool)
        ensures
            granted == self.grants(category, permission),
    {
        let c = category.mask();
        let s = category.shift();
        let p = permission.mask();
        let m = self.mode;
        assert((p & ((m & c) >> s) != 0) == (m & (p << s) != 0)) by (bit_vector)
            requires
                (c == 0o700 && s == 6) || (c == 0o070 && s == 3) || (c == 0o007 && s == 0),
                p == 4 || p == 2 || p == 1,
        ;
        p & ((self.mode & c) >> s) != 0
    }

    /// Grants `permission` to `category`; every other bit stays as it was.
    pub fn set(&mut self, category: EntityPermissionsCategory, permission: EntityPermissionsKind)
        ensures
            final(self)@ == old(self)@ | permission_bit(category, permission),
            final(self)@ == final(self)@ & 0o777,
            forall|c: EntityPermissionsCategory, k: EntityPermissionsKind|
                #[trigger] final(self).grants(c, k) == (old(self).grants(c, k) || (c == category
                    && k == permission)),
    {
        proof {
            use_type_invariant(&*self);
        }
        let s = category.shift();
        let p = permission.mask();
        let m = self.mode;
        assert((m | (p << s)) <= 0o777) by (bit_vector)
            requires
                m <= 0o777,
                s == 6 || s == 3 || s == 0,
                p == 4 || p == 2 || p == 1,
        ;
        self.mode = m | (p << s);
        let set = self.mode;
        assert(set <= 0o777 ==> set == set & 0o777) by (bit_vector);
        proof {
            lemma_permission_bits();
            let bit = permission_bit(category, permission);
            assert forall|c: EntityPermissionsCategory, k: EntityPermissionsKind|
                #[trigger] self.grants(c, k) == (old(self).grants(c, k) || (c == category && k
                    == permission)) by {
                let other = permission_bit(c, k);
                assert(((m | bit) & other != 0) == ((m & other != 0) || bit == other))
                    by (bit_vector)
                    requires
                        single_permission_bit(bit),
                        single_permission_bit(other),
                ;
            }
        }
    }

    /// Takes `permission` away from `category`; every other bit stays as it was.
    pub fn unset(
        &mut self,
        category: EntityPermissionsCategory,
        permission: EntityPermissionsKind,
    )
        ensures
            final(self)@ == old(self)@ & !permission_bit(category, permission),
            final(self)@ == final(self)@ & 0o777,
            forall|c: EntityPermissionsCategory, k: EntityPermissionsKind|
                #[trigger] final(self).grants(c, k) == (old(self).grants(c, k) && !(c == category
                    && k == permission)),
    {
        proof {
            use_type_invariant(&*self);
        }
        let s = category.shift();
        let p = permission.mask();
        let m = self.mode;
        assert((m & !(p << s)) <= 0o777) by (bit_vector)
            requires
                m <= 0o777,
        ;
        self.mode = m & !(p << s);
        let unset = self.mode;
        assert(unset <= 0o777 ==> unset == unset & 0o777) by (bit_vector);
        proof {
            lemma_permission_bits();
            let bit = permission_bit(category, permission);
            assert forall|c: EntityPermissionsCategory, k: EntityPermissionsKind|
                #[trigger] self.grants(c, k) == (old(self).grants(c, k) && !(c == category && k
                    == permission)) by {
                let other = permission_bit(c, k);
                assert(((m & !bit) & other != 0) == ((m & other != 0) && bit != other))
                    by (bit_vector)
                    requires
                        single_permission_bit(bit),
                        single_permission_bit(other),
                ;
            }
        }
    }

    /// One character of the rendering: the letter of `permission` if it is
    /// granted to `category`, else a dash.
    fn letter(
        &self,
        category: EntityPermissionsCategory,
        permission: EntityPermissionsKind,
    ) -> (text: &'static str)
        ensures
            text@ == seq![
                if self.grants(category, permission) {
                    kind_letter(permission)
                } else {
                    '-'
                },
            ],
    {
        proof {
            reveal_strlit("r");
            reveal_strlit("w");
            reveal_strlit("e");
            reveal_strlit("-");
        }
        let text = if self.has(category, permission) {
            match permission {
                EntityPermissionsKind::Read => "r",
                EntityPermissionsKind::Write => "w",
                EntityPermissionsKind::Execute => "e",
            }
        } else {
            "-"
        };
        assert(text@ =~= seq![
            if self.grants(category, permission) {
                kind_letter(permission)
            } else {
                '-'
            },
        ]);
        text
    }

    /// The nine-character rendering, such as `rw-r--r--`, with `e` for execute.
    pub fn symbolic(&self) -> (text: String)
        ensures
            text@ == symbolic_text(self@),
    {
        let u = EntityPermissionsCategory::User;
        let g = EntityPermissionsCategory::Group;
        let o = EntityPermissionsCategory::Other;
        let r = EntityPermissionsKind::Read;
        let w = EntityPermissionsKind::Write;
        let e = EntityPermissionsKind::Execute;

        let ghost want = symbolic_text(self@);
        let mut text = String::new();
        text.append(self.letter(u, r));
        text.append(self.letter(u, w));
        text.append(self.letter(u, e));
        assert(text@ =~= want.subrange(0, 3));
        text.append(self.letter(g, r));
        text.append(self.letter(g, w));
        text.append(self.letter(g, e));
        assert(text@ =~= want.subrange(0, 6));
        text.append(self.letter(o, r));
        text.append(self.letter(o, w));
        text.append(self.letter(o, e));
        assert(text@ =~= want);
        text
    }
}

/// The rendering of `mode` followed by its octal digits in brackets, as in
/// `rw-r--r-- (644)`.
pub open spec fn permissions_text(mode: u32) -> Seq<char> {
    symbolic_text(mode) + " ("@ + numeral(mode as nat, 8) + ")"@
}

impl EntityPermissions {
    /// The rendering followed by the mode's octal digits in brackets.
    pub fn to_string(&self) -> (text: String)
        ensures
            text@ == permissions_text(self@),
    {
        let digits = octal(self.mode);
        self.symbolic().concat(" (").concat(digits.as_str()).concat(")")
    }
}

impl Default for EntityPermissions {
    /// No permission at all.
    fn default() -> (p: Self)
        ensures
            p@ == 0,
    {
        Self { mode: 0 }
    }
}

/// Masking is stable: what is left of a mode holds no bit outside the nine
/// permission bits, and masking it once more changes nothing.
pub proof fn lemma_masking_is_stable(mode: u32)
    ensures
        mode & 0o777 <= 0o777,
        (mode & 0o777) & 0o777 == mode & 0o777,
{
    assert(mode & 0o777 <= 0o777) by (bit_vector);
    assert((mode & 0o777) & 0o777 == mode & 0o777) by (bit_vector);
}

/// Whether `bit` is one of the nine permission bits.
pub open spec fn single_permission_bit(bit: u32) -> bool {
    bit == 0o400 || bit == 0o200 || bit == 0o100 || bit == 0o040 || bit == 0o020 || bit == 0o010
        || bit == 0o004 || bit == 0o002 || bit == 0o001
}

/// Each pair of category and kind has a bit of its own among the nine.
pub proof fn lemma_permission_bits()
    ensures
        forall|c: EntityPermissionsCategory, k: EntityPermissionsKind|
            single_permission_bit(#[trigger] permission_bit(c, k)),
        forall|
            c1: EntityPermissionsCategory,
            k1: EntityPermissionsKind,
            c2: EntityPermissionsCategory,
            k2: EntityPermissionsKind,
        |
            #[trigger] permission_bit(c1, k1) == #[trigger] permission_bit(c2, k2) ==> c1 == c2
                && k1 == k2,
{
    assert(4u32 << 6u32 == 0o400) by (bit_vector);
    assert(2u32 << 6u32 == 0o200) by (bit_vector);
    assert(1u32 << 6u32 == 0o100) by (bit_vector);
    assert(4u32 << 3u32 == 0o040) by (bit_vector);
    assert(2u32 << 3u32 == 0o020) by (bit_vector);
    assert(1u32 << 3u32 == 0o010) by (bit_vector);
    assert(4u32 << 0u32 == 0o004) by (bit_vector);
    assert(2u32 << 0u32 == 0o002) by (bit_vector);
    assert(1u32 << 0u32 == 0o001) by (bit_vector);
}

} // verus!
