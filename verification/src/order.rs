//! The orders by which entities are sorted: one for each field they can be
//! sorted by, each a strict weak order.

use crate::entity::owner::{EntityOwners, OwnersView};
use crate::entity::{Entity, EntityView};
use crate::sort::strict_weak_order;
use crate::tab::SortField;
use vstd::prelude::*;

verus! {

/// Whether text `a` comes before text `b` in the order of a dictionary that
/// ranks characters by their code points: at the first place where the two
/// differ `a` has the lower character, or `a` ends there and `b` goes on.
pub open spec fn text_lt(a: Seq<char>, b: Seq<char>) -> bool
    decreases a.len(),
{
    if b.len() == 0 {
        false
    } else if a.len() == 0 {
        true
    } else if a[0] == b[0] {
        text_lt(a.drop_first(), b.drop_first())
    } else {
        (a[0] as int) < (b[0] as int)
    }
}

/// Whether an optional text comes before another: an absent text comes
/// before every present one, and present texts compare as texts.
pub open spec fn optional_text_lt(a: Option<Seq<char>>, b: Option<Seq<char>>) -> bool {
    match (a, b) {
        (None, Some(_)) => true,
        (Some(x), Some(y)) => text_lt(x, y),
        _ => false,
    }
}

/// Whether owners `a` come before owners `b`: by user id, then group id,
/// then user name, then group name.
pub open spec fn owners_lt(a: OwnersView, b: OwnersView) -> bool {
    if a.uid != b.uid {
        a.uid < b.uid
    } else if a.gid != b.gid {
        a.gid < b.gid
    } else if a.username != b.username {
        text_lt(a.username, b.username)
    } else {
        text_lt(a.groupname, b.groupname)
    }
}

/// Whether entity `a` comes strictly before entity `b` when sorted by `field`.
pub open spec fn entity_lt(field: SortField, a: EntityView, b: EntityView) -> bool {
    match field {
        SortField::Name => text_lt(a.name, b.name),
        SortField::Extension => optional_text_lt(a.extension, b.extension),
        SortField::Permissions => a.permissions < b.permissions,
        SortField::Owners => owners_lt(a.owners, b.owners),
        SortField::Size => a.size < b.size,
        SortField::Modification => a.modification.earlier_than(b.modification),
        SortField::Creation => a.creation.earlier_than(b.creation),
    }
}

/// The order by `field`, as a value that the sorting laws take.
pub open spec fn order_by(field: SortField) -> spec_fn(EntityView, EntityView) -> bool {
    |a: EntityView, b: EntityView| entity_lt(field, a, b)
}

/// No text comes before itself.
pub proof fn lemma_text_lt_irreflexive(a: Seq<char>)
    ensures
        !text_lt(a, a),
    decreases a.len(),
{
    if a.len() > 0 {
        lemma_text_lt_irreflexive(a.drop_first());
    }
}

/// Of two different texts one comes before the other.
pub proof fn lemma_text_lt_total(a: Seq<char>, b: Seq<char>)
    ensures
        a != b ==> text_lt(a, b) || text_lt(b, a),
    decreases a.len(),
{
    if a.len() > 0 && b.len() > 0 && a[0] == b[0] {
        lemma_text_lt_total(a.drop_first(), b.drop_first());
        if a.drop_first() == b.drop_first() {
            assert(a =~= seq![a[0]] + a.drop_first());
            assert(b =~= seq![b[0]] + b.drop_first());
        }
    } else if a.len() == 0 && b.len() == 0 {
        assert(a =~= b);
    }
}

/// Coming before carries over a middle text.
pub proof fn lemma_text_lt_transitive(a: Seq<char>, b: Seq<char>, c: Seq<char>)
    requires
        text_lt(a, b),
        text_lt(b, c),
    ensures
        text_lt(a, c),
    decreases a.len(),
{
    if a.len() > 0 && a[0] == b[0] && b[0] == c[0] {
        lemma_text_lt_transitive(a.drop_first(), b.drop_first(), c.drop_first());
    }
}

/// Not coming before carries over a middle text.
pub proof fn lemma_text_lt_negative_transitive(a: Seq<char>, b: Seq<char>, c: Seq<char>)
    requires
        !text_lt(a, b),
        !text_lt(b, c),
    ensures
        !text_lt(a, c),
{
    lemma_text_lt_total(a, b);
    lemma_text_lt_total(b, c);
    lemma_text_lt_irreflexive(a);
    if text_lt(a, c) {
        if a == b {
        } else if b == c {
        } else {
            lemma_text_lt_transitive(c, b, a);
            lemma_text_lt_transitive(a, c, a);
        }
    }
}

/// The order by any field is a strict weak order.
pub proof fn lemma_order_by_is_strict_weak(field: SortField)
    ensures
        strict_weak_order(order_by(field)),
{
    let lt = order_by(field);
    assert forall|a: EntityView| !#[trigger] lt(a, a) by {
        lemma_text_lt_irreflexive(a.name);
        lemma_text_lt_irreflexive(a.owners.groupname);
        if let Some(x) = a.extension {
            lemma_text_lt_irreflexive(x);
        }
    }
    assert forall|a: EntityView, b: EntityView, c: EntityView| #[trigger]
        lt(a, b) && #[trigger] lt(b, c) implies lt(a, c) by {
        lemma_entity_lt_transitive(field, a, b, c);
    }
    assert forall|a: EntityView, b: EntityView, c: EntityView| !#[trigger] lt(a, b) && !#[trigger] lt(
        b,
        c,
    ) implies !lt(a, c) by {
        lemma_entity_lt_negative_transitive(field, a, b, c);
    }
}

/// Coming before, by one field, carries over a middle entity.
pub proof fn lemma_entity_lt_transitive(
    field: SortField,
    a: EntityView,
    b: EntityView,
    c: EntityView,
)
    requires
        entity_lt(field, a, b),
        entity_lt(field, b, c),
    ensures
        entity_lt(field, a, c),
{
    match field {
        SortField::Name => {
            lemma_text_lt_transitive(a.name, b.name, c.name);
        },
        SortField::Extension => {
            if let (Some(x), Some(y), Some(z)) = (a.extension, b.extension, c.extension) {
                lemma_text_lt_transitive(x, y, z);
            }
        },
        SortField::Owners => {
            lemma_owners_lt_transitive(a.owners, b.owners, c.owners);
        },
        _ => {},
    }
}

/// Not coming before, by one field, carries over a middle entity.
pub proof fn lemma_entity_lt_negative_transitive(
    field: SortField,
    a: EntityView,
    b: EntityView,
    c: EntityView,
)
    requires
        !entity_lt(field, a, b),
        !entity_lt(field, b, c),
    ensures
        !entity_lt(field, a, c),
{
    match field {
        SortField::Name => {
            lemma_text_lt_negative_transitive(a.name, b.name, c.name);
        },
        SortField::Extension => {
            if let (Some(x), Some(y), Some(z)) = (a.extension, b.extension, c.extension) {
                lemma_text_lt_negative_transitive(x, y, z);
            }
        },
        SortField::Owners => {
            lemma_owners_lt_negative_transitive(a.owners, b.owners, c.owners);
        },
        _ => {},
    }
}

/// Coming before carries over middle owners.
pub proof fn lemma_owners_lt_transitive(a: OwnersView, b: OwnersView, c: OwnersView)
    requires
        owners_lt(a, b),
        owners_lt(b, c),
    ensures
        owners_lt(a, c),
{
    lemma_text_lt_irreflexive(a.username);
    lemma_text_lt_irreflexive(a.groupname);
    if a.uid == b.uid && b.uid == c.uid && a.gid == b.gid && b.gid == c.gid {
        if a.username != b.username && b.username != c.username {
            lemma_text_lt_transitive(a.username, b.username, c.username);
        } else if a.username == b.username && b.username == c.username {
            lemma_text_lt_transitive(a.groupname, b.groupname, c.groupname);
        }
    }
}

/// Not coming before carries over middle owners.
pub proof fn lemma_owners_lt_negative_transitive(a: OwnersView, b: OwnersView, c: OwnersView)
    requires
        !owners_lt(a, b),
        !owners_lt(b, c),
    ensures
        !owners_lt(a, c),
{
    lemma_text_lt_irreflexive(a.username);
    lemma_text_lt_irreflexive(b.username);
    lemma_text_lt_irreflexive(a.groupname);
    if a.uid == b.uid && b.uid == c.uid && a.gid == b.gid && b.gid == c.gid {
        if a.username == b.username && b.username == c.username {
            lemma_text_lt_negative_transitive(a.groupname, b.groupname, c.groupname);
        } else {
            lemma_text_lt_negative_transitive(a.username, b.username, c.username);
            lemma_text_lt_total(a.username, b.username);
            lemma_text_lt_total(b.username, c.username);
            lemma_text_lt_total(a.username, c.username);
            if a.username == c.username {
                lemma_text_lt_transitive(b.username, a.username, b.username);
            }
        }
    }
}

/// Compares two texts with `<` of `str`, which orders texts as a dictionary
/// does, ranking characters by their code points.
#[verifier::external_body]
fn text_before(a: &str, b: &str) -> (before: bool)
    ensures
        before == text_lt(a@, b@),
{
    a < b
}

/// Whether `a` comes before `b` as optional texts do.
fn optional_text_before(a: &Option<String>, b: &Option<String>) -> (before: bool)
    ensures
        before == optional_text_lt(crate::path::text_of(*a), crate::path::text_of(*b)),
{
    match b {
        Some(y) => match a {
            Some(x) => text_before(x.as_str(), y.as_str()),
            None => true,
        },
        None => false,
    }
}

/// Whether owners `a` come before owners `b`.
fn owners_before(a: &EntityOwners, b: &EntityOwners) -> (before: bool)
    ensures
        before == owners_lt(a@, b@),
{
    if a.uid() != b.uid() {
        a.uid() < b.uid()
    } else if a.gid() != b.gid() {
        a.gid() < b.gid()
    } else {
        let (a_user, b_user) = (a.username(), b.username());
        if a_user != b_user {
            text_before(a_user.as_str(), b_user.as_str())
        } else {
            text_before(a.groupname().as_str(), b.groupname().as_str())
        }
    }
}

/// Whether `a` comes strictly before `b` when sorted by `field`.
pub fn entity_before(field: &SortField, a: &Entity, b: &Entity) -> (before: bool)
    ensures
        before == entity_lt(*field, a@, b@),
{
    match field {
        SortField::Name => text_before(a.name().as_str(), b.name().as_str()),
        SortField::Extension => optional_text_before(a.extension(), b.extension()),
        SortField::Permissions => a.permissions().mode() < b.permissions().mode(),
        SortField::Owners => owners_before(a.owners(), b.owners()),
        SortField::Size => a.size().smaller_than(b.size()),
        SortField::Modification => a.modification().before(b.modification()),
        SortField::Creation => a.creation().before(b.creation()),
    }
}

} // verus!
