//! Searching a directory tree: what is searched for, the breadth-first walk
//! that collects the tree's entities, and the result.

use crate::entity::date::{epoch, EntityDate, Timestamp};
use crate::entity::kind::{EntityKind, NodeFlags};
use crate::entity::owner::{EntityOwners, OwnersView};
use crate::entity::permission::EntityPermissions;
use crate::entity::size::EntitySize;
use crate::entity::{views_of, Entity, EntityView};
use crate::error::JujikError;
use std::collections::VecDeque;
use vstd::prelude::*;
use vstd::string::StringExecFns;

verus! {

/// What a search looks for. The walk itself reads `path` alone; the other
/// fields narrow what is shown of its result.
#[derive(Debug, Eq)]
pub struct FindParameters {
    pub regex: String,
    pub path: String,
    pub name: String,
    pub extension: String,
    pub kind: EntityKind,
    pub permissions: EntityPermissions,
    pub owners: EntityOwners,
    pub size: (EntitySize, EntitySize),
    pub date: (EntityDate, EntityDate),
}

/// What search parameters hold, with their texts as sequences of characters.
pub struct FindParametersView {
    pub regex: Seq<char>,
    pub path: Seq<char>,
    pub name: Seq<char>,
    pub extension: Seq<char>,
    pub kind: EntityKind,
    pub permissions: u32,
    pub owners: OwnersView,
    pub size: (u64, u64),
    pub date: (Timestamp, Timestamp),
}

impl View for FindParameters {
    type V = FindParametersView;

    open spec fn view(&self) -> FindParametersView {
        FindParametersView {
            regex: self.regex@,
            path: self.path@,
            name: self.name@,
            extension: self.extension@,
            kind: self.kind,
            permissions: self.permissions@,
            owners: self.owners@,
            size: (self.size.0@, self.size.1@),
            date: (self.date.0@, self.date.1@),
        }
    }
}

impl PartialEq for FindParameters {
    fn eq(&self, other: &Self) -> (same: bool) {
        self.regex == other.regex && self.path == other.path && self.name == other.name
            && self.extension == other.extension && self.kind == other.kind && self.permissions
            == other.permissions && self.owners == other.owners && self.size.0 == other.size.0
            && self.size.1 == other.size.1 && self.date.0 == other.date.0 && self.date.1
            == other.date.1
    }
}

impl vstd::std_specs::cmp::PartialEqSpecImpl for FindParameters {
    open spec fn obeys_eq_spec() -> bool {
        true
    }

    open spec fn eq_spec(&self, other: &Self) -> bool {
        self@ == other@
    }
}

impl Clone for FindParameters {
    fn clone(&self) -> (copy: Self)
        ensures
            copy@ == self@,
    {
        Self {
            regex: self.regex.clone(),
            path: self.path.clone(),
            name: self.name.clone(),
            extension: self.extension.clone(),
            kind: self.kind,
            permissions: self.permissions,
            owners: self.owners.clone(),
            size: (self.size.0, self.size.1),
            date: (self.date.0, self.date.1),
        }
    }
}

impl Default for FindParameters {
    /// A search of the whole filesystem that narrows nothing.
    fn default() -> (parameters: Self)
        ensures
            parameters@ == (FindParametersView {
                regex: Seq::empty(),
                path: "/"@,
                name: Seq::empty(),
                extension: Seq::empty(),
                kind: EntityKind::Unknown,
                permissions: 0,
                owners: OwnersView {
                    uid: 0,
                    gid: 0,
                    username: Seq::empty(),
                    groupname: Seq::empty(),
                },
                size: (0, 0),
                date: (epoch(), epoch()),
            }),
    {
        Self {
            regex: String::new(),
            path: String::from_str("/"),
            name: String::new(),
            extension: String::new(),
            kind: EntityKind::default(),
            permissions: EntityPermissions::default(),
            owners: EntityOwners::default(),
            size: (EntitySize::default(), EntitySize::default()),
            date: (EntityDate::default(), EntityDate::default()),
        }
    }
}

/// The views of a sequence of texts, one for one.
pub open spec fn texts_of(texts: Seq<String>) -> Seq<Seq<char>> {
    texts.map_values(|t: String| t@)
}

/// What was found at a path that the walk asked about.
#[derive(Debug)]
pub enum Visit {
    /// The node could not be read at all.
    Unreadable,
    /// A node that is no directory, with its entity where one could be made.
    Leaf(Option<Entity>),
    /// A directory, with its entity where one could be made, and the paths
    /// of its direct children, none where they could not be listed.
    Directory(Option<Entity>, Vec<String>),
}

/// The views of an optional entity.
pub open spec fn entity_of(entity: Option<Entity>) -> Option<EntityView> {
    match entity {
        Some(e) => Some(e@),
        None => None,
    }
}

impl Visit {
    /// What was found at a node that could be read: by the node's own type a
    /// directory, whose direct children are `children`, or a leaf, which has
    /// none; a link to a directory is a leaf.
    pub fn of_node(flags: &NodeFlags, entity: Option<Entity>, children: Vec<String>) -> (visit:
        Visit)
        ensures
            visit is Directory <==> flags.is_dir,
            visit is Leaf <==> !flags.is_dir,
            visit.entity() == entity_of(entity),
            visit.children() == if flags.is_dir {
                texts_of(children@)
            } else {
                Seq::empty()
            },
    {
        if flags.is_dir {
            Visit::Directory(entity, children)
        } else {
            Visit::Leaf(entity)
        }
    }

    /// The entity that the visit brought, if any.
    pub open spec fn entity(self) -> Option<EntityView> {
        match self {
            Visit::Unreadable => None,
            Visit::Leaf(Some(e)) => Some(e@),
            Visit::Directory(Some(e), _) => Some(e@),
            _ => None,
        }
    }

    /// The paths that the visit adds to those still to be walked.
    pub open spec fn children(self) -> Seq<Seq<char>> {
        match self {
            Visit::Directory(_, children) => texts_of(children@),
            _ => Seq::empty(),
        }
    }
}

/// Where a walk stands: the path it was started at, the paths still to be
/// visited, first come first served, and the entities collected so far.
pub struct WalkView {
    pub root: Seq<char>,
    pub pending: Seq<Seq<char>>,
    pub found: Seq<EntityView>,
}

impl WalkView {
    /// The walk after its first pending path was taken off for a visit.
    pub open spec fn taken(self) -> WalkView {
        WalkView { pending: self.pending.drop_first(), ..self }
    }

    /// The walk after the outcome of a visit was recorded: the entity, if any,
    /// joins those found, and the children queue up behind all pending paths.
    pub open spec fn recorded(self, entity: Option<EntityView>, children: Seq<Seq<char>>) -> WalkView {
        WalkView {
            pending: self.pending + children,
            found: match entity {
                Some(e) => self.found.push(e),
                None => self.found,
            },
            ..self
        }
    }
}

/// A breadth-first walk of a directory tree. Whoever drives it takes the
/// next path with `next_path`, reads the node there, and hands the outcome
/// to `record`, until no path is left.
#[derive(Debug)]
pub struct DirectoryWalk {
    root: String,
    pending: VecDeque<String>,
    found: Vec<Entity>,
}

impl View for DirectoryWalk {
    type V = WalkView;

    closed spec fn view(&self) -> WalkView {
        WalkView {
            root: self.root@,
            pending: texts_of(self.pending@),
            found: views_of(self.found@),
        }
    }
}

impl DirectoryWalk {
    /// A walk that has `root` to visit and nothing found yet.
    pub fn new(root: String) -> (walk: Self)
        ensures
            walk@ == (WalkView { root: root@, pending: seq![root@], found: Seq::empty() }),
    {
        let mut pending = VecDeque::new();
        pending.push_back(root.clone());
        let walk = Self { root, pending, found: Vec::new() };
        assert(walk@.pending =~= seq![root@]);
        assert(walk@.found =~= Seq::empty());
        walk
    }

    /// Whether no path is left to visit.
    pub fn is_done(&self) -> (done: bool)
        ensures
            done == (self@.pending.len() == 0),
    {
        self.pending.len() == 0
    }

    /// Takes the path to visit next: the one that has waited longest.
    pub fn next_path(&mut self) -> (path: Option<String>)
        ensures
            old(self)@.pending.len() == 0 ==> path is None && final(self)@ == old(self)@,
            old(self)@.pending.len() > 0 ==> (path matches Some(p) && p@ == old(self)@.pending[0])
                && final(self)@ == old(self)@.taken(),
    {
        let path = self.pending.pop_front();
        proof {
            if old(self)@.pending.len() > 0 {
                assert(self@.pending =~= old(self)@.pending.drop_first());
            }
        }
        path
    }

    /// Records the outcome of visiting the path that `next_path` gave.
    pub fn record(&mut self, visit: Visit)
        ensures
            final(self)@ == old(self)@.recorded(visit.entity(), visit.children()),
    {
        match visit {
            Visit::Unreadable => {
                assert(self@.pending =~= old(self)@.pending + Seq::<Seq<char>>::empty());
            },
            Visit::Leaf(entity) => {
                self.collect(entity);
                assert(self@.pending =~= old(self)@.pending + Seq::<Seq<char>>::empty());
            },
            Visit::Directory(entity, children) => {
                self.collect(entity);
                self.enqueue(children);
            },
        }
    }

    /// Adds `entity`, if there is one, to the entities found.
    fn collect(&mut self, entity: Option<Entity>)
        ensures
            final(self)@.root == old(self)@.root,
            final(self)@.pending == old(self)@.pending,
            final(self)@.found == match entity {
                Some(e) => old(self)@.found.push(e@),
                None => old(self)@.found,
            },
    {
        if let Some(e) = entity {
            self.found.push(e);
            assert(views_of(self.found@) =~= views_of(old(self).found@).push(e@));
        }
    }

    /// Puts `children` behind the pending paths, in their order.
    fn enqueue(&mut self, children: Vec<String>)
        ensures
            final(self)@.root == old(self)@.root,
            final(self)@.found == old(self)@.found,
            final(self)@.pending == old(self)@.pending + texts_of(children@),
    {
        let ghost start = self@.pending;
        let mut i: usize = 0;
        while i < children.len()
            invariant
                i <= children.len(),
                self@.root == old(self)@.root,
                self@.found == old(self)@.found,
                self@.pending == start + texts_of(children@).subrange(0, i as int),
            decreases children.len() - i,
        {
            let ghost before = self@.pending;
            self.pending.push_back(children[i].clone());
            assert(self@.pending =~= before.push(children@[i as int]@));
            assert(texts_of(children@).subrange(0, i + 1) =~= texts_of(children@).subrange(
                0,
                i as int,
            ).push(children@[i as int]@));
            i += 1;
        }
        assert(texts_of(children@).subrange(0, i as int) =~= texts_of(children@));
    }

    /// The path that the walk was started at.
    pub fn root(&self) -> (root: String)
        ensures
            root@ == self@.root,
    {
        self.root.clone()
    }

    /// The entities found so far, in the order they were found.
    pub fn into_entitys(self) -> (entitys: Vec<Entity>)
        ensures
            views_of(entitys@) == self@.found,
    {
        self.found
    }
}

/// The result of a search: what was searched for and the entities found.
#[derive(Debug, Eq)]
pub struct EntitysFinder {
    parameters: FindParameters,
    entitys: Vec<Entity>,
}

/// What a search result holds.
pub struct FinderView {
    pub parameters: FindParametersView,
    pub entitys: Seq<EntityView>,
}

impl View for EntitysFinder {
    type V = FinderView;

    closed spec fn view(&self) -> FinderView {
        FinderView { parameters: self.parameters@, entitys: views_of(self.entitys@) }
    }
}

/// Whether two rows of entities hold equal entities at every place.
pub fn same_entitys(a: &Vec<Entity>, b: &Vec<Entity>) -> (same: bool)
    ensures
        same == (views_of(a@) == views_of(b@)),
{
    if a.len() != b.len() {
        assert(views_of(a@).len() != views_of(b@).len());
        return false;
    }
    let mut i: usize = 0;
    while i < a.len()
        invariant
            a.len() == b.len(),
            i <= a.len(),
            forall|k: int| 0 <= k < i ==> a@[k]@ == b@[k]@,
        decreases a.len() - i,
    {
        if a[i] != b[i] {
            assert(views_of(a@)[i as int] != views_of(b@)[i as int]);
            return false;
        }
        i += 1;
    }
    assert(views_of(a@) =~= views_of(b@));
    true
}

/// A copy of a row of entities.
pub fn clone_entitys(entitys: &Vec<Entity>) -> (copy: Vec<Entity>)
    ensures
        views_of(copy@) == views_of(entitys@),
{
    let mut copy: Vec<Entity> = Vec::new();
    let mut i: usize = 0;
    while i < entitys.len()
        invariant
            i <= entitys.len(),
            copy.len() == i,
            forall|k: int| 0 <= k < i ==> copy@[k]@ == entitys@[k]@,
        decreases entitys.len() - i,
    {
        copy.push(entitys[i].clone());
        i += 1;
    }
    assert(views_of(copy@) =~= views_of(entitys@));
    copy
}

impl PartialEq for EntitysFinder {
    fn eq(&self, other: &Self) -> (same: bool) {
        self.parameters == other.parameters && same_entitys(&self.entitys, &other.entitys)
    }
}

impl vstd::std_specs::cmp::PartialEqSpecImpl for EntitysFinder {
    open spec fn obeys_eq_spec() -> bool {
        true
    }

    open spec fn eq_spec(&self, other: &Self) -> bool {
        self@ == other@
    }
}

impl Clone for EntitysFinder {
    fn clone(&self) -> (copy: Self)
        ensures
            copy@ == self@,
    {
        Self { parameters: self.parameters.clone(), entitys: clone_entitys(&self.entitys) }
    }
}

impl Default for EntitysFinder {
    /// The result of a search that found nothing.
    fn default() -> (finder: Self)
        ensures
            finder@.entitys.len() == 0,
    {
        let finder = Self { parameters: FindParameters::default(), entitys: Vec::new() };
        assert(finder@.entitys =~= Seq::empty());
        finder
    }
}

/// The message of the error for a walk that was started elsewhere than at
/// the path searched.
pub open spec fn strayed_walk_text(root: Seq<char>) -> Seq<char> {
    "The walk was not started at the path searched, but at "@ + root
}

/// The result of the search for `parameters` whose walk is `walk`: what the
/// walk found, if it was started at the path searched, and else the error.
pub open spec fn search_result(parameters: FindParametersView, walk: WalkView) -> Result<
    FinderView,
    Seq<char>,
> {
    if walk.root == parameters.path {
        Ok(FinderView { parameters, entitys: walk.found })
    } else {
        Err(strayed_walk_text(walk.root))
    }
}

impl EntitysFinder {
    /// The result of the search for `parameters` whose walk is `walk`, which
    /// has to be the walk of the path searched. A walk that was not driven to
    /// its end gives what it found so far.
    pub fn find(parameters: FindParameters, walk: DirectoryWalk) -> (made: Result<Self, JujikError>)
        ensures
            match search_result(parameters@, walk@) {
                Ok(finder) => made matches Ok(f) && f@ == finder,
                Err(message) => made matches Err(JujikError::Other(m)) && m@ == message,
            },
    {
        let root = walk.root();
        if root == parameters.path {
            Ok(Self { parameters, entitys: walk.into_entitys() })
        } else {
            Err(
                JujikError::other(
                    "The walk was not started at the path searched, but at ",
                    root.as_str(),
                ),
            )
        }
    }

    /// The result that holds exactly the given parts, as when a snapshot
    /// that was kept is taken up again.
    pub fn from_parts(parameters: FindParameters, entitys: Vec<Entity>) -> (finder: Self)
        ensures
            finder@ == (FinderView { parameters: parameters@, entitys: views_of(entitys@) }),
    {
        Self { parameters, entitys }
    }

    pub fn parameters(&self) -> (parameters: FindParameters)
        ensures
            parameters@ == self@.parameters,
    {
        self.parameters.clone()
    }

    pub fn entitys(&self) -> (entitys: Vec<Entity>)
        ensures
            views_of(entitys@) == self@.entitys,
    {
        clone_entitys(&self.entitys)
    }

    /// The path that was searched.
    pub fn path(&self) -> (path: String)
        ensures
            path@ == self@.parameters.path,
    {
        self.parameters.path.clone()
    }
}

} // verus!
