//! A workspace of the file manager: a directory listing, a viewer, an
//! editor, or the result of a search.

use crate::entity::find::{clone_entitys, same_entitys, EntitysFinder, FinderView};
use crate::entity::{name_of_path, views_of, Entity, EntityView};
use crate::error::JujikError;
use crate::order::{entity_before, entity_lt, lemma_order_by_is_strict_weak, order_by};
use crate::path::{path_parent, text_of};
use crate::sort::{
    lemma_equal_ties_read_the_same_backwards, lemma_insert_index_found, lemma_sort_descending_idempotent,
    lemma_stable_sort_idempotent, sort_descending, stable_sort, ties_are_equal,
    ties_read_the_same_backwards,
};
use vstd::prelude::*;
use vstd::string::StringExecFns;

verus! {

/// Which of the contents a tab holds.
#[derive(Debug, PartialEq, Eq, Clone, Copy, Structural)]
pub enum TabKind {
    Empty,
    Entitys,
    View,
    Editor,
    Find,
}

/// The field of an entity that a listing is sorted by.
#[derive(Debug, PartialEq, Eq, Clone, Copy, Structural)]
pub enum SortField {
    Name,
    Extension,
    Permissions,
    Owners,
    Size,
    Modification,
    Creation,
}

/// Whether a listing runs from the least to the greatest or the other way.
#[derive(Debug, PartialEq, Eq, Clone, Copy, Structural)]
pub enum SortDirection {
    Ascending,
    Descending,
}

/// How a listing is sorted.
#[derive(Debug, PartialEq, Eq, Clone, Copy, Structural)]
pub struct SortBy {
    pub field: SortField,
    pub direction: SortDirection,
}

impl Default for SortField {
    fn default() -> (field: Self)
        ensures
            field == SortField::Name,
    {
        SortField::Name
    }
}

impl Default for SortDirection {
    fn default() -> (direction: Self)
        ensures
            direction == SortDirection::Ascending,
    {
        SortDirection::Ascending
    }
}

/// Sorting by name from the least to the greatest.
pub open spec fn default_sortby() -> SortBy {
    SortBy { field: SortField::Name, direction: SortDirection::Ascending }
}

impl Default for SortBy {
    fn default() -> (sortby: Self)
        ensures
            sortby == default_sortby(),
    {
        SortBy { field: SortField::Name, direction: SortDirection::Ascending }
    }
}

impl TabKind {
    /// The word that a tab's name starts with.
    pub open spec fn label_text(self) -> Seq<char> {
        match self {
            TabKind::Entitys => "Entitys"@,
            TabKind::View => "View"@,
            TabKind::Editor => "Editor"@,
            TabKind::Find => "Find"@,
            TabKind::Empty => "None"@,
        }
    }

    /// The word that a tab's name starts with.
    pub fn label(&self) -> (text: &'static str)
        ensures
            text@ == self.label_text(),
    {
        match self {
            TabKind::Entitys => "Entitys",
            TabKind::View => "View",
            TabKind::Editor => "Editor",
            TabKind::Find => "Find",
            TabKind::Empty => "None",
        }
    }
}

/// What a tab shows.
#[derive(Debug, Eq)]
pub enum TabContent {
    Empty,
    /// A directory's listing: how it is sorted, the directory, its entities.
    Entitys(SortBy, String, Vec<Entity>),
    View(Entity),
    Editor(Entity),
    Find(EntitysFinder),
}

/// What a tab's content holds.
pub enum TabContentView {
    Empty,
    Entitys(SortBy, Seq<char>, Seq<EntityView>),
    View(EntityView),
    Editor(EntityView),
    Find(FinderView),
}

impl View for TabContent {
    type V = TabContentView;

    open spec fn view(&self) -> TabContentView {
        match self {
            TabContent::Empty => TabContentView::Empty,
            TabContent::Entitys(sortby, path, entitys) => TabContentView::Entitys(
                *sortby,
                path@,
                views_of(entitys@),
            ),
            TabContent::View(entity) => TabContentView::View(entity@),
            TabContent::Editor(entity) => TabContentView::Editor(entity@),
            TabContent::Find(finder) => TabContentView::Find(finder@),
        }
    }
}

impl PartialEq for TabContent {
    fn eq(&self, other: &Self) -> (same: bool) {
        match (self, other) {
            (TabContent::Empty, TabContent::Empty) => true,
            (TabContent::Entitys(sort_a, path_a, row_a), TabContent::Entitys(sort_b, path_b, row_b)) => *sort_a == *sort_b
                && *path_a == *path_b && same_entitys(row_a, row_b),
            (TabContent::View(e1), TabContent::View(e2)) => *e1 == *e2,
            (TabContent::Editor(e1), TabContent::Editor(e2)) => *e1 == *e2,
            (TabContent::Find(f1), TabContent::Find(f2)) => *f1 == *f2,
            _ => false,
        }
    }
}

impl vstd::std_specs::cmp::PartialEqSpecImpl for TabContent {
    open spec fn obeys_eq_spec() -> bool {
        true
    }

    open spec fn eq_spec(&self, other: &Self) -> bool {
        self@ == other@
    }
}

impl Clone for TabContent {
    fn clone(&self) -> (copy: Self)
        ensures
            copy@ == self@,
    {
        match self {
            TabContent::Empty => TabContent::Empty,
            TabContent::Entitys(sortby, path, entitys) => TabContent::Entitys(
                *sortby,
                path.clone(),
                clone_entitys(entitys),
            ),
            TabContent::View(entity) => TabContent::View(entity.clone()),
            TabContent::Editor(entity) => TabContent::Editor(entity.clone()),
            TabContent::Find(finder) => TabContent::Find(finder.clone()),
        }
    }
}

impl Default for TabContent {
    fn default() -> (content: Self)
        ensures
            content@ == TabContentView::Empty,
    {
        TabContent::Empty
    }
}

/// A tab: its name and what it shows.
#[derive(Debug, Eq)]
pub struct Tab {
    name: String,
    content: TabContent,
}

/// What a tab holds.
pub struct TabView {
    pub name: Seq<char>,
    pub content: TabContentView,
}

impl View for Tab {
    type V = TabView;

    closed spec fn view(&self) -> TabView {
        TabView { name: self.name@, content: self.content@ }
    }
}

/// The views of a sequence of tabs, one for one.
pub open spec fn tab_views(tabs: Seq<Tab>) -> Seq<TabView> {
    tabs.map_values(|t: Tab| t@)
}

impl PartialEq for Tab {
    fn eq(&self, other: &Self) -> (same: bool) {
        self.name == other.name && self.content == other.content
    }
}

impl vstd::std_specs::cmp::PartialEqSpecImpl for Tab {
    open spec fn obeys_eq_spec() -> bool {
        true
    }

    open spec fn eq_spec(&self, other: &Self) -> bool {
        self@ == other@
    }
}

impl Clone for Tab {
    fn clone(&self) -> (copy: Self)
        ensures
            copy@ == self@,
    {
        Self { name: self.name.clone(), content: self.content.clone() }
    }
}

impl Default for Tab {
    /// The tab without name that shows nothing.
    fn default() -> (tab: Self)
        ensures
            tab@ == (TabView { name: Seq::empty(), content: TabContentView::Empty }),
    {
        Self { name: String::new(), content: TabContent::Empty }
    }
}

/// The name that a new tab of `kind` for `path` gets: the kind's word, a
/// colon, and the name shown for the path.
pub open spec fn tab_title(kind: TabKind, path: Seq<char>) -> Seq<char> {
    kind.label_text() + ": "@ + name_of_path(path)
}

/// The listing `entitys` sorted by `sortby`: ascending by the field with
/// ties in their former order, and for a descending sort that row reversed.
pub open spec fn sorted_listing(entitys: Seq<EntityView>, sortby: SortBy) -> Seq<EntityView> {
    match sortby.direction {
        SortDirection::Ascending => stable_sort(entitys, order_by(sortby.field)),
        SortDirection::Descending => sort_descending(entitys, order_by(sortby.field)),
    }
}

/// The directory listing at `path` in the default order.
pub open spec fn listing_tab(path: Seq<char>, entitys: Seq<EntityView>) -> TabView {
    TabView {
        name: tab_title(TabKind::Entitys, path),
        content: TabContentView::Entitys(default_sortby(), path, entitys),
    }
}

/// The parent of an entity's path, or the empty path where it has none.
pub open spec fn directory_of(entity: EntityView) -> Seq<char> {
    match path_parent(entity.path) {
        Some(parent) => parent,
        None => Seq::empty(),
    }
}

impl TabView {
    /// Which of the contents the tab holds.
    pub open spec fn kind(self) -> TabKind {
        match self.content {
            TabContentView::Empty => TabKind::Empty,
            TabContentView::Entitys(..) => TabKind::Entitys,
            TabContentView::View(_) => TabKind::View,
            TabContentView::Editor(_) => TabKind::Editor,
            TabContentView::Find(_) => TabKind::Find,
        }
    }

    /// The directory that the tab is about: the listed directory, the
    /// directory of the entity shown or edited, the root of the search.
    pub open spec fn path(self) -> Seq<char> {
        match self.content {
            TabContentView::Entitys(_, path, _) => path,
            TabContentView::View(entity) => directory_of(entity),
            TabContentView::Editor(entity) => directory_of(entity),
            TabContentView::Find(finder) => finder.parameters.path,
            TabContentView::Empty => Seq::empty(),
        }
    }

    /// How the tab's listing is sorted; the default order for a tab without
    /// a listing.
    pub open spec fn sortby(self) -> SortBy {
        match self.content {
            TabContentView::Entitys(sortby, _, _) => sortby,
            _ => default_sortby(),
        }
    }

    /// The entities of the tab's listing, if it has a listing.
    pub open spec fn entitys(self) -> Option<Seq<EntityView>> {
        match self.content {
            TabContentView::Entitys(_, _, entitys) => Some(entitys),
            _ => None,
        }
    }

    /// The tab with its listing replaced; a tab without a listing as it is.
    pub open spec fn with_entitys(self, entitys: Seq<EntityView>) -> TabView {
        match self.content {
            TabContentView::Entitys(sortby, path, _) => TabView {
                content: TabContentView::Entitys(sortby, path, entitys),
                ..self
            },
            _ => self,
        }
    }

    /// The tab with the order of its listing replaced, the listing itself
    /// untouched; a tab without a listing as it is.
    pub open spec fn with_sortby(self, sortby: SortBy) -> TabView {
        match self.content {
            TabContentView::Entitys(_, path, entitys) => TabView {
                content: TabContentView::Entitys(sortby, path, entitys),
                ..self
            },
            _ => self,
        }
    }

    /// The tab with its listing sorted by its order; a tab without a listing
    /// as it is.
    pub open spec fn sorted(self) -> TabView {
        match self.content {
            TabContentView::Entitys(sortby, _, entitys) => self.with_entitys(
                sorted_listing(entitys, sortby),
            ),
            _ => self,
        }
    }

    /// The tab after a change to the directory `path`, whose entities are
    /// `entitys`: a fresh listing tab; a tab without a listing as it is.
    pub open spec fn listing(self, path: Seq<char>, entitys: Seq<EntityView>) -> TabView {
        match self.content {
            TabContentView::Entitys(..) => listing_tab(path, entitys),
            _ => self,
        }
    }

    /// The directory above the listed one, where the tab has a listing and
    /// the listed directory has a parent.
    pub open spec fn back_target(self) -> Option<Seq<char>> {
        match self.content {
            TabContentView::Entitys(_, path, _) => path_parent(path),
            _ => None,
        }
    }
}

/// `entitys` sorted ascending by `field`, ties in their former order.
pub fn sort_entitys(entitys: Vec<Entity>, field: &SortField) -> (sorted: Vec<Entity>)
    ensures
        views_of(sorted@) == stable_sort(views_of(entitys@), order_by(*field)),
{
    let ghost lt = order_by(*field);
    let ghost all = views_of(entitys@);
    let mut source = entitys;
    let mut sorted: Vec<Entity> = Vec::new();
    assert(all.subrange(all.len() as int, all.len() as int) =~= Seq::empty());
    assert(views_of(sorted@) =~= Seq::empty());
    while source.len() > 0
        invariant
            source.len() <= all.len(),
            views_of(source@) == all.subrange(0, source.len() as int),
            views_of(sorted@) == stable_sort(
                all.subrange(source.len() as int, all.len() as int),
                lt,
            ),
            lt == order_by(*field),
        decreases source.len(),
    {
        let ghost rest = all.subrange(source.len() as int, all.len() as int);
        let ghost source_before = views_of(source@);
        let entity = source.pop().unwrap();
        assert(views_of(source@) =~= source_before.drop_last());
        assert(source_before[source.len() as int] == entity@);
        assert(entity@ == all[source.len() as int]);
        let ghost sorted_before = views_of(sorted@);
        let mut at: usize = 0;
        let mut searching = true;
        while searching
            invariant
                at <= sorted.len(),
                views_of(sorted@) == sorted_before,
                forall|k: int| 0 <= k < at ==> entity_lt(*field, #[trigger] sorted_before[k], entity@),
                !searching ==> at == sorted.len() || !entity_lt(
                    *field,
                    sorted_before[at as int],
                    entity@,
                ),
            decreases sorted.len() - at + (if searching { 1int } else { 0int }),
        {
            if at < sorted.len() && entity_before(field, &sorted[at], &entity) {
                assert(sorted_before[at as int] == sorted@[at as int]@);
                at += 1;
            } else {
                if at < sorted.len() {
                    assert(sorted_before[at as int] == sorted@[at as int]@);
                }
                searching = false;
            }
        }
        sorted.insert(at, entity);
        proof {
            assert forall|k: int| 0 <= k < at implies lt(#[trigger] sorted_before[k], entity@) by {
                assert(entity_lt(*field, sorted_before[k], entity@));
            }
            lemma_insert_index_found(entity@, sorted_before, lt, at as int);
            assert(views_of(sorted@) =~= sorted_before.insert(at as int, entity@));
            let grown = all.subrange(source.len() as int, all.len() as int);
            assert(grown.drop_first() =~= rest);
            assert(grown[0] == entity@);
        }
    }
    assert(all.subrange(0, all.len() as int) =~= all);
    sorted
}

/// `entitys` in the opposite order.
pub fn reverse_entitys(entitys: Vec<Entity>) -> (reversed: Vec<Entity>)
    ensures
        views_of(reversed@) == views_of(entitys@).reverse(),
{
    let ghost all = views_of(entitys@);
    let mut source = entitys;
    let mut reversed: Vec<Entity> = Vec::new();
    while source.len() > 0
        invariant
            source.len() + reversed.len() == all.len(),
            views_of(source@) == all.subrange(0, source.len() as int),
            forall|k: int|
                0 <= k < reversed.len() ==> #[trigger] reversed@[k]@ == all[all.len() - 1 - k],
        decreases source.len(),
    {
        let ghost source_before = views_of(source@);
        let entity = source.pop().unwrap();
        assert(views_of(source@) =~= source_before.drop_last());
        assert(source_before[source.len() as int] == entity@);
        assert(entity@ == all[source.len() as int]);
        reversed.push(entity);
    }
    assert(views_of(reversed@) =~= all.reverse());
    reversed
}

impl Tab {
    /// A tab that lists the directory `pathbuf`, whose entities are
    /// `entitys`, in the default order. A path held as text always has the
    /// name that the tab is called after.
    pub fn tab_entitys(pathbuf: String, entitys: Vec<Entity>) -> (made: Result<Self, JujikError>)
        ensures
            made matches Ok(tab) && tab@ == listing_tab(pathbuf@, views_of(entitys@)),
    {
        let name = Self::title(TabKind::Entitys, pathbuf.as_str());
        Ok(Self { name, content: TabContent::Entitys(SortBy::default(), pathbuf, entitys) })
    }

    /// A tab that shows `entity`, which was read at `pathbuf`.
    pub fn tab_view(pathbuf: String, entity: Entity) -> (made: Result<Self, JujikError>)
        ensures
            made matches Ok(tab) && tab@ == (TabView {
                name: tab_title(TabKind::View, pathbuf@),
                content: TabContentView::View(entity@),
            }),
    {
        let name = Self::title(TabKind::View, pathbuf.as_str());
        Ok(Self { name, content: TabContent::View(entity) })
    }

    /// A tab that edits `entity`, which was read at `pathbuf`.
    pub fn tab_editor(pathbuf: String, entity: Entity) -> (made: Result<Self, JujikError>)
        ensures
            made matches Ok(tab) && tab@ == (TabView {
                name: tab_title(TabKind::Editor, pathbuf@),
                content: TabContentView::Editor(entity@),
            }),
    {
        let name = Self::title(TabKind::Editor, pathbuf.as_str());
        Ok(Self { name, content: TabContent::Editor(entity) })
    }

    /// A tab that shows the result of a search, named after the path searched.
    pub fn tab_finder(finder: EntitysFinder) -> (made: Result<Self, JujikError>)
        ensures
            made matches Ok(tab) && tab@ == (TabView {
                name: tab_title(TabKind::Find, finder@.parameters.path),
                content: TabContentView::Find(finder@),
            }),
    {
        let path = finder.path();
        let name = Self::title(TabKind::Find, path.as_str());
        Ok(Self { name, content: TabContent::Find(finder) })
    }

    /// The tab that holds exactly the given name and content, as when a
    /// snapshot that was kept is taken up again.
    pub fn from_parts(name: String, content: TabContent) -> (tab: Self)
        ensures
            tab@ == (TabView { name: name@, content: content@ }),
    {
        Self { name, content }
    }

    /// The name of a new tab of `kind` for `path`.
    fn title(kind: TabKind, path: &str) -> (name: String)
        ensures
            name@ == tab_title(kind, path@),
    {
        let shown = match Entity::get_name(path) {
            Ok(shown) => shown,
            Err(_) => String::new(),
        };
        String::from_str(kind.label()).concat(": ").concat(shown.as_str())
    }

    pub fn name(&self) -> (name: String)
        ensures
            name@ == self@.name,
    {
        self.name.clone()
    }

    /// Which of the contents the tab holds.
    pub fn kind(&self) -> (kind: TabKind)
        ensures
            kind == self@.kind(),
    {
        match &self.content {
            TabContent::Empty => TabKind::Empty,
            TabContent::Entitys(..) => TabKind::Entitys,
            TabContent::View(_) => TabKind::View,
            TabContent::Editor(_) => TabKind::Editor,
            TabContent::Find(_) => TabKind::Find,
        }
    }

    /// The directory that the tab is about.
    pub fn path(&self) -> (path: String)
        ensures
            path@ == self@.path(),
    {
        match &self.content {
            TabContent::Entitys(_, pathbuf, _) => pathbuf.clone(),
            TabContent::View(entity) => entity.path_dir(),
            TabContent::Editor(entity) => entity.path_dir(),
            TabContent::Find(finder) => finder.path(),
            TabContent::Empty => String::new(),
        }
    }

    /// The same as `path`.
    pub fn path_str(&self) -> (path: String)
        ensures
            path@ == self@.path(),
    {
        self.path()
    }

    /// How the tab's listing is sorted; the default order for a tab without
    /// a listing.
    pub fn sortby(&self) -> (sortby: SortBy)
        ensures
            sortby == self@.sortby(),
    {
        match &self.content {
            TabContent::Entitys(sortby, _, _) => *sortby,
            _ => SortBy::default(),
        }
    }

    pub fn set_name(&mut self, name: String)
        ensures
            final(self)@ == (TabView { name: name@, ..old(self)@ }),
    {
        self.name = name;
    }

    /// Sets the order of the tab's listing; the listing itself stays as it
    /// is until it is sorted. A tab without a listing stays as it is.
    pub fn set_sortby(&mut self, new_sortby: &SortBy)
        ensures
            final(self)@ == old(self)@.with_sortby(*new_sortby),
    {
        let mut content = TabContent::Empty;
        std::mem::swap(&mut content, &mut self.content);
        self.content = match content {
            TabContent::Entitys(_, path, entitys) => TabContent::Entitys(
                *new_sortby,
                path,
                entitys,
            ),
            other => other,
        };
    }

    pub fn content(&self) -> (content: &TabContent)
        ensures
            content@ == self@.content,
    {
        &self.content
    }

    /// A copy of the tab's listing, if it has one.
    pub fn entitys(&self) -> (entitys: Option<Vec<Entity>>)
        ensures
            match entitys {
                Some(e) => self@.entitys() == Some(views_of(e@)),
                None => self@.entitys() is None,
            },
    {
        match &self.content {
            TabContent::Entitys(_, _, entitys) => Some(clone_entitys(entitys)),
            _ => None,
        }
    }

    /// The tab's listing itself, to be changed in place, if the tab has one.
    pub fn entitys_mut(&mut self) -> (entitys: Option<&mut Vec<Entity>>)
        ensures
            match entitys {
                Some(e) => old(self)@.entitys() == Some(views_of(e@)) && final(self)@ == old(
                    self,
                )@.with_entitys(views_of(final(e)@)),
                None => old(self)@.entitys() is None && final(self)@ == old(self)@,
            },
    {
        match &mut self.content {
            TabContent::Entitys(_, _, entitys) => Some(entitys),
            _ => None,
        }
    }

    /// Sorts the tab's listing by its order. A tab without a listing stays
    /// as it is.
    pub fn sort(&mut self)
        ensures
            final(self)@ == old(self)@.sorted(),
    {
        let mut content = TabContent::Empty;
        std::mem::swap(&mut content, &mut self.content);
        self.content = match content {
            TabContent::Entitys(sortby, path, entitys) => {
                let ascending = sort_entitys(entitys, &sortby.field);
                let sorted = match sortby.direction {
                    SortDirection::Ascending => ascending,
                    SortDirection::Descending => reverse_entitys(ascending),
                };
                TabContent::Entitys(sortby, path, sorted)
            },
            other => other,
        };
    }

    /// The directory whose entities the tab lists, if it has a listing: what
    /// has to be read again before `update_entitys`.
    pub fn listing_path(&self) -> (path: Option<String>)
        ensures
            text_of(path) == match self@.content {
                TabContentView::Entitys(_, p, _) => Some(p),
                _ => None,
            },
    {
        match &self.content {
            TabContent::Entitys(_, pathbuf, _) => Some(pathbuf.clone()),
            _ => None,
        }
    }

    /// Makes the tab list the directory `pathbuf`, whose entities are
    /// `entitys`, in the default order. A tab without a listing stays as it is.
    pub fn change_dir(&mut self, pathbuf: String, entitys: Vec<Entity>) -> (done: Result<
        (),
        JujikError,
    >)
        ensures
            done is Ok,
            final(self)@ == old(self)@.listing(pathbuf@, views_of(entitys@)),
    {
        if let TabContent::Entitys(..) = &self.content {
            match Tab::tab_entitys(pathbuf, entitys) {
                Ok(tab) => {
                    *self = tab;
                },
                Err(e) => {
                    return Err(e);
                },
            }
        }
        Ok(())
    }

    /// The directory above the listed one, where the tab has a listing and
    /// the listed directory has a parent: what has to be read before
    /// `change_dir_back`.
    pub fn back_target(&self) -> (parent: Option<String>)
        ensures
            text_of(parent) == self@.back_target(),
    {
        match &self.content {
            TabContent::Entitys(_, pathbuf, _) => crate::path::parent(pathbuf.as_str()),
            _ => None,
        }
    }

    /// Makes the tab list the directory above the listed one, whose entities
    /// are `entitys`. A tab without a listing, or whose directory has no
    /// parent, stays as it is.
    pub fn change_dir_back(&mut self, entitys: Vec<Entity>) -> (done: Result<(), JujikError>)
        ensures
            done is Ok,
            final(self)@ == match old(self)@.back_target() {
                Some(parent) => listing_tab(parent, views_of(entitys@)),
                None => old(self)@,
            },
    {
        match self.back_target() {
            Some(parent) => self.change_dir(parent, entitys),
            None => Ok(()),
        }
    }

    /// Empties the tab's listing. A tab without a listing stays as it is.
    pub fn clear_entitys(&mut self)
        ensures
            final(self)@ == old(self)@.with_entitys(Seq::empty()),
    {
        let done = self.update_entitys(Vec::new());
        assert(views_of(Seq::<Entity>::empty()) =~= Seq::empty());
    }

    /// Replaces the tab's listing by `entitys`, the entities now in its
    /// directory. A tab without a listing stays as it is.
    pub fn update_entitys(&mut self, entitys: Vec<Entity>) -> (done: Result<(), JujikError>)
        ensures
            done is Ok,
            final(self)@ == old(self)@.with_entitys(views_of(entitys@)),
    {
        let mut content = TabContent::Empty;
        std::mem::swap(&mut content, &mut self.content);
        self.content = match content {
            TabContent::Entitys(sortby, path, _) => TabContent::Entitys(sortby, path, entitys),
            other => other,
        };
        Ok(())
    }
}

impl TabView {
    /// Whether, for every entity, the entities of the tab's listing that tie
    /// with it under the tab's order read the same forwards and backwards;
    /// a tab without a listing has no ties.
    pub open spec fn ties_read_the_same_backwards(self) -> bool {
        match self.content {
            TabContentView::Entitys(sortby, _, entitys) => ties_read_the_same_backwards(
                entitys,
                order_by(sortby.field),
            ),
            _ => true,
        }
    }

    /// Whether entities of the tab's listing that tie under the tab's order
    /// are equal entities.
    pub open spec fn ties_are_equal(self) -> bool {
        match self.content {
            TabContentView::Entitys(sortby, _, entitys) => ties_are_equal(
                entitys,
                order_by(sortby.field),
            ),
            _ => true,
        }
    }
}

/// Sorting a tab twice gives what sorting it once gives: always in
/// ascending order, and in descending order where the listing's ties read
/// the same backwards. (Entities that tie are turned round by each
/// descending sort.)
pub proof fn lemma_sort_twice(tab: TabView)
    requires
        tab.sortby().direction == SortDirection::Descending
            ==> tab.ties_read_the_same_backwards(),
    ensures
        tab.sorted().sorted() == tab.sorted(),
{
    if let TabContentView::Entitys(sortby, _, entitys) = tab.content {
        lemma_order_by_is_strict_weak(sortby.field);
        lemma_stable_sort_idempotent(entitys, order_by(sortby.field));
        lemma_sort_descending_idempotent(entitys, order_by(sortby.field));
    }
}

/// In descending order, sorting a tab twice gives what sorting it once
/// gives only where the listing's ties read the same backwards.
pub proof fn lemma_sort_twice_descending_only_if(tab: TabView)
    requires
        tab.sortby().direction == SortDirection::Descending,
        tab.sorted().sorted() == tab.sorted(),
    ensures
        tab.ties_read_the_same_backwards(),
{
    if let TabContentView::Entitys(sortby, _, entitys) = tab.content {
        lemma_order_by_is_strict_weak(sortby.field);
        lemma_sort_descending_idempotent(entitys, order_by(sortby.field));
    }
}

/// The ties of a listing read the same backwards where entities that tie
/// are equal: such a tab can be sorted twice in either direction.
pub proof fn lemma_equal_ties_sort_twice(tab: TabView)
    requires
        tab.ties_are_equal(),
    ensures
        tab.ties_read_the_same_backwards(),
        tab.sorted().sorted() == tab.sorted(),
{
    if let TabContentView::Entitys(sortby, _, entitys) = tab.content {
        lemma_order_by_is_strict_weak(sortby.field);
        lemma_equal_ties_read_the_same_backwards(entitys, order_by(sortby.field));
    }
    lemma_sort_twice(tab);
}

} // verus!
