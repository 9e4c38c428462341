//! Snapshot of one filesystem node's metadata.

pub mod date;
pub mod find;
pub mod kind;
pub mod measure;
pub mod owner;
pub mod permission;
pub mod size;
pub mod tree;

use crate::entity::date::{epoch, EntityDate, Timestamp};
use crate::entity::kind::{kind_of_flags, EntityKind, NodeFlags};
use crate::entity::owner::{EntityOwners, OwnersView};
use crate::entity::permission::EntityPermissions;
use crate::entity::size::EntitySize;
use crate::error::JujikError;
use crate::path::{path_extension, path_file_stem, path_parent, same_text, text_of};
use vstd::prelude::*;
use vstd::string::StringExecFns;

verus! {

/// What was read of a node from the filesystem, before an entity is made of it.
#[derive(Debug)]
pub struct NodeStat {
    /// The node's absolute path, with the links on the way to it resolved.
    pub canonical_path: String,
    /// The node's own type; a link is not followed.
    pub flags: NodeFlags,
    /// Whether the path leads to a directory when links are followed.
    pub leads_to_dir: bool,
    pub mode: u32,
    pub uid: u32,
    pub gid: u32,
    pub len: u64,
    /// When the node was last modified, where the platform tells.
    pub modified: Option<EntityDate>,
    /// When the node was created, where the platform tells.
    pub created: Option<EntityDate>,
}

/// A snapshot of one node's metadata. It is made once and never changed;
/// a later state of the node is another entity.
#[derive(Debug, Eq, Hash)]
pub struct Entity {
    global_path: String,
    name: String,
    extension: Option<String>,
    kind: EntityKind,
    permissions: EntityPermissions,
    owners: EntityOwners,
    size: EntitySize,
    modification: EntityDate,
    creation: EntityDate,
}

/// What an entity holds, with its texts as sequences of characters.
pub struct EntityView {
    pub path: Seq<char>,
    pub name: Seq<char>,
    pub extension: Option<Seq<char>>,
    pub kind: EntityKind,
    pub permissions: u32,
    pub owners: OwnersView,
    pub size: u64,
    pub modification: Timestamp,
    pub creation: Timestamp,
}

impl View for Entity {
    type V = EntityView;

    closed spec fn view(&self) -> EntityView {
        EntityView {
            path: self.global_path@,
            name: self.name@,
            extension: text_of(self.extension),
            kind: self.kind,
            permissions: self.permissions@,
            owners: self.owners@,
            size: self.size@,
            modification: self.modification@,
            creation: self.creation@,
        }
    }
}

/// The views of a sequence of entities, one for one.
pub open spec fn views_of(entitys: Seq<Entity>) -> Seq<EntityView> {
    entitys.map_values(|e: Entity| e@)
}

/// The name shown for a path: the stem of its file name, and for a path
/// without a file name the path itself if it is `.`, `..` or `/`, else nothing.
pub open spec fn name_of_path(path: Seq<char>) -> Seq<char> {
    match path_file_stem(path) {
        Some(stem) => stem,
        None => if path == "."@ || path == ".."@ || path == "/"@ {
            path
        } else {
            Seq::empty()
        },
    }
}

/// The permissions that a node of `kind` is planned with before it exists.
pub open spec fn planned_mode(kind: EntityKind) -> u32 {
    match kind {
        EntityKind::File => 0o644,
        EntityKind::Directory => 0o755,
        _ => 0o000,
    }
}

/// An entity's name followed by a dot and its extension, where it has one.
pub open spec fn full_name(name: Seq<char>, extension: Option<Seq<char>>) -> Seq<char> {
    match extension {
        Some(ext) => name + "."@ + ext,
        None => name,
    }
}

/// A date that the platform told, or the epoch where it told none.
pub open spec fn date_told(date: Option<EntityDate>) -> Timestamp {
    match date {
        Some(date) => date@,
        None => epoch(),
    }
}

/// The entity of the node that was read as `stat` at `path` and is owned
/// by `owners`: the path is the canonical one, name and extension are those
/// of the path as given, a path that leads to a directory has no size, and
/// a time that the platform did not tell is the epoch.
pub open spec fn entity_read(path: Seq<char>, stat: NodeStat, owners: OwnersView) -> EntityView {
    EntityView {
        path: stat.canonical_path@,
        name: name_of_path(path),
        extension: path_extension(path),
        kind: kind_of_flags(stat.flags),
        permissions: stat.mode & 0o777,
        owners,
        size: if stat.leads_to_dir {
            0
        } else {
            stat.len
        },
        modification: date_told(stat.modified),
        creation: date_told(stat.created),
    }
}

/// The plan of a node that does not exist yet: at `path`, named `name`, of
/// kind `kind`, owned by `owners`, without size, dated at the epoch.
pub open spec fn entity_planned(
    path: Seq<char>,
    name: Seq<char>,
    kind: EntityKind,
    owners: OwnersView,
) -> EntityView {
    EntityView {
        path,
        name,
        extension: path_extension(path),
        kind,
        permissions: planned_mode(kind),
        owners,
        size: 0,
        modification: epoch(),
        creation: epoch(),
    }
}

/// Whether two optional texts are both absent or hold the same characters.
pub fn same_optional_text(a: &Option<String>, b: &Option<String>) -> (same: bool)
    ensures
        same == (text_of(*a) == text_of(*b)),
{
    match a {
        Some(a) => match b {
            Some(b) => *a == *b,
            None => false,
        },
        None => b.is_none(),
    }
}

impl PartialEq for Entity {
    fn eq(&self, other: &Self) -> (same: bool) {
        let same_extension = same_optional_text(&self.extension, &other.extension);
        self.global_path == other.global_path && self.name == other.name && same_extension
            && self.kind == other.kind && self.permissions == other.permissions && self.owners
            == other.owners && self.size == other.size && self.modification == other.modification
            && self.creation == other.creation
    }
}

impl vstd::std_specs::cmp::PartialEqSpecImpl for Entity {
    open spec fn obeys_eq_spec() -> bool {
        true
    }

    open spec fn eq_spec(&self, other: &Self) -> bool {
        self@ == other@
    }
}

impl Clone for Entity {
    fn clone(&self) -> (copy: Self)
        ensures
            copy@ == self@,
    {
        let extension = match &self.extension {
            Some(ext) => Some(ext.clone()),
            None => None,
        };
        Self {
            global_path: self.global_path.clone(),
            name: self.name.clone(),
            extension,
            kind: self.kind,
            permissions: self.permissions,
            owners: self.owners.clone(),
            size: self.size,
            modification: self.modification,
            creation: self.creation,
        }
    }
}

impl Default for Entity {
    /// An entity of unknown kind without path, name or owner.
    fn default() -> (e: Self)
        ensures
            e@.path.len() == 0,
            e@.name.len() == 0,
            e@.extension is None,
            e@.kind == EntityKind::Unknown,
            e@.permissions == 0,
            e@.size == 0,
            e@.modification == epoch(),
            e@.creation == epoch(),
    {
        Self {
            global_path: String::new(),
            name: String::new(),
            extension: None,
            kind: EntityKind::Unknown,
            permissions: EntityPermissions::default(),
            owners: EntityOwners::default(),
            size: EntitySize::default(),
            modification: EntityDate::default(),
            creation: EntityDate::default(),
        }
    }
}

impl Entity {
    /// The entity of the node that was read as `stat` at `path`. The owners'
    /// names are looked up; only where that lookup fails is there no entity.
    pub fn new(path: &str, stat: NodeStat) -> (made: Result<Self, JujikError>)
        ensures
            made matches Ok(e) ==> e@ == entity_read(path@, stat, e@.owners) && e@.owners.uid
                == stat.uid && e@.owners.gid == stat.gid,
            made matches Err(e) ==> e is Nix,
    {
        match EntityOwners::new(stat.uid, stat.gid) {
            Ok(owners) => Ok(Self::assemble(path, stat, owners)),
            Err(e) => Err(e),
        }
    }

    /// The entity of the node that was read as `stat` at `path`, owned by
    /// `owners`.
    pub fn assemble(path: &str, stat: NodeStat, owners: EntityOwners) -> (e: Self)
        ensures
            e@ == entity_read(path@, stat, owners@),
    {
        let name = Self::name_for(path);
        let extension = crate::path::extension(path);
        let kind = EntityKind::from_flags(&stat.flags);
        let permissions = EntityPermissions::new(stat.mode);
        let size = if stat.leads_to_dir {
            EntitySize::default()
        } else {
            EntitySize::new(stat.len)
        };
        let modification = match stat.modified {
            Some(date) => date,
            None => EntityDate::default(),
        };
        let creation = match stat.created {
            Some(date) => date,
            None => EntityDate::default(),
        };
        Self {
            global_path: stat.canonical_path,
            name,
            extension,
            kind,
            permissions,
            owners,
            size,
            modification,
            creation,
        }
    }

    /// The plan of a node that does not exist yet: at `path`, named `name`,
    /// of kind `kind`, owned by the user of this process. Only where the
    /// lookup of that user fails is there no plan.
    pub fn ghost(path: String, name: String, kind: EntityKind) -> (made: Result<Self, JujikError>)
        ensures
            made matches Ok(e) ==> e@ == entity_planned(path@, name@, kind, e@.owners),
            made matches Err(e) ==> e is Nix,
    {
        match EntityOwners::current() {
            Ok(owners) => Ok(Self::planned(path, name, kind, owners)),
            Err(e) => Err(e),
        }
    }

    /// The plan of a node at `path`, named `name`, of kind `kind`, owned by
    /// `owners`.
    pub fn planned(path: String, name: String, kind: EntityKind, owners: EntityOwners) -> (e: Self)
        ensures
            e@ == entity_planned(path@, name@, kind, owners@),
    {
        let extension = crate::path::extension(path.as_str());
        let permissions = EntityPermissions::new(
            match kind {
                EntityKind::File => 0o644,
                EntityKind::Directory => 0o755,
                _ => 0o000,
            },
        );
        assert(0o644u32 & 0o777 == 0o644) by (bit_vector);
        assert(0o755u32 & 0o777 == 0o755) by (bit_vector);
        assert(0u32 & 0o777 == 0) by (bit_vector);
        Self {
            global_path: path,
            name,
            extension,
            kind,
            permissions,
            owners,
            size: EntitySize::default(),
            modification: EntityDate::default(),
            creation: EntityDate::default(),
        }
    }

    /// The entity that holds exactly the given parts, as when a snapshot
    /// that was kept is taken up again.
    pub fn from_parts(
        global_path: String,
        name: String,
        extension: Option<String>,
        kind: EntityKind,
        permissions: EntityPermissions,
        owners: EntityOwners,
        size: EntitySize,
        modification: EntityDate,
        creation: EntityDate,
    ) -> (e: Self)
        ensures
            e@ == (EntityView {
                path: global_path@,
                name: name@,
                extension: text_of(extension),
                kind,
                permissions: permissions@,
                owners: owners@,
                size: size@,
                modification: modification@,
                creation: creation@,
            }),
    {
        Self {
            global_path,
            name,
            extension,
            kind,
            permissions,
            owners,
            size,
            modification,
            creation,
        }
    }

    /// The name shown for `path`.
    fn name_for(path: &str) -> (name: String)
        ensures
            name@ == name_of_path(path@),
    {
        match crate::path::file_stem(path) {
            Some(stem) => stem,
            None => {
                if same_text(path, ".") || same_text(path, "..") || same_text(path, "/") {
                    String::from_str(path)
                } else {
                    String::new()
                }
            },
        }
    }

    /// The name shown for `path`: the stem of its file name, and for a path
    /// without a file name the path itself if it is `.`, `..` or `/`, else
    /// nothing. A path held as text always has one.
    pub fn get_name(path: &str) -> (name: Result<String, JujikError>)
        ensures
            name matches Ok(n) && n@ == name_of_path(path@),
    {
        Ok(Self::name_for(path))
    }

    pub fn path(&self) -> (path: String)
        ensures
            path@ == self@.path,
    {
        self.global_path.clone()
    }

    pub fn path_str(&self) -> (path: String)
        ensures
            path@ == self@.path,
    {
        self.global_path.clone()
    }

    /// The directory that holds the node, or the empty path where the node's
    /// path has no parent.
    pub fn path_dir(&self) -> (dir: String)
        ensures
            dir@ == match path_parent(self@.path) {
                Some(parent) => parent,
                None => Seq::empty(),
            },
    {
        match crate::path::parent(self.global_path.as_str()) {
            Some(parent) => parent,
            None => String::new(),
        }
    }

    /// The same as `path_dir`.
    pub fn path_dir_str(&self) -> (dir: String)
        ensures
            dir@ == match path_parent(self@.path) {
                Some(parent) => parent,
                None => Seq::empty(),
            },
    {
        self.path_dir()
    }

    pub fn name(&self) -> (name: String)
        ensures
            name@ == self@.name,
    {
        self.name.clone()
    }

    /// The name followed by a dot and the extension, where there is one.
    pub fn name_with_extension(&self) -> (name: String)
        ensures
            name@ == full_name(self@.name, self@.extension),
    {
        match &self.extension {
            Some(extension) => self.name.clone().concat(".").concat(extension.as_str()),
            None => self.name.clone(),
        }
    }

    pub fn extension(&self) -> (extension: &Option<String>)
        ensures
            text_of(*extension) == self@.extension,
    {
        &self.extension
    }

    /// The extension, or the word `None` where there is none.
    pub fn extension_str(&self) -> (extension: String)
        ensures
            extension@ == match self@.extension {
                Some(ext) => ext,
                None => "None"@,
            },
    {
        match &self.extension {
            Some(extension) => extension.clone(),
            None => String::from_str("None"),
        }
    }

    pub fn kind(&self) -> (kind: &EntityKind)
        ensures
            *kind == self@.kind,
    {
        &self.kind
    }

    pub fn permissions(&self) -> (permissions: &EntityPermissions)
        ensures
            permissions@ == self@.permissions,
    {
        &self.permissions
    }

    pub fn owners(&self) -> (owners: &EntityOwners)
        ensures
            owners@ == self@.owners,
    {
        &self.owners
    }

    pub fn size(&self) -> (size: &EntitySize)
        ensures
            size@ == self@.size,
    {
        &self.size
    }

    pub fn modification(&self) -> (date: &EntityDate)
        ensures
            date@ == self@.modification,
    {
        &self.modification
    }

    pub fn creation(&self) -> (date: &EntityDate)
        ensures
            date@ == self@.creation,
    {
        &self.creation
    }

    pub fn is_file(&self) -> (file: bool)
        ensures
            file == (self@.kind == EntityKind::File),
    {
        self.kind == EntityKind::File
    }

    pub fn is_dir(&self) -> (dir: bool)
        ensures
            dir == (self@.kind == EntityKind::Directory),
    {
        self.kind == EntityKind::Directory
    }
}

} // verus!
