use jujik::entity::date::EntityDate;
use jujik::entity::find::{DirectoryWalk, EntitysFinder, FindParameters, Visit};
use jujik::entity::kind::{EntityKind, NodeFlags};
use jujik::entity::owner::EntityOwners;
use jujik::entity::permission::EntityPermissions;
use jujik::entity::size::EntitySize;
use jujik::entity::{Entity, NodeStat};
use jujik::error::JujikError;

fn node(path: &str, is_dir: bool) -> Entity {
    let stat = NodeStat {
        canonical_path: path.to_string(),
        flags: NodeFlags {
            is_file: !is_dir,
            is_dir,
            is_symlink: false,
            is_block_device: false,
            is_char_device: false,
            is_fifo: false,
            is_socket: false,
        },
        leads_to_dir: is_dir,
        mode: 0o644,
        uid: 0,
        gid: 0,
        len: 2,
        modified: None,
        created: None,
    };
    Entity::assemble(path, stat, EntityOwners::resolved(0, 0, None, None))
}

fn children(paths: &[&str]) -> Vec<String> {
    paths.iter().map(|p| p.to_string()).collect()
}

/// The tree of the scenario: `/tmp/x` holds `a.txt` and `b`, and `b` holds `c`.
fn read(path: &str) -> Visit {
    match path {
        "/tmp/x" => Visit::Directory(Some(node(path, true)), children(&["/tmp/x/a.txt", "/tmp/x/b"])),
        "/tmp/x/a.txt" => Visit::Leaf(Some(node(path, false))),
        "/tmp/x/b" => Visit::Directory(Some(node(path, true)), children(&["/tmp/x/b/c"])),
        "/tmp/x/b/c" => Visit::Leaf(Some(node(path, false))),
        _ => Visit::Unreadable,
    }
}

fn walk_all(root: &str) -> DirectoryWalk {
    let mut walk = DirectoryWalk::new(root.to_string());
    while let Some(path) = walk.next_path() {
        walk.record(read(&path));
    }
    walk
}

fn names(entitys: &Vec<Entity>) -> Vec<String> {
    entitys.iter().map(|e| e.name_with_extension()).collect()
}

#[test]
fn walk_finds_every_node_once_root_included() {
    let walk = walk_all("/tmp/x");
    assert!(walk.is_done());
    let finder = EntitysFinder::find(
        FindParameters { path: "/tmp/x".to_string(), ..FindParameters::default() },
        walk,
    )
    .unwrap();
    assert_eq!(names(&finder.entitys()), vec!["x", "a.txt", "b", "c"]);
    assert_eq!(finder.entitys().len(), 4);
    assert_eq!(finder.parameters().path, "/tmp/x");
    assert_eq!(finder.path(), "/tmp/x");
}

#[test]
fn walk_goes_level_by_level() {
    let mut walk = DirectoryWalk::new("/r".to_string());
    let mut order = Vec::new();
    while let Some(path) = walk.next_path() {
        let visit = match path.as_str() {
            "/r" => Visit::Directory(Some(node("/r", true)), children(&["/r/a", "/r/b"])),
            "/r/a" => Visit::Directory(Some(node("/r/a", true)), children(&["/r/a/deep"])),
            "/r/b" => Visit::Directory(Some(node("/r/b", true)), children(&["/r/b/deep"])),
            other => Visit::Leaf(Some(node(other, false))),
        };
        order.push(path);
        walk.record(visit);
    }
    assert_eq!(order, vec!["/r", "/r/a", "/r/b", "/r/a/deep", "/r/b/deep"]);
    let found: Vec<String> = walk.into_entitys().iter().map(|e| e.path()).collect();
    assert_eq!(found, order);
}

#[test]
fn walk_skips_what_cannot_be_read() {
    let mut walk = DirectoryWalk::new("/r".to_string());
    while let Some(path) = walk.next_path() {
        let visit = match path.as_str() {
            "/r" => Visit::Directory(None, children(&["/r/gone", "/r/locked", "/r/ok"])),
            "/r/gone" => Visit::Unreadable,
            "/r/locked" => Visit::Directory(Some(node("/r/locked", true)), Vec::new()),
            "/r/ok" => Visit::Leaf(Some(node("/r/ok", false))),
            _ => Visit::Leaf(None),
        };
        walk.record(visit);
    }
    let found: Vec<String> = walk.into_entitys().iter().map(|e| e.path()).collect();
    assert_eq!(found, vec!["/r/locked", "/r/ok"]);
}

#[test]
fn walk_of_a_missing_root_finds_nothing() {
    let walk = walk_all("/nowhere");
    assert!(walk.is_done());
    assert_eq!(walk.into_entitys(), Vec::new());
}

#[test]
fn new_walk_has_the_root_to_visit() {
    let mut walk = DirectoryWalk::new("/tmp/x".to_string());
    assert!(!walk.is_done());
    assert_eq!(walk.next_path(), Some("/tmp/x".to_string()));
    assert!(walk.is_done());
    assert_eq!(walk.next_path(), None);
    walk.record(Visit::Leaf(Some(node("/tmp/x", false))));
    assert!(walk.is_done());
    assert_eq!(walk.into_entitys().len(), 1);
}

#[test]
fn unfinished_walk_gives_what_it_found() {
    let mut walk = DirectoryWalk::new("/tmp/x".to_string());
    let root = walk.next_path().unwrap();
    walk.record(read(&root));
    assert!(!walk.is_done());
    let parameters = FindParameters { path: "/tmp/x".to_string(), ..FindParameters::default() };
    let finder = EntitysFinder::find(parameters, walk).unwrap();
    assert_eq!(names(&finder.entitys()), vec!["x"]);
}

#[test]
fn walk_of_another_path_is_no_result_of_the_search() {
    let walk = walk_all("/tmp/x");
    assert_eq!(walk.root(), "/tmp/x");
    match EntitysFinder::find(FindParameters::default(), walk) {
        Err(JujikError::Other(message)) => assert_eq!(
            message,
            "The walk was not started at the path searched, but at /tmp/x"
        ),
        other => panic!("expected an error, got {:?}", other),
    }
}

#[test]
fn a_node_is_a_directory_by_its_own_type() {
    let none = NodeFlags {
        is_file: false,
        is_dir: false,
        is_symlink: false,
        is_block_device: false,
        is_char_device: false,
        is_fifo: false,
        is_socket: false,
    };
    let dir = NodeFlags { is_dir: true, ..none };
    let link = NodeFlags { is_symlink: true, ..none };
    match Visit::of_node(&dir, Some(node("/r", true)), children(&["/r/a"])) {
        Visit::Directory(Some(entity), below) => {
            assert_eq!(entity.path(), "/r");
            assert_eq!(below, vec!["/r/a"]);
        }
        other => panic!("unexpected {:?}", other),
    }
    assert!(matches!(Visit::of_node(&dir, None, Vec::new()), Visit::Directory(None, below) if below.is_empty()));
    match Visit::of_node(&link, Some(node("/r/l", false)), children(&["/r/l/a"])) {
        Visit::Leaf(Some(entity)) => assert_eq!(entity.path(), "/r/l"),
        other => panic!("unexpected {:?}", other),
    }
    assert!(matches!(Visit::of_node(&none, None, children(&["/q"])), Visit::Leaf(None)));
}

#[test]
fn default_parameters_search_the_root() {
    let parameters = FindParameters::default();
    assert_eq!(parameters.path, "/");
    assert_eq!(parameters.regex, "");
    assert_eq!(parameters.name, "");
    assert_eq!(parameters.extension, "");
    assert_eq!(parameters.kind, EntityKind::Unknown);
    assert_eq!(parameters.permissions, EntityPermissions::default());
    assert_eq!(parameters.owners, EntityOwners::default());
    assert_eq!(parameters.size, (EntitySize::default(), EntitySize::default()));
    assert_eq!(parameters.date, (EntityDate::default(), EntityDate::default()));
    assert_eq!(parameters.clone(), parameters);
    assert_ne!(FindParameters { name: "x".to_string(), ..FindParameters::default() }, parameters);
}

#[test]
fn default_finder_found_nothing() {
    let finder = EntitysFinder::default();
    assert_eq!(finder.entitys(), Vec::new());
    assert_eq!(finder.parameters(), FindParameters::default());
    assert_eq!(finder.clone(), finder);
}
