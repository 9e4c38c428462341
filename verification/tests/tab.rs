use jujik::entity::date::EntityDate;
use jujik::entity::find::{clone_entitys, same_entitys, DirectoryWalk, EntitysFinder, FindParameters};
use jujik::entity::kind::{EntityKind, NodeFlags};
use jujik::entity::owner::{EntityOwners, GroupRecord, UserRecord};
use jujik::entity::{Entity, NodeStat};
use jujik::order::entity_before;
use jujik::tab::{
    reverse_entitys, sort_entitys, SortBy, SortDirection, SortField, Tab, TabContent, TabKind,
};

fn owners(uid: u32, user: &str, gid: u32, group: &str) -> EntityOwners {
    EntityOwners::resolved(
        uid,
        gid,
        Some(UserRecord { name: user.to_string(), uid, gid }),
        Some(GroupRecord { name: group.to_string(), gid }),
    )
}

fn entity_with(path: &str, mode: u32, len: u64, secs: i64, owners: EntityOwners) -> Entity {
    let stat = NodeStat {
        canonical_path: path.to_string(),
        flags: NodeFlags {
            is_file: true,
            is_dir: false,
            is_symlink: false,
            is_block_device: false,
            is_char_device: false,
            is_fifo: false,
            is_socket: false,
        },
        leads_to_dir: false,
        mode,
        uid: owners.uid(),
        gid: owners.gid(),
        len,
        modified: Some(EntityDate::from_timestamp(secs, 0)),
        created: Some(EntityDate::from_timestamp(1000 - secs, 0)),
    };
    Entity::assemble(path, stat, owners)
}

fn entity(path: &str, len: u64) -> Entity {
    entity_with(path, 0o644, len, 100, owners(0, "root", 0, "root"))
}

fn paths(entitys: &Vec<Entity>) -> Vec<String> {
    entitys.iter().map(|e| e.path()).collect()
}

fn listing(entitys: Vec<Entity>, field: SortField, direction: SortDirection) -> Tab {
    let mut tab = Tab::tab_entitys("/tmp/x".to_string(), entitys).unwrap();
    tab.set_sortby(&SortBy { field, direction });
    tab
}

fn sorted_paths(entitys: Vec<Entity>, field: SortField, direction: SortDirection) -> Vec<String> {
    let mut tab = listing(entitys, field, direction);
    tab.sort();
    paths(&tab.entitys().unwrap())
}

#[test]
fn test_directory_navigation() {
    let mut tab = Tab::tab_entitys("/tmp/work".to_string(), vec![entity("/tmp/work/subdir", 0)]).unwrap();

    assert_eq!(tab.path(), "/tmp/work");

    tab.change_dir("/tmp/work/subdir".to_string(), Vec::new()).unwrap();
    assert_eq!(tab.path(), "/tmp/work/subdir");

    assert_eq!(tab.back_target(), Some("/tmp/work".to_string()));
    tab.change_dir_back(vec![entity("/tmp/work/subdir", 0)]).unwrap();
    assert_eq!(tab.path(), "/tmp/work");
}

#[test]
fn test_file_sorting_and_filtering() {
    let mut tab = Tab::tab_entitys(
        "/tmp/work".to_string(),
        vec![entity("/tmp/work/large.txt", 1000), entity("/tmp/work/small.txt", 1)],
    )
    .unwrap();

    tab.set_sortby(&SortBy {
        field: SortField::Size,
        direction: SortDirection::Ascending,
    });

    let entities = if let Some(entities) = tab.entitys() {
        entities
    } else {
        Vec::new()
    };

    assert!(entities.len() >= 2);
    let small_file = entities.iter().find(|e| e.name() == "small").unwrap();
    let large_file = entities.iter().find(|e| e.name() == "large").unwrap();
    assert!(small_file.size().size_byte() < large_file.size().size_byte());
}

#[test]
fn new_listing_tab_is_named_after_its_directory() {
    let tab = Tab::tab_entitys("/tmp/x".to_string(), vec![entity("/tmp/x/a.txt", 2)]).unwrap();
    assert_eq!(tab.name(), "Entitys: x");
    assert_eq!(tab.path(), "/tmp/x");
    assert_eq!(tab.path_str(), "/tmp/x");
    assert_eq!(tab.kind(), TabKind::Entitys);
    assert_eq!(tab.sortby(), SortBy::default());
    assert_eq!(tab.listing_path(), Some("/tmp/x".to_string()));
    assert_eq!(paths(&tab.entitys().unwrap()), vec!["/tmp/x/a.txt"]);
    assert!(matches!(tab.content(), TabContent::Entitys(..)));
}

#[test]
fn view_and_editor_tabs_are_about_the_entity_s_directory() {
    let view = Tab::tab_view("/tmp/x/a.txt".to_string(), entity("/tmp/x/a.txt", 2)).unwrap();
    assert_eq!(view.name(), "View: a");
    assert_eq!(view.kind(), TabKind::View);
    assert_eq!(view.path(), "/tmp/x");
    assert_eq!(view.entitys(), None);
    assert_eq!(view.sortby(), SortBy::default());
    assert_eq!(view.listing_path(), None);
    assert_eq!(view.back_target(), None);
    let editor = Tab::tab_editor("/tmp/x/a.txt".to_string(), entity("/tmp/x/a.txt", 2)).unwrap();
    assert_eq!(editor.name(), "Editor: a");
    assert_eq!(editor.kind(), TabKind::Editor);
    assert_eq!(editor.path(), "/tmp/x");
    assert_ne!(view, editor);
}

#[test]
fn finder_tab_is_about_the_path_searched() {
    let parameters = FindParameters { path: "/tmp/x".to_string(), ..FindParameters::default() };
    let mut walk = DirectoryWalk::new("/tmp/x".to_string());
    let _ = walk.next_path();
    let finder = EntitysFinder::find(parameters, walk).unwrap();
    let tab = Tab::tab_finder(finder.clone()).unwrap();
    assert_eq!(tab.name(), "Find: x");
    assert_eq!(tab.kind(), TabKind::Find);
    assert_eq!(tab.path(), "/tmp/x");
    assert_eq!(tab.content(), &TabContent::Find(finder));
}

#[test]
fn default_tab_shows_nothing() {
    let tab = Tab::default();
    assert_eq!(tab.name(), "");
    assert_eq!(tab.kind(), TabKind::Empty);
    assert_eq!(tab.path(), "");
    assert_eq!(tab.entitys(), None);
    assert_eq!(tab.content(), &TabContent::Empty);
    assert_eq!(TabContent::default(), TabContent::Empty);
}

#[test]
fn tab_kind_labels() {
    assert_eq!(TabKind::Entitys.label(), "Entitys");
    assert_eq!(TabKind::View.label(), "View");
    assert_eq!(TabKind::Editor.label(), "Editor");
    assert_eq!(TabKind::Find.label(), "Find");
    assert_eq!(TabKind::Empty.label(), "None");
}

#[test]
fn default_order_is_by_name_ascending() {
    assert_eq!(SortField::default(), SortField::Name);
    assert_eq!(SortDirection::default(), SortDirection::Ascending);
    assert_eq!(
        SortBy::default(),
        SortBy { field: SortField::Name, direction: SortDirection::Ascending }
    );
}

#[test]
fn set_sortby_does_not_sort() {
    let tab = listing(
        vec![entity("/tmp/x/b", 1), entity("/tmp/x/a", 2)],
        SortField::Name,
        SortDirection::Descending,
    );
    assert_eq!(tab.sortby().direction, SortDirection::Descending);
    assert_eq!(paths(&tab.entitys().unwrap()), vec!["/tmp/x/b", "/tmp/x/a"]);
    let mut view = Tab::tab_view("/tmp/x/a".to_string(), entity("/tmp/x/a", 2)).unwrap();
    let before = view.clone();
    view.set_sortby(&SortBy { field: SortField::Size, direction: SortDirection::Descending });
    assert_eq!(view, before);
}

#[test]
fn sort_by_name_orders_texts_by_code_point() {
    let entitys = vec![
        entity("/d/b", 1),
        entity("/d/a", 1),
        entity("/d/B", 1),
        entity("/d/ab", 1),
        entity("/d/é", 1),
        entity("/d/z", 1),
    ];
    assert_eq!(
        sorted_paths(entitys, SortField::Name, SortDirection::Ascending),
        vec!["/d/B", "/d/a", "/d/ab", "/d/b", "/d/z", "/d/é"]
    );
}

#[test]
fn sort_by_extension_puts_none_first() {
    let entitys = vec![
        entity("/d/a.txt", 1),
        entity("/d/b", 1),
        entity("/d/c.rs", 1),
        entity("/d/d.", 1),
    ];
    assert_eq!(
        sorted_paths(entitys, SortField::Extension, SortDirection::Ascending),
        vec!["/d/b", "/d/d.", "/d/c.rs", "/d/a.txt"]
    );
}

#[test]
fn sort_by_size_permissions_and_dates() {
    let root = owners(0, "root", 0, "root");
    let entitys = || {
        vec![
            entity_with("/d/a", 0o755, 30, 300, root.clone()),
            entity_with("/d/b", 0o600, 10, 200, root.clone()),
            entity_with("/d/c", 0o644, 20, 100, root.clone()),
        ]
    };
    assert_eq!(
        sorted_paths(entitys(), SortField::Size, SortDirection::Ascending),
        vec!["/d/b", "/d/c", "/d/a"]
    );
    assert_eq!(
        sorted_paths(entitys(), SortField::Permissions, SortDirection::Ascending),
        vec!["/d/b", "/d/c", "/d/a"]
    );
    assert_eq!(
        sorted_paths(entitys(), SortField::Modification, SortDirection::Ascending),
        vec!["/d/c", "/d/b", "/d/a"]
    );
    assert_eq!(
        sorted_paths(entitys(), SortField::Creation, SortDirection::Ascending),
        vec!["/d/a", "/d/b", "/d/c"]
    );
    assert_eq!(
        sorted_paths(entitys(), SortField::Creation, SortDirection::Descending),
        vec!["/d/c", "/d/b", "/d/a"]
    );
}

#[test]
fn sort_by_owners_compares_ids_before_names() {
    let entitys = vec![
        entity_with("/d/a", 0o644, 1, 1, owners(2, "aaa", 1, "x")),
        entity_with("/d/b", 0o644, 1, 1, owners(1, "zzz", 9, "x")),
        entity_with("/d/c", 0o644, 1, 1, owners(1, "zzz", 2, "x")),
        entity_with("/d/d", 0o644, 1, 1, owners(1, "bbb", 2, "y")),
        entity_with("/d/e", 0o644, 1, 1, owners(1, "bbb", 2, "x")),
    ];
    assert_eq!(
        sorted_paths(entitys, SortField::Owners, SortDirection::Ascending),
        vec!["/d/e", "/d/d", "/d/c", "/d/b", "/d/a"]
    );
}

#[test]
fn sort_keeps_ties_in_their_order() {
    let entitys = vec![
        entity("/d/b.2", 5),
        entity("/d/a.1", 5),
        entity("/d/c.0", 1),
        entity("/d/a.0", 5),
    ];
    assert_eq!(
        sorted_paths(entitys, SortField::Size, SortDirection::Ascending),
        vec!["/d/c.0", "/d/b.2", "/d/a.1", "/d/a.0"]
    );
}

#[test]
fn descending_is_ascending_reversed() {
    let entitys = vec![
        entity("/d/b.2", 5),
        entity("/d/a.1", 5),
        entity("/d/c.0", 1),
        entity("/d/a.0", 9),
    ];
    assert_eq!(
        sorted_paths(entitys, SortField::Size, SortDirection::Descending),
        vec!["/d/a.0", "/d/a.1", "/d/b.2", "/d/c.0"]
    );
}

#[test]
fn sort_twice_is_sort_once_ascending() {
    let entitys = vec![
        entity("/d/b.2", 5),
        entity("/d/a.1", 5),
        entity("/d/c.0", 1),
        entity("/d/a.0", 5),
        entity("/d/a.0", 7),
    ];
    for field in [
        SortField::Name,
        SortField::Extension,
        SortField::Permissions,
        SortField::Owners,
        SortField::Size,
        SortField::Modification,
        SortField::Creation,
    ] {
        let mut tab = listing(clone_entitys(&entitys), field, SortDirection::Ascending);
        tab.sort();
        let once = tab.clone();
        tab.sort();
        assert_eq!(tab, once);
    }
}

#[test]
fn sort_twice_is_sort_once_descending_without_unequal_ties() {
    let entitys = vec![
        entity("/d/b", 5),
        entity("/d/a", 6),
        entity("/d/c", 1),
        entity("/d/c", 1),
        entity("/d/d", 7),
    ];
    for field in [SortField::Name, SortField::Size] {
        let mut tab = listing(clone_entitys(&entitys), field, SortDirection::Descending);
        tab.sort();
        let once = tab.clone();
        tab.sort();
        assert_eq!(tab, once);
    }
}

#[test]
fn descending_sort_turns_unequal_ties_round() {
    let entitys = vec![entity("/d/a.txt", 5), entity("/d/a.rs", 5)];
    let mut tab = listing(entitys, SortField::Name, SortDirection::Descending);
    tab.sort();
    assert_eq!(paths(&tab.entitys().unwrap()), vec!["/d/a.rs", "/d/a.txt"]);
    tab.sort();
    assert_eq!(paths(&tab.entitys().unwrap()), vec!["/d/a.txt", "/d/a.rs"]);
}

#[test]
fn sort_leaves_other_tabs_alone() {
    let mut view = Tab::tab_view("/tmp/x/a".to_string(), entity("/tmp/x/a", 2)).unwrap();
    let before = view.clone();
    view.sort();
    assert_eq!(view, before);
    let mut empty = Tab::default();
    empty.sort();
    assert_eq!(empty, Tab::default());
}

#[test]
fn sort_entitys_and_reverse_entitys() {
    let sorted = sort_entitys(
        vec![entity("/d/c", 3), entity("/d/a", 1), entity("/d/b", 2)],
        &SortField::Name,
    );
    assert_eq!(paths(&sorted), vec!["/d/a", "/d/b", "/d/c"]);
    assert_eq!(paths(&reverse_entitys(sorted)), vec!["/d/c", "/d/b", "/d/a"]);
    assert_eq!(sort_entitys(Vec::new(), &SortField::Size), Vec::new());
    assert_eq!(reverse_entitys(Vec::new()), Vec::new());
}

#[test]
fn entity_before_is_strict() {
    let a = entity("/d/a", 1);
    let b = entity("/d/b", 1);
    assert!(entity_before(&SortField::Name, &a, &b));
    assert!(!entity_before(&SortField::Name, &b, &a));
    assert!(!entity_before(&SortField::Name, &a, &a));
    assert!(!entity_before(&SortField::Size, &a, &b));
    assert!(!entity_before(&SortField::Size, &b, &a));
}

#[test]
fn change_dir_makes_a_fresh_listing() {
    let mut tab = listing(vec![entity("/tmp/x/a", 1)], SortField::Size, SortDirection::Descending);
    tab.set_name("Mine".to_string());
    tab.change_dir("/srv/data".to_string(), vec![entity("/srv/data/q", 1)]).unwrap();
    assert_eq!(tab.name(), "Entitys: data");
    assert_eq!(tab.path(), "/srv/data");
    assert_eq!(tab.sortby(), SortBy::default());
    assert_eq!(paths(&tab.entitys().unwrap()), vec!["/srv/data/q"]);
}

#[test]
fn change_dir_leaves_other_tabs_alone() {
    let mut view = Tab::tab_view("/tmp/x/a".to_string(), entity("/tmp/x/a", 2)).unwrap();
    let before = view.clone();
    view.change_dir("/srv".to_string(), Vec::new()).unwrap();
    assert_eq!(view, before);
    view.change_dir_back(Vec::new()).unwrap();
    assert_eq!(view, before);
    view.update_entitys(vec![entity("/q", 1)]).unwrap();
    assert_eq!(view, before);
    view.clear_entitys();
    assert_eq!(view, before);
}

#[test]
fn change_dir_back_stops_at_the_root() {
    let mut tab = Tab::tab_entitys("/".to_string(), vec![entity("/etc", 1)]).unwrap();
    assert_eq!(tab.back_target(), None);
    let before = tab.clone();
    tab.change_dir_back(vec![entity("/nowhere", 1)]).unwrap();
    assert_eq!(tab, before);
}

#[test]
fn update_and_clear_replace_the_listing_only() {
    let mut tab = listing(vec![entity("/tmp/x/a", 1)], SortField::Size, SortDirection::Descending);
    tab.set_name("Mine".to_string());
    tab.update_entitys(vec![entity("/tmp/x/b", 1), entity("/tmp/x/c", 1)]).unwrap();
    assert_eq!(tab.name(), "Mine");
    assert_eq!(tab.path(), "/tmp/x");
    assert_eq!(tab.sortby().field, SortField::Size);
    assert_eq!(paths(&tab.entitys().unwrap()), vec!["/tmp/x/b", "/tmp/x/c"]);
    tab.clear_entitys();
    assert_eq!(tab.entitys(), Some(Vec::new()));
    assert_eq!(tab.path(), "/tmp/x");
    assert_eq!(tab.name(), "Mine");
}

#[test]
fn rows_of_entities_compare_place_by_place() {
    let a = vec![entity("/d/a", 1), entity("/d/b", 2)];
    assert!(same_entitys(&a, &clone_entitys(&a)));
    assert!(!same_entitys(&a, &vec![entity("/d/b", 2), entity("/d/a", 1)]));
    assert!(!same_entitys(&a, &vec![entity("/d/a", 1)]));
    assert!(same_entitys(&Vec::new(), &Vec::new()));
    assert_eq!(*a[0].kind(), EntityKind::File);
}

#[test]
fn entitys_mut_changes_the_listing_in_place() {
    let mut tab = listing(vec![entity("/tmp/x/a", 1)], SortField::Name, SortDirection::Ascending);
    tab.entitys_mut().unwrap().push(entity("/tmp/x/b", 2));
    assert_eq!(paths(&tab.entitys().unwrap()), vec!["/tmp/x/a", "/tmp/x/b"]);
    tab.entitys_mut().unwrap().clear();
    assert_eq!(tab.entitys(), Some(Vec::new()));
    assert_eq!(tab.path(), "/tmp/x");
    let mut view = Tab::tab_view("/tmp/x/a".to_string(), entity("/tmp/x/a", 2)).unwrap();
    assert!(view.entitys_mut().is_none());
}

#[test]
fn tab_from_parts_holds_what_it_is_given() {
    let content = TabContent::Entitys(
        SortBy { field: SortField::Size, direction: SortDirection::Descending },
        "/srv".to_string(),
        vec![entity("/srv/a", 1)],
    );
    let tab = Tab::from_parts("Mine".to_string(), content);
    assert_eq!(tab.name(), "Mine");
    assert_eq!(tab.path(), "/srv");
    assert_eq!(tab.sortby().field, SortField::Size);
    assert_eq!(paths(&tab.entitys().unwrap()), vec!["/srv/a"]);
    let finder = EntitysFinder::from_parts(FindParameters::default(), vec![entity("/srv/a", 1)]);
    assert_eq!(paths(&finder.entitys()), vec!["/srv/a"]);
    assert_eq!(finder.parameters(), FindParameters::default());
}

#[test]
fn descending_sort_twice_is_once_when_ties_read_the_same_backwards() {
    let entitys = vec![
        entity("/d/a.txt", 5),
        entity("/d/z", 5),
        entity("/d/a.rs", 5),
        entity("/d/a.txt", 5),
    ];
    let mut tab = listing(entitys, SortField::Name, SortDirection::Descending);
    tab.sort();
    let once = tab.clone();
    assert_eq!(
        paths(&once.entitys().unwrap()),
        vec!["/d/z", "/d/a.txt", "/d/a.rs", "/d/a.txt"]
    );
    tab.sort();
    assert_eq!(tab, once);
}
