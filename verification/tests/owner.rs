use jujik::entity::owner::{EntityOwners, GroupRecord, UserRecord};
use jujik::error::JujikError;

fn user(name: &str, uid: u32, gid: u32) -> Option<UserRecord> {
    Some(UserRecord { name: name.to_string(), uid, gid })
}

fn group(name: &str, gid: u32) -> Option<GroupRecord> {
    Some(GroupRecord { name: name.to_string(), gid })
}

#[test]
fn resolved_takes_names_from_the_entries() {
    let owners = EntityOwners::resolved(1000, 100, user("ann", 1000, 100), group("users", 100));
    assert_eq!(owners.uid(), 1000);
    assert_eq!(owners.gid(), 100);
    assert_eq!(owners.username(), "ann");
    assert_eq!(owners.groupname(), "users");
}

#[test]
fn resolved_leaves_names_empty_without_entries() {
    let owners = EntityOwners::resolved(4242, 4343, None, None);
    assert_eq!(owners.uid(), 4242);
    assert_eq!(owners.gid(), 4343);
    assert_eq!(owners.username(), "");
    assert_eq!(owners.groupname(), "");
}

#[test]
fn new_keeps_the_ids_it_was_given() {
    let owners = EntityOwners::new(0, 0).unwrap();
    assert_eq!(owners.uid(), 0);
    assert_eq!(owners.gid(), 0);
    assert_eq!(owners.username(), "root");
    assert_eq!(owners.groupname(), "root");
    let nobody = EntityOwners::new(3_999_999_999, 3_999_999_998).unwrap();
    assert_eq!(nobody.uid(), 3_999_999_999);
    assert_eq!(nobody.gid(), 3_999_999_998);
    assert_eq!(nobody.username(), "");
    assert_eq!(nobody.groupname(), "");
}

#[test]
fn of_process_needs_both_entries() {
    let both = EntityOwners::of_process(user("ann", 1000, 100), group("staff", 50));
    assert_eq!(both.uid(), 1000);
    assert_eq!(both.gid(), 100);
    assert_eq!(both.username(), "ann");
    assert_eq!(both.groupname(), "staff");
    assert_eq!(EntityOwners::of_process(user("ann", 1000, 100), None), EntityOwners::default());
    assert_eq!(EntityOwners::of_process(None, group("staff", 50)), EntityOwners::default());
}

#[test]
fn current_is_a_user_of_this_machine() {
    let owners = EntityOwners::current().unwrap();
    if owners != EntityOwners::default() {
        let looked_up = EntityOwners::new(owners.uid(), owners.gid()).unwrap();
        assert_eq!(owners.username(), looked_up.username());
        assert!(!owners.username().is_empty());
    }
}

#[test]
fn default_is_zero_without_names() {
    let owners = EntityOwners::default();
    assert_eq!(owners.uid(), 0);
    assert_eq!(owners.gid(), 0);
    assert_eq!(owners.username(), "");
    assert_eq!(owners.groupname(), "");
}

#[test]
fn assign_user_takes_name_and_id_together() {
    let mut owners = EntityOwners::resolved(1, 2, user("one", 1, 2), group("two", 2));
    owners.assign_user("ann".to_string(), user("ann", 1000, 100)).unwrap();
    assert_eq!(owners.uid(), 1000);
    assert_eq!(owners.username(), "ann");
    assert_eq!(owners.gid(), 2);
    assert_eq!(owners.groupname(), "two");
}

#[test]
fn assign_group_takes_name_and_id_together() {
    let mut owners = EntityOwners::resolved(1, 2, user("one", 1, 2), group("two", 2));
    owners.assign_group("staff".to_string(), group("staff", 50)).unwrap();
    assert_eq!(owners.gid(), 50);
    assert_eq!(owners.groupname(), "staff");
    assert_eq!(owners.uid(), 1);
    assert_eq!(owners.username(), "one");
}

#[test]
fn unknown_user_changes_nothing() {
    let mut owners = EntityOwners::resolved(1, 2, user("one", 1, 2), group("two", 2));
    let before = owners.clone();
    match owners.assign_user("ghost".to_string(), None) {
        Err(JujikError::Other(message)) => {
            assert_eq!(message, "Can not set User from username: ghost")
        }
        other => panic!("expected an error, got {:?}", other),
    }
    assert_eq!(owners, before);
    match owners.assign_group("ghosts".to_string(), None) {
        Err(JujikError::Other(message)) => {
            assert_eq!(message, "Can not set Group from groupname: ghosts")
        }
        other => panic!("expected an error, got {:?}", other),
    }
    assert_eq!(owners, before);
}

#[test]
fn set_username_asks_the_user_database() {
    let mut owners = EntityOwners::resolved(1000, 100, user("ann", 1000, 100), group("users", 100));
    owners.set_username("root".to_string()).unwrap();
    assert_eq!(owners.uid(), 0);
    assert_eq!(owners.username(), "root");
    assert_eq!(owners.gid(), 100);
    let before = owners.clone();
    match owners.set_username("no-such-user-in-any-database".to_string()) {
        Err(JujikError::Other(message)) => assert_eq!(
            message,
            "Can not set User from username: no-such-user-in-any-database"
        ),
        other => panic!("expected an error, got {:?}", other),
    }
    assert_eq!(owners, before);
}

#[test]
fn set_groupname_asks_the_group_database() {
    let mut owners = EntityOwners::resolved(1000, 100, user("ann", 1000, 100), group("users", 100));
    owners.set_groupname("root".to_string()).unwrap();
    assert_eq!(owners.gid(), 0);
    assert_eq!(owners.groupname(), "root");
    assert_eq!(owners.uid(), 1000);
    let before = owners.clone();
    match owners.set_groupname("no-such-group-in-any-database".to_string()) {
        Err(JujikError::Other(message)) => assert_eq!(
            message,
            "Can not set Group from groupname: no-such-group-in-any-database"
        ),
        other => panic!("expected an error, got {:?}", other),
    }
    assert_eq!(owners, before);
}

#[test]
fn to_string_shows_names_with_ids() {
    let owners = EntityOwners::resolved(1000, 100, user("ann", 1000, 100), group("users", 100));
    assert_eq!(owners.to_string(), "ann(1000):users(100)");
    assert_eq!(EntityOwners::default().to_string(), "(0):(0)");
    assert_eq!(EntityOwners::new(0, 0).unwrap().to_string(), "root(0):root(0)");
}
