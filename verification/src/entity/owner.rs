//! Who owns a filesystem node: user and group, by number and by name.

use crate::error::JujikError;
use crate::numeral::{decimal, numeral};
use vstd::prelude::*;
use vstd::string::StringExecFns;

verus! {

/// An entry of the user database, as far as this library reads it.
pub struct UserRecord {
    pub name: String,
    pub uid: u32,
    pub gid: u32,
}

/// An entry of the group database, as far as this library reads it.
pub struct GroupRecord {
    pub name: String,
    pub gid: u32,
}

/// Calls `nix::unistd::User::from_uid`: the entry of the user database for
/// `uid`, `None` where there is none. What comes back depends on the machine,
/// so nothing is claimed about it.
#[verifier::external_body]
fn user_by_uid(uid: u32) -> (found: Result<Option<UserRecord>, nix::errno::Errno>) {
    let user = nix::unistd::User::from_uid(nix::unistd::Uid::from_raw(uid))?;
    Ok(user.map(|u| UserRecord { name: u.name, uid: u.uid.as_raw(), gid: u.gid.as_raw() }))
}

/// Calls `nix::unistd::User::from_name`: the entry of the user database for
/// `name`, `None` where there is none. Nothing is claimed about it.
#[verifier::external_body]
fn user_by_name(name: &str) -> (found: Result<Option<UserRecord>, nix::errno::Errno>) {
    let user = nix::unistd::User::from_name(name)?;
    Ok(user.map(|u| UserRecord { name: u.name, uid: u.uid.as_raw(), gid: u.gid.as_raw() }))
}

/// Calls `nix::unistd::Group::from_gid`: the entry of the group database for
/// `gid`, `None` where there is none. Nothing is claimed about it.
#[verifier::external_body]
fn group_by_gid(gid: u32) -> (found: Result<Option<GroupRecord>, nix::errno::Errno>) {
    let group = nix::unistd::Group::from_gid(nix::unistd::Gid::from_raw(gid))?;
    Ok(group.map(|g| GroupRecord { name: g.name, gid: g.gid.as_raw() }))
}

/// Calls `nix::unistd::Group::from_name`: the entry of the group database for
/// `name`, `None` where there is none. Nothing is claimed about it.
#[verifier::external_body]
fn group_by_name(name: &str) -> (found: Result<Option<GroupRecord>, nix::errno::Errno>) {
    let group = nix::unistd::Group::from_name(name)?;
    Ok(group.map(|g| GroupRecord { name: g.name, gid: g.gid.as_raw() }))
}

/// Calls `nix::unistd::getuid`: the real user id of this process.
#[verifier::external_body]
fn process_uid() -> (uid: u32) {
    nix::unistd::getuid().as_raw()
}

/// Calls `nix::unistd::getgid`: the real group id of this process.
#[verifier::external_body]
fn process_gid() -> (gid: u32) {
    nix::unistd::getgid().as_raw()
}

/// User and group of a node. The names are those that the ids had in the
/// databases when the value was made or last changed.
#[derive(Debug, Eq, Hash)]
pub struct EntityOwners {
    uid: u32,
    gid: u32,
    username: String,
    groupname: String,
}

/// What an `EntityOwners` holds, with the names as sequences of characters.
pub struct OwnersView {
    pub uid: u32,
    pub gid: u32,
    pub username: Seq<char>,
    pub groupname: Seq<char>,
}

impl View for EntityOwners {
    type V = OwnersView;

    closed spec fn view(&self) -> OwnersView {
        OwnersView {
            uid: self.uid,
            gid: self.gid,
            username: self.username@,
            groupname: self.groupname@,
        }
    }
}

impl PartialEq for EntityOwners {
    fn eq(&self, other: &Self) -> (same: bool) {
        self.uid == other.uid && self.gid == other.gid && self.username == other.username
            && self.groupname == other.groupname
    }
}

impl vstd::std_specs::cmp::PartialEqSpecImpl for EntityOwners {
    open spec fn obeys_eq_spec() -> bool {
        true
    }

    open spec fn eq_spec(&self, other: &Self) -> bool {
        self@ == other@
    }
}

impl Clone for EntityOwners {
    fn clone(&self) -> (copy: Self)
        ensures
            copy@ == self@,
    {
        Self {
            uid: self.uid,
            gid: self.gid,
            username: self.username.clone(),
            groupname: self.groupname.clone(),
        }
    }
}

impl Default for EntityOwners {
    /// User and group zero, without names.
    fn default() -> (o: Self)
        ensures
            o@ == (OwnersView { uid: 0, gid: 0, username: Seq::empty(), groupname: Seq::empty() }),
    {
        Self { uid: 0, gid: 0, username: String::new(), groupname: String::new() }
    }
}

/// The name of a database entry, or the empty name where there is no entry.
pub open spec fn user_name_or_empty(user: Option<UserRecord>) -> Seq<char> {
    match user {
        Some(u) => u.name@,
        None => Seq::empty(),
    }
}

/// The name of a database entry, or the empty name where there is no entry.
pub open spec fn group_name_or_empty(group: Option<GroupRecord>) -> Seq<char> {
    match group {
        Some(g) => g.name@,
        None => Seq::empty(),
    }
}

/// The owners that the process has, given what the databases hold for its
/// user id and group id: the user's own ids with both names, or ids of zero
/// and empty names where either entry is missing.
pub open spec fn current_owners(user: Option<UserRecord>, group: Option<GroupRecord>) -> OwnersView {
    match (user, group) {
        (Some(u), Some(g)) => OwnersView {
            uid: u.uid,
            gid: u.gid,
            username: u.name@,
            groupname: g.name@,
        },
        _ => OwnersView { uid: 0, gid: 0, username: Seq::empty(), groupname: Seq::empty() },
    }
}

impl EntityOwners {
    /// The owners `uid` and `gid` with the names that the databases give
    /// them, and an empty name for an id without an entry. Fails only where a
    /// lookup itself fails, with the error number of that lookup.
    pub fn new(uid: u32, gid: u32) -> (made: Result<Self, JujikError>)
        ensures
            made matches Ok(o) ==> o@.uid == uid && o@.gid == gid,
            made matches Err(e) ==> e is Nix,
    {
        let user = match user_by_uid(uid) {
            Ok(user) => user,
            Err(errno) => {
                return Err(JujikError::Nix(errno));
            },
        };
        let group = match group_by_gid(gid) {
            Ok(group) => group,
            Err(errno) => {
                return Err(JujikError::Nix(errno));
            },
        };
        Ok(Self::resolved(uid, gid, user, group))
    }

    /// The owners `uid` and `gid`, named by the entries found for them.
    pub fn resolved(uid: u32, gid: u32, user: Option<UserRecord>, group: Option<GroupRecord>) -> (o:
        Self)
        ensures
            o@ == (OwnersView {
                uid,
                gid,
                username: user_name_or_empty(user),
                groupname: group_name_or_empty(group),
            }),
    {
        let username = match user {
            Some(u) => u.name,
            None => String::new(),
        };
        let groupname = match group {
            Some(g) => g.name,
            None => String::new(),
        };
        Self { uid, gid, username, groupname }
    }

    /// The owners that this process runs as. Where the user or the group has
    /// no entry, the default owners. Fails only where a lookup itself fails.
    pub fn current() -> (made: Result<Self, JujikError>)
        ensures
            made matches Err(e) ==> e is Nix,
    {
        let user = match user_by_uid(process_uid()) {
            Ok(user) => user,
            Err(errno) => {
                return Err(JujikError::Nix(errno));
            },
        };
        if user.is_none() {
            return Ok(Self::of_process(None, None));
        }
        let group = match group_by_gid(process_gid()) {
            Ok(group) => group,
            Err(errno) => {
                return Err(JujikError::Nix(errno));
            },
        };
        Ok(Self::of_process(user, group))
    }

    /// The owners of the process, given the entries found for its ids.
    pub fn of_process(user: Option<UserRecord>, group: Option<GroupRecord>) -> (o: Self)
        ensures
            o@ == current_owners(user, group),
    {
        match (user, group) {
            (Some(u), Some(g)) => Self {
                uid: u.uid,
                gid: u.gid,
                username: u.name,
                groupname: g.name,
            },
            _ => Self::default(),
        }
    }

    pub fn uid(&self) -> (uid: u32)
        ensures
            uid == self@.uid,
    {
        self.uid
    }

    pub fn gid(&self) -> (gid: u32)
        ensures
            gid == self@.gid,
    {
        self.gid
    }

    pub fn username(&self) -> (name: String)
        ensures
            name@ == self@.username,
    {
        self.username.clone()
    }

    pub fn groupname(&self) -> (name: String)
        ensures
            name@ == self@.groupname,
    {
        self.groupname.clone()
    }

    /// Makes `username` the owning user, with the id that the user database
    /// gives it. Where the database has no such user, or the lookup fails,
    /// nothing changes and the error says so.
    pub fn set_username(&mut self, username: String) -> (done: Result<(), JujikError>)
        ensures
            done is Ok ==> final(self)@.username == username@ && final(self)@.gid == old(self)@.gid
                && final(self)@.groupname == old(self)@.groupname,
            done is Err ==> final(self)@ == old(self)@,
            done matches Err(e) ==> e is Nix || (e matches JujikError::Other(m) && m@
                == unknown_user_text(username@)),
    {
        match user_by_name(username.as_str()) {
            Ok(found) => self.assign_user(username, found),
            Err(errno) => Err(JujikError::Nix(errno)),
        }
    }

    /// Makes `username` the owning user with the id of `found`, the entry
    /// that the user database holds for that name.
    pub fn assign_user(&mut self, username: String, found: Option<UserRecord>) -> (done: Result<
        (),
        JujikError,
    >)
        ensures
            found matches Some(u) ==> done is Ok && final(self)@ == (OwnersView {
                uid: u.uid,
                username: username@,
                ..old(self)@
            }),
            found is None ==> final(self)@ == old(self)@ && (done matches Err(
                JujikError::Other(m),
            ) && m@ == unknown_user_text(username@)),
    {
        match found {
            Some(user) => {
                self.uid = user.uid;
                self.username = username;
                Ok(())
            },
            None => Err(JujikError::other("Can not set User from username: ", username.as_str())),
        }
    }

    /// Makes `groupname` the owning group, with the id that the group
    /// database gives it. Where the database has no such group, or the lookup
    /// fails, nothing changes and the error says so.
    pub fn set_groupname(&mut self, groupname: String) -> (done: Result<(), JujikError>)
        ensures
            done is Ok ==> final(self)@.groupname == groupname@ && final(self)@.uid == old(
                self,
            )@.uid && final(self)@.username == old(self)@.username,
            done is Err ==> final(self)@ == old(self)@,
            done matches Err(e) ==> e is Nix || (e matches JujikError::Other(m) && m@
                == unknown_group_text(groupname@)),
    {
        match group_by_name(groupname.as_str()) {
            Ok(found) => self.assign_group(groupname, found),
            Err(errno) => Err(JujikError::Nix(errno)),
        }
    }

    /// Makes `groupname` the owning group with the id of `found`, the entry
    /// that the group database holds for that name.
    pub fn assign_group(&mut self, groupname: String, found: Option<GroupRecord>) -> (done: Result<
        (),
        JujikError,
    >)
        ensures
            found matches Some(g) ==> done is Ok && final(self)@ == (OwnersView {
                gid: g.gid,
                groupname: groupname@,
                ..old(self)@
            }),
            found is None ==> final(self)@ == old(self)@ && (done matches Err(
                JujikError::Other(m),
            ) && m@ == unknown_group_text(groupname@)),
    {
        match found {
            Some(group) => {
                self.gid = group.gid;
                self.groupname = groupname;
                Ok(())
            },
            None => Err(
                JujikError::other("Can not set Group from groupname: ", groupname.as_str()),
            ),
        }
    }
}

/// The owners written out: the user's name with the user id in brackets, a
/// colon, and the group's name with the group id in brackets.
pub open spec fn owners_text(owners: OwnersView) -> Seq<char> {
    owners.username + "("@ + numeral(owners.uid as nat, 10) + "):"@ + owners.groupname + "("@
        + numeral(owners.gid as nat, 10) + ")"@
}

impl EntityOwners {
    /// The owners written out, as in `root(0):wheel(10)`.
    pub fn to_string(&self) -> (text: String)
        ensures
            text@ == owners_text(self@),
    {
        let uid = decimal(self.uid);
        let gid = decimal(self.gid);
        self.username.clone().concat("(").concat(uid.as_str()).concat("):").concat(
            self.groupname.as_str(),
        ).concat("(").concat(gid.as_str()).concat(")")
    }
}

/// The message of the error for a user name that the database does not hold.
pub open spec fn unknown_user_text(username: Seq<char>) -> Seq<char> {
    "Can not set User from username: "@ + username
}

/// The message of the error for a group name that the database does not hold.
pub open spec fn unknown_group_text(groupname: Seq<char>) -> Seq<char> {
    "Can not set Group from groupname: "@ + groupname
}

} // verus!
