//! The decisions of the model: the actor that works on the filesystem.
//!
//! The model keeps nothing between messages. For each message it says what
//! is to be done on the filesystem (`plan`), is told how that went
//! (`Outcome`), and answers with the one message for the controller
//! (`conclude`).

use crate::commands::{Command, CommandView};
use crate::entity::find::{EntitysFinder, FindParameters, FindParametersView, FinderView};
use crate::entity::kind::EntityKind;
use crate::entity::{full_name, name_of_path, views_of, Entity, EntityView};
use crate::path::{path_join, text_of};
use crate::pin::{Pin, PinView};
use crate::tab::{directory_of, listing_tab, tab_title, Tab, TabContentView, TabKind, TabView};
use vstd::prelude::*;
use vstd::string::StringExecFns;

verus! {

/// A node to remove: a directory goes with all that is in it.
#[derive(Debug)]
pub struct Removal {
    pub path: String,
    pub whole_tree: bool,
}

/// A node to copy or to move, and where to.
#[derive(Debug)]
pub struct Transfer {
    pub from: String,
    pub to: String,
}

/// The work on the filesystem that a message asks of the model.
#[derive(Debug)]
pub enum Job {
    /// The answer needs no work on the filesystem.
    Nothing,
    /// Find the absolute path that the path leads to, with links resolved.
    Resolve(String),
    /// Read the entities of the directory.
    List(String),
    /// Read the entity at the path.
    Inspect(String),
    /// Walk the tree under the parameters' path.
    Search(FindParameters),
    /// Make the directory, and those above it that are missing.
    CreateDirectory(String),
    /// Make the file, empty.
    CreateFile(String),
    /// Remove every node of the row.
    Remove(Vec<Removal>),
    /// Copy every node of the row.
    Copy(Vec<Transfer>),
    /// Move every node of the row.
    Rename(Vec<Transfer>),
    /// Give the node at the path the mode.
    SetPermissions(String, u32),
    /// Give the node at the path the user id and the group id.
    SetOwners(String, u32, u32),
    /// Make the text the content of the file at the path.
    Write(String, String),
}

/// How the work on the filesystem went.
#[derive(Debug)]
pub enum Outcome {
    /// The work was done; it brought nothing to hand back.
    Done,
    /// The work failed; of the failures, the first one's message.
    Failed(String),
    /// How each node of a row fared, in the row's order: nothing for a
    /// node that was dealt with, the failure's message for one that was not.
    Each(Vec<Option<String>>),
    /// The absolute path that was found.
    Resolved(String),
    /// The entities of the directory that was read.
    Listing(Vec<Entity>),
    /// The entity that was read.
    Inspected(Entity),
    /// The result of the search.
    Found(EntitysFinder),
}

/// What a removal holds.
pub struct RemovalView {
    pub path: Seq<char>,
    pub whole_tree: bool,
}

/// What a transfer holds.
pub struct TransferView {
    pub from: Seq<char>,
    pub to: Seq<char>,
}

/// What a job holds.
pub enum JobView {
    Nothing,
    Resolve(Seq<char>),
    List(Seq<char>),
    Inspect(Seq<char>),
    Search(FindParametersView),
    CreateDirectory(Seq<char>),
    CreateFile(Seq<char>),
    Remove(Seq<RemovalView>),
    Copy(Seq<TransferView>),
    Rename(Seq<TransferView>),
    SetPermissions(Seq<char>, u32),
    SetOwners(Seq<char>, u32, u32),
    Write(Seq<char>, Seq<char>),
}

/// What an outcome holds.
pub enum OutcomeView {
    Done,
    Failed(Seq<char>),
    Each(Seq<Option<Seq<char>>>),
    Resolved(Seq<char>),
    Listing(Seq<EntityView>),
    Inspected(EntityView),
    Found(FinderView),
}

impl View for Removal {
    type V = RemovalView;

    open spec fn view(&self) -> RemovalView {
        RemovalView { path: self.path@, whole_tree: self.whole_tree }
    }
}

impl View for Transfer {
    type V = TransferView;

    open spec fn view(&self) -> TransferView {
        TransferView { from: self.from@, to: self.to@ }
    }
}

/// The views of a row of removals, one for one.
pub open spec fn removal_views(row: Seq<Removal>) -> Seq<RemovalView> {
    row.map_values(|r: Removal| r@)
}

/// The views of a row of transfers, one for one.
pub open spec fn transfer_views(row: Seq<Transfer>) -> Seq<TransferView> {
    row.map_values(|t: Transfer| t@)
}

/// The views of a row of results, one for one.
pub open spec fn result_views(results: Seq<Option<String>>) -> Seq<Option<Seq<char>>> {
    results.map_values(|r: Option<String>| text_of(r))
}

/// The message of the first failure among the results, if any failed.
pub open spec fn first_failure(results: Seq<Option<Seq<char>>>) -> Option<Seq<char>>
    decreases results.len(),
{
    if results.len() == 0 {
        None
    } else {
        match results[0] {
            Some(message) => Some(message),
            None => first_failure(results.drop_first()),
        }
    }
}

impl View for Job {
    type V = JobView;

    open spec fn view(&self) -> JobView {
        match self {
            Job::Nothing => JobView::Nothing,
            Job::Resolve(path) => JobView::Resolve(path@),
            Job::List(path) => JobView::List(path@),
            Job::Inspect(path) => JobView::Inspect(path@),
            Job::Search(parameters) => JobView::Search(parameters@),
            Job::CreateDirectory(path) => JobView::CreateDirectory(path@),
            Job::CreateFile(path) => JobView::CreateFile(path@),
            Job::Remove(row) => JobView::Remove(removal_views(row@)),
            Job::Copy(row) => JobView::Copy(transfer_views(row@)),
            Job::Rename(row) => JobView::Rename(transfer_views(row@)),
            Job::SetPermissions(path, mode) => JobView::SetPermissions(path@, *mode),
            Job::SetOwners(path, uid, gid) => JobView::SetOwners(path@, *uid, *gid),
            Job::Write(path, content) => JobView::Write(path@, content@),
        }
    }
}

impl View for Outcome {
    type V = OutcomeView;

    open spec fn view(&self) -> OutcomeView {
        match self {
            Outcome::Done => OutcomeView::Done,
            Outcome::Failed(message) => OutcomeView::Failed(message@),
            Outcome::Each(results) => OutcomeView::Each(result_views(results@)),
            Outcome::Resolved(path) => OutcomeView::Resolved(path@),
            Outcome::Listing(entitys) => OutcomeView::Listing(views_of(entitys@)),
            Outcome::Inspected(entity) => OutcomeView::Inspected(entity@),
            Outcome::Found(finder) => OutcomeView::Found(finder@),
        }
    }
}

/// What the model does about a message: the one message it answers with,
/// if it answers, and whether it ends its loop.
#[derive(Debug)]
pub struct ModelStep {
    pub reply: Option<Command>,
    pub stop: bool,
}

/// What a step of the model holds.
pub struct ModelStepView {
    pub reply: Option<CommandView>,
    pub stop: bool,
}

impl View for ModelStep {
    type V = ModelStepView;

    open spec fn view(&self) -> ModelStepView {
        ModelStepView {
            reply: match self.reply {
                Some(command) => Some(command@),
                None => None,
            },
            stop: self.stop,
        }
    }
}

/// The extension of an entity, or the word `None` where it has none.
pub open spec fn extension_or_word(entity: EntityView) -> Seq<char> {
    match entity.extension {
        Some(extension) => extension,
        None => "None"@,
    }
}

/// Where an entity lies once it is put into the directory `target`.
pub open spec fn landing(target: Seq<char>, entity: EntityView) -> Seq<char> {
    path_join(target, full_name(entity.name, entity.extension))
}

/// The path of an entity's own directory with `name` under it.
pub open spec fn sibling(entity: EntityView, name: Seq<char>) -> Seq<char> {
    path_join(directory_of(entity), name)
}

/// The removals for a row of entities: each by its path, a directory with
/// all that is in it.
pub open spec fn removals_of(entitys: Seq<EntityView>) -> Seq<RemovalView> {
    entitys.map_values(
        |e: EntityView| RemovalView { path: e.path, whole_tree: e.kind == EntityKind::Directory },
    )
}

/// The transfers that put a row of entities into the directory `target`.
pub open spec fn transfers_of(entitys: Seq<EntityView>, target: Seq<char>) -> Seq<TransferView> {
    entitys.map_values(|e: EntityView| TransferView { from: e.path, to: landing(target, e) })
}

/// The directory that a tab is to list after a change of directory: the one
/// asked for, or the parent of the listed one where none is asked for.
/// `None` where the tab has no listing or no parent to go to.
pub open spec fn directory_to_list(tab: TabView, target: Option<Seq<char>>) -> Option<Seq<char>> {
    match target {
        Some(path) => if tab.content is Entitys {
            Some(path)
        } else {
            None
        },
        None => tab.back_target(),
    }
}

/// The work on the filesystem that a message asks of the model.
pub open spec fn planned(command: CommandView) -> JobView {
    match command {
        CommandView::CreatePin(path) => JobView::Resolve(path),
        CommandView::CreateEntitys(path) => JobView::List(path),
        CommandView::CreateView(path) => JobView::Inspect(path),
        CommandView::CreateEditor(path) => JobView::Inspect(path),
        CommandView::CreateFinder(parameters) => JobView::Search(parameters),
        CommandView::ChangeTabDirectory(_, tab, target) => match directory_to_list(tab, target) {
            Some(directory) => JobView::List(directory),
            None => JobView::Nothing,
        },
        CommandView::CreateEntity(_, _, entity) => if entity.kind == EntityKind::Directory {
            JobView::CreateDirectory(entity.path)
        } else {
            JobView::CreateFile(sibling(entity, full_name(entity.name, entity.extension)))
        },
        CommandView::DeleteEntitys(_, _, entitys) => JobView::Remove(removals_of(entitys)),
        CommandView::CopyEntitys(_, _, _, entitys, target) => JobView::Copy(
            transfers_of(entitys, target),
        ),
        CommandView::MoveEntitys(_, _, _, entitys, target) => JobView::Rename(
            transfers_of(entitys, target),
        ),
        CommandView::ChangeEntityName(_, _, _, entity, name) => JobView::Rename(
            seq![
                TransferView {
                    from: entity.path,
                    to: sibling(entity, name + "."@ + extension_or_word(entity)),
                },
            ],
        ),
        CommandView::ChangeEntityExtension(_, _, _, entity, extension) => JobView::Rename(
            seq![
                TransferView {
                    from: entity.path,
                    to: sibling(entity, entity.name + "."@ + extension),
                },
            ],
        ),
        CommandView::ChangeEntityPermissions(_, _, _, entity, permissions) => JobView::SetPermissions(
            entity.path,
            permissions,
        ),
        CommandView::ChangeEntityOwners(_, _, _, entity, owners) => JobView::SetOwners(
            entity.path,
            owners.uid,
            owners.gid,
        ),
        CommandView::ChangeEntityContent(_, _, entity, content) => JobView::Write(
            entity.path,
            content,
        ),
        _ => JobView::Nothing,
    }
}

/// The message of the error for an outcome that is not of the kind that
/// the job brings.
pub open spec fn unexpected_outcome_text() -> Seq<char> {
    "The outcome does not answer the request"@
}

/// The error that reports a failed job: the failure's own message, or for
/// an outcome of the wrong kind the message that says so.
pub open spec fn failure_of(outcome: OutcomeView) -> CommandView {
    match outcome {
        OutcomeView::Failed(message) => CommandView::Error(message),
        _ => CommandView::Error(unexpected_outcome_text()),
    }
}

/// The answer to a job that brings nothing back: `success` where it was
/// done, else the error.
pub open spec fn done_or_error(outcome: OutcomeView, success: CommandView) -> CommandView {
    match outcome {
        OutcomeView::Done => success,
        _ => failure_of(outcome),
    }
}

/// The answer to a job on a row of nodes: `success` where every node was
/// dealt with, else the error with the message of the first failure.
pub open spec fn each_or_error(outcome: OutcomeView, success: CommandView) -> CommandView {
    match outcome {
        OutcomeView::Each(results) => match first_failure(results) {
            Some(message) => CommandView::Error(message),
            None => success,
        },
        _ => failure_of(outcome),
    }
}

/// The answer to a job that lists `directory` for the tab at `index`: the
/// new listing tab, else the error.
pub open spec fn listing_or_error(
    outcome: OutcomeView,
    index: Option<usize>,
    directory: Seq<char>,
) -> CommandView {
    match outcome {
        OutcomeView::Listing(entitys) => CommandView::NewTab(index, listing_tab(directory, entitys)),
        _ => failure_of(outcome),
    }
}

/// The answer to a job that reads the entity at `path` for a tab of `kind`.
pub open spec fn entity_tab_or_error(outcome: OutcomeView, kind: TabKind, path: Seq<char>) -> CommandView {
    match outcome {
        OutcomeView::Inspected(entity) => CommandView::NewTab(
            None,
            TabView {
                name: tab_title(kind, path),
                content: if kind == TabKind::Editor {
                    TabContentView::Editor(entity)
                } else {
                    TabContentView::View(entity)
                },
            },
        ),
        _ => failure_of(outcome),
    }
}

/// The one message that the model answers a message with, given how its
/// job went; `None` for a message that the model does not act on.
pub open spec fn reply_to(command: CommandView, outcome: OutcomeView) -> Option<CommandView> {
    match command {
        CommandView::CreatePin(_) => Some(
            match outcome {
                OutcomeView::Resolved(path) => CommandView::NewPin(
                    None,
                    PinView { name: name_of_path(path), path },
                ),
                _ => failure_of(outcome),
            },
        ),
        CommandView::ChangePinName(index, pin, name) => Some(
            CommandView::NewPin(Some(index), PinView { name, ..pin }),
        ),
        CommandView::ChangePinDirectory(index, pin, path) => Some(
            CommandView::NewPin(Some(index), PinView { path, ..pin }),
        ),
        CommandView::CreateEntitys(path) => Some(listing_or_error(outcome, None, path)),
        CommandView::CreateView(path) => Some(entity_tab_or_error(outcome, TabKind::View, path)),
        CommandView::CreateEditor(path) => Some(
            entity_tab_or_error(outcome, TabKind::Editor, path),
        ),
        CommandView::CreateFinder(_) => Some(
            match outcome {
                OutcomeView::Found(finder) => CommandView::NewTab(
                    None,
                    TabView {
                        name: tab_title(TabKind::Find, finder.parameters.path),
                        content: TabContentView::Find(finder),
                    },
                ),
                _ => failure_of(outcome),
            },
        ),
        CommandView::ChangeTabName(index, tab, name) => Some(
            CommandView::NewTab(Some(index), TabView { name, ..tab }),
        ),
        CommandView::ChangeTabDirectory(index, tab, target) => Some(
            match directory_to_list(tab, target) {
                Some(directory) => listing_or_error(outcome, Some(index), directory),
                None => CommandView::NewTab(Some(index), tab),
            },
        ),
        CommandView::ChangeEntitysSortBy(index, tab, sortby) => Some(
            CommandView::NewTab(Some(index), tab.with_sortby(sortby)),
        ),
        CommandView::CreateEntity(index, _, _) => Some(
            done_or_error(outcome, CommandView::UpdateTab(index)),
        ),
        CommandView::DeleteEntitys(..)
        | CommandView::CopyEntitys(..)
        | CommandView::MoveEntitys(..)
        | CommandView::ChangeEntityName(..)
        | CommandView::ChangeEntityExtension(..) => Some(
            each_or_error(outcome, CommandView::Update),
        ),
        CommandView::ChangeEntityPermissions(..)
        | CommandView::ChangeEntityOwners(..)
        | CommandView::ChangeEntityContent(..) => Some(done_or_error(outcome, CommandView::Update)),
        CommandView::Drop => Some(CommandView::Drop),
        _ => None,
    }
}

/// What the model does about a message, given how its job went.
pub open spec fn concluded(command: CommandView, outcome: OutcomeView) -> ModelStepView {
    ModelStepView { reply: reply_to(command, outcome), stop: command is Drop }
}

/// Whether an outcome says that a job succeeded: it is of the kind that the
/// job brings, and for a job on a row of nodes it holds no failure.
pub open spec fn answers(job: JobView, outcome: OutcomeView) -> bool {
    match job {
        JobView::Nothing => true,
        JobView::Resolve(_) => outcome is Resolved,
        JobView::List(_) => outcome is Listing,
        JobView::Inspect(_) => outcome is Inspected,
        JobView::Search(_) => outcome is Found,
        JobView::Remove(_) | JobView::Copy(_) | JobView::Rename(_) => outcome matches OutcomeView::Each(
            results,
        ) && first_failure(results) is None,
        _ => outcome is Done,
    }
}

/// The model: the actor that works on the filesystem. It holds nothing.
#[derive(Debug, Default, Clone, Copy)]
pub struct JujikModel {}

/// The removals for a row of entities.
fn removals(entitys: &Vec<Entity>) -> (row: Vec<Removal>)
    ensures
        removal_views(row@) == removals_of(views_of(entitys@)),
{
    let mut row: Vec<Removal> = Vec::new();
    let mut i: usize = 0;
    while i < entitys.len()
        invariant
            i <= entitys.len(),
            row.len() == i,
            forall|k: int|
                0 <= k < i ==> #[trigger] row@[k]@ == (RemovalView {
                    path: entitys@[k]@.path,
                    whole_tree: entitys@[k]@.kind == EntityKind::Directory,
                }),
        decreases entitys.len() - i,
    {
        row.push(Removal { path: entitys[i].path(), whole_tree: entitys[i].is_dir() });
        i += 1;
    }
    assert(removal_views(row@) =~= removals_of(views_of(entitys@)));
    row
}

/// The transfers that put a row of entities into the directory `target`.
fn transfers(entitys: &Vec<Entity>, target: &str) -> (row: Vec<Transfer>)
    ensures
        transfer_views(row@) == transfers_of(views_of(entitys@), target@),
{
    let mut row: Vec<Transfer> = Vec::new();
    let mut i: usize = 0;
    while i < entitys.len()
        invariant
            i <= entitys.len(),
            row.len() == i,
            forall|k: int|
                0 <= k < i ==> #[trigger] row@[k]@ == (TransferView {
                    from: entitys@[k]@.path,
                    to: landing(target@, entitys@[k]@),
                }),
        decreases entitys.len() - i,
    {
        let name = entitys[i].name_with_extension();
        row.push(Transfer { from: entitys[i].path(), to: crate::path::join(target, name.as_str()) });
        i += 1;
    }
    assert(transfer_views(row@) =~= transfers_of(views_of(entitys@), target@));
    row
}

/// The one transfer that gives `entity` the name `name` within its directory.
fn rename_within(entity: &Entity, name: String) -> (row: Vec<Transfer>)
    ensures
        transfer_views(row@) == seq![
            TransferView { from: entity@.path, to: sibling(entity@, name@) },
        ],
{
    let directory = entity.path_dir();
    let mut row: Vec<Transfer> = Vec::new();
    row.push(
        Transfer { from: entity.path(), to: crate::path::join(directory.as_str(), name.as_str()) },
    );
    assert(transfer_views(row@) =~= seq![
        TransferView { from: entity@.path, to: sibling(entity@, name@) },
    ]);
    row
}

/// The directory that `tab` is to list after a change of directory.
fn directory_for(tab: &Tab, target: &Option<String>) -> (directory: Option<String>)
    ensures
        text_of(directory) == directory_to_list(tab@, text_of(*target)),
{
    match target {
        Some(path) => match tab.kind() {
            TabKind::Entitys => Some(path.clone()),
            _ => None,
        },
        None => tab.back_target(),
    }
}

/// The error that reports a failed job.
fn failure(outcome: Outcome) -> (reply: Command)
    ensures
        reply@ == failure_of(outcome@),
{
    match outcome {
        Outcome::Failed(message) => Command::Error(message),
        _ => Command::Error(String::from_str("The outcome does not answer the request")),
    }
}

/// The answer to a job that brings nothing back.
fn done_or(outcome: Outcome, success: Command) -> (reply: Command)
    ensures
        reply@ == done_or_error(outcome@, success@),
{
    match outcome {
        Outcome::Done => success,
        other => failure(other),
    }
}

/// The message of the first failure among the results, if any failed.
fn first_failed(results: Vec<Option<String>>) -> (failure: Option<String>)
    ensures
        text_of(failure) == first_failure(result_views(results@)),
{
    let ghost all = result_views(results@);
    let mut i: usize = 0;
    assert(all.subrange(0, all.len() as int) =~= all);
    while i < results.len()
        invariant
            i <= results.len(),
            all == result_views(results@),
            first_failure(all.subrange(i as int, all.len() as int)) == first_failure(all),
        decreases results.len() - i,
    {
        let ghost rest = all.subrange(i as int, all.len() as int);
        assert(rest[0] == text_of(results@[i as int]));
        assert(rest.drop_first() =~= all.subrange(i + 1, all.len() as int));
        match &results[i] {
            Some(message) => {
                return Some(message.clone());
            },
            None => {},
        }
        i += 1;
    }
    None
}

/// The answer to a job on a row of nodes.
fn each_or(outcome: Outcome, success: Command) -> (reply: Command)
    ensures
        reply@ == each_or_error(outcome@, success@),
{
    match outcome {
        Outcome::Each(results) => match first_failed(results) {
            Some(message) => Command::Error(message),
            None => success,
        },
        other => failure(other),
    }
}

/// The answer to a job that lists `directory` for the tab at `index`.
fn listing_or(outcome: Outcome, index: Option<usize>, directory: String) -> (reply: Command)
    ensures
        reply@ == listing_or_error(outcome@, index, directory@),
{
    match outcome {
        Outcome::Listing(entitys) => match Tab::tab_entitys(directory, entitys) {
            Ok(tab) => Command::NewTab(index, tab),
            Err(e) => Command::Error(e.message()),
        },
        other => failure(other),
    }
}

/// The answer to a job that reads the entity at `path` for a viewer or an
/// editor.
fn entity_tab_or(outcome: Outcome, editor: bool, path: String) -> (reply: Command)
    ensures
        reply@ == entity_tab_or_error(
            outcome@,
            if editor {
                TabKind::Editor
            } else {
                TabKind::View
            },
            path@,
        ),
{
    match outcome {
        Outcome::Inspected(entity) => {
            let made = if editor {
                Tab::tab_editor(path, entity)
            } else {
                Tab::tab_view(path, entity)
            };
            match made {
                Ok(tab) => Command::NewTab(None, tab),
                Err(e) => Command::Error(e.message()),
            }
        },
        other => failure(other),
    }
}

impl JujikModel {
    pub fn new() -> (model: Self) {
        JujikModel {  }
    }

    /// The work on the filesystem that `command` asks for.
    pub fn plan(command: &Command) -> (job: Job)
        ensures
            job@ == planned(command@),
    {
        match command {
            Command::CreatePin(path) => Job::Resolve(path.clone()),
            Command::CreateEntitys(path) => Job::List(path.clone()),
            Command::CreateView(path) => Job::Inspect(path.clone()),
            Command::CreateEditor(path) => Job::Inspect(path.clone()),
            Command::CreateFinder(parameters) => Job::Search(parameters.clone()),
            Command::ChangeTabDirectory(_, tab, target) => match directory_for(tab, target) {
                Some(directory) => Job::List(directory),
                None => Job::Nothing,
            },
            Command::CreateEntity(_, _, entity) => {
                if entity.is_dir() {
                    Job::CreateDirectory(entity.path())
                } else {
                    let directory = entity.path_dir();
                    let name = entity.name_with_extension();
                    Job::CreateFile(crate::path::join(directory.as_str(), name.as_str()))
                }
            },
            Command::DeleteEntitys(_, _, entitys) => Job::Remove(removals(entitys)),
            Command::CopyEntitys(_, _, _, entitys, target) => Job::Copy(
                transfers(entitys, target.as_str()),
            ),
            Command::MoveEntitys(_, _, _, entitys, target) => Job::Rename(
                transfers(entitys, target.as_str()),
            ),
            Command::ChangeEntityName(_, _, _, entity, name) => {
                let extension = entity.extension_str();
                Job::Rename(
                    rename_within(entity, name.clone().concat(".").concat(extension.as_str())),
                )
            },
            Command::ChangeEntityExtension(_, _, _, entity, extension) => Job::Rename(
                rename_within(entity, entity.name().concat(".").concat(extension.as_str())),
            ),
            Command::ChangeEntityPermissions(_, _, _, entity, permissions) => Job::SetPermissions(
                entity.path(),
                permissions.mode(),
            ),
            Command::ChangeEntityOwners(_, _, _, entity, owners) => Job::SetOwners(
                entity.path(),
                owners.uid(),
                owners.gid(),
            ),
            Command::ChangeEntityContent(_, _, entity, content) => Job::Write(
                entity.path(),
                content.clone(),
            ),
            _ => Job::Nothing,
        }
    }

    /// What the model does about `command`, given how its job went: the one
    /// message for the controller, and whether the model ends its loop.
    pub fn conclude(command: Command, outcome: Outcome) -> (step: ModelStep)
        ensures
            step@ == concluded(command@, outcome@),
    {
        let reply = match command {
            Command::CreatePin(_) => Some(
                match outcome {
                    Outcome::Resolved(path) => match Pin::new(path) {
                        Ok(pin) => Command::NewPin(None, pin),
                        Err(e) => Command::Error(e.message()),
                    },
                    other => failure(other),
                },
            ),
            Command::ChangePinName(index, pin, name) => {
                let mut pin = pin;
                pin.set_name(name);
                Some(Command::NewPin(Some(index), pin))
            },
            Command::ChangePinDirectory(index, pin, path) => {
                let mut pin = pin;
                pin.set_path(path);
                Some(Command::NewPin(Some(index), pin))
            },
            Command::CreateEntitys(path) => Some(listing_or(outcome, None, path)),
            Command::CreateView(path) => Some(entity_tab_or(outcome, false, path)),
            Command::CreateEditor(path) => Some(entity_tab_or(outcome, true, path)),
            Command::CreateFinder(_) => Some(
                match outcome {
                    Outcome::Found(finder) => match Tab::tab_finder(finder) {
                        Ok(tab) => Command::NewTab(None, tab),
                        Err(e) => Command::Error(e.message()),
                    },
                    other => failure(other),
                },
            ),
            Command::ChangeTabName(index, tab, name) => {
                let mut tab = tab;
                tab.set_name(name);
                Some(Command::NewTab(Some(index), tab))
            },
            Command::ChangeTabDirectory(index, tab, target) => Some(
                match directory_for(&tab, &target) {
                    Some(directory) => listing_or(outcome, Some(index), directory),
                    None => Command::NewTab(Some(index), tab),
                },
            ),
            Command::ChangeEntitysSortBy(index, tab, sortby) => {
                let mut tab = tab;
                tab.set_sortby(&sortby);
                Some(Command::NewTab(Some(index), tab))
            },
            Command::CreateEntity(index, _, _) => Some(done_or(outcome, Command::UpdateTab(index))),
            Command::DeleteEntitys(..)
            | Command::CopyEntitys(..)
            | Command::MoveEntitys(..)
            | Command::ChangeEntityName(..)
            | Command::ChangeEntityExtension(..) => Some(each_or(outcome, Command::Update)),
            Command::ChangeEntityPermissions(..)
            | Command::ChangeEntityOwners(..)
            | Command::ChangeEntityContent(..) => Some(done_or(outcome, Command::Update)),
            Command::Drop => {
                return ModelStep { reply: Some(Command::Drop), stop: true };
            },
            _ => None,
        };
        ModelStep { reply, stop: false }
    }
}

/// The model answers every request it acts on with one message: a report
/// of success where the outcome is of the kind that the request's job
/// brings, and an error where it is not.
pub proof fn lemma_one_answer(command: CommandView, outcome: OutcomeView)
    requires
        reply_to(command, outcome) is Some,
        !(command is Drop),
    ensures
        reply_to(command, outcome)->Some_0 is Error <==> !answers(planned(command), outcome),
{
}

/// The model passes on the message of a failure as it is.
pub proof fn lemma_failure_is_reported(command: CommandView, message: Seq<char>)
    requires
        reply_to(command, OutcomeView::Failed(message)) is Some,
        !(planned(command) is Nothing),
    ensures
        reply_to(command, OutcomeView::Failed(message)) == Some(CommandView::Error(message)),
{
}

/// Of the failures on a row of nodes the model reports the first.
pub proof fn lemma_first_failure_is_reported(
    command: CommandView,
    results: Seq<Option<Seq<char>>>,
    at: int,
)
    requires
        planned(command) is Remove || planned(command) is Copy || planned(command) is Rename,
        0 <= at < results.len(),
        results[at] is Some,
        forall|i: int| 0 <= i < at ==> results[i] is None,
    ensures
        reply_to(command, OutcomeView::Each(results)) == Some(
            CommandView::Error(results[at]->Some_0),
        ),
{
    lemma_first_failure_at(results, at);
}

/// The first failure among the results is the one that no failure precedes.
pub proof fn lemma_first_failure_at(results: Seq<Option<Seq<char>>>, at: int)
    requires
        0 <= at < results.len(),
        results[at] is Some,
        forall|i: int| 0 <= i < at ==> results[i] is None,
    ensures
        first_failure(results) == results[at],
    decreases results.len(),
{
    if at > 0 {
        let rest = results.drop_first();
        assert(results[0] is None);
        assert(rest[at - 1] == results[at]);
        assert forall|i: int| 0 <= i < at - 1 implies rest[i] is None by {
            assert(rest[i] == results[i + 1]);
        }
        lemma_first_failure_at(rest, at - 1);
    }
}

/// The model ends its loop on `Drop` and on nothing else, and passes the
/// `Drop` on.
pub proof fn lemma_stops_on_drop(command: CommandView, outcome: OutcomeView)
    ensures
        concluded(command, outcome).stop <==> command is Drop,
        command is Drop ==> concluded(command, outcome).reply == Some(CommandView::Drop),
{
}

} // verus!
