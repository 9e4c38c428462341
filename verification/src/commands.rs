//! The messages that the actors of the file manager send one another.

use crate::config::{Config, ConfigView};
use crate::entity::find::{FindParameters, FindParametersView};
use crate::entity::owner::{EntityOwners, OwnersView};
use crate::entity::permission::EntityPermissions;
use crate::entity::{views_of, Entity, EntityView};
use crate::path::text_of;
use crate::pin::{pin_views, Pin, PinView};
use crate::tab::{tab_views, SortBy, Tab, TabView};
use vstd::prelude::*;

verus! {

/// A message between the presentation, the controller and the model. Where
/// a message names a pin or a tab by its index, it also carries the pin or
/// tab that the sender saw there.
#[derive(Debug)]
pub enum Command {
    // Lifecycle
    Drop,
    Error(String),
    Sync(Vec<Pin>, Vec<Tab>),
    Update,
    // Config
    GetConfig,
    SetConfig(Config),
    // Pin
    CreatePin(String),
    DeletePin(usize, Pin),
    ChangePinName(usize, Pin, String),
    ChangePinDirectory(usize, Pin, String),
    ChangePinPosition(usize, usize, Pin),
    NewPin(Option<usize>, Pin),
    // Tab
    CreateEntitys(String),
    CreateView(String),
    CreateEditor(String),
    CreateFinder(FindParameters),
    UpdateTab(usize),
    DeleteTab(usize, Tab),
    ChangeTabName(usize, Tab, String),
    ChangeTabDirectory(usize, Tab, Option<String>),
    ChangeTabPosition(usize, usize, Tab),
    NewTab(Option<usize>, Tab),
    ChangeEntitysSortBy(usize, Tab, SortBy),
    // Entity
    CreateEntity(usize, Tab, Entity),
    DeleteEntitys(usize, Tab, Vec<Entity>),
    CopyEntitys(usize, Tab, usize, Vec<Entity>, String),
    MoveEntitys(usize, Tab, usize, Vec<Entity>, String),
    ChangeEntityName(usize, Tab, usize, Entity, String),
    ChangeEntityExtension(usize, Tab, usize, Entity, String),
    ChangeEntityPermissions(usize, Tab, usize, Entity, EntityPermissions),
    ChangeEntityOwners(usize, Tab, usize, Entity, EntityOwners),
    ChangeEntityContent(usize, Tab, Entity, String),
    // Find
    UpdateFind(usize, Tab, FindParameters),
}

/// What a message holds.
pub enum CommandView {
    // Lifecycle
    Drop,
    Error(Seq<char>),
    Sync(Seq<PinView>, Seq<TabView>),
    Update,
    // Config
    GetConfig,
    SetConfig(ConfigView),
    // Pin
    CreatePin(Seq<char>),
    DeletePin(usize, PinView),
    ChangePinName(usize, PinView, Seq<char>),
    ChangePinDirectory(usize, PinView, Seq<char>),
    ChangePinPosition(usize, usize, PinView),
    NewPin(Option<usize>, PinView),
    // Tab
    CreateEntitys(Seq<char>),
    CreateView(Seq<char>),
    CreateEditor(Seq<char>),
    CreateFinder(FindParametersView),
    UpdateTab(usize),
    DeleteTab(usize, TabView),
    ChangeTabName(usize, TabView, Seq<char>),
    ChangeTabDirectory(usize, TabView, Option<Seq<char>>),
    ChangeTabPosition(usize, usize, TabView),
    NewTab(Option<usize>, TabView),
    ChangeEntitysSortBy(usize, TabView, SortBy),
    // Entity
    CreateEntity(usize, TabView, EntityView),
    DeleteEntitys(usize, TabView, Seq<EntityView>),
    CopyEntitys(usize, TabView, usize, Seq<EntityView>, Seq<char>),
    MoveEntitys(usize, TabView, usize, Seq<EntityView>, Seq<char>),
    ChangeEntityName(usize, TabView, usize, EntityView, Seq<char>),
    ChangeEntityExtension(usize, TabView, usize, EntityView, Seq<char>),
    ChangeEntityPermissions(usize, TabView, usize, EntityView, u32),
    ChangeEntityOwners(usize, TabView, usize, EntityView, OwnersView),
    ChangeEntityContent(usize, TabView, EntityView, Seq<char>),
    // Find
    UpdateFind(usize, TabView, FindParametersView),
}

impl View for Command {
    type V = CommandView;

    open spec fn view(&self) -> CommandView {
        match self {
            Command::Drop => CommandView::Drop,
            Command::Error(a) => CommandView::Error(a@),
            Command::Sync(a, b) => CommandView::Sync(pin_views(a@), tab_views(b@)),
            Command::Update => CommandView::Update,
            Command::GetConfig => CommandView::GetConfig,
            Command::SetConfig(a) => CommandView::SetConfig(a@),
            Command::CreatePin(a) => CommandView::CreatePin(a@),
            Command::DeletePin(a, b) => CommandView::DeletePin(*a, b@),
            Command::ChangePinName(a, b, c) => CommandView::ChangePinName(*a, b@, c@),
            Command::ChangePinDirectory(a, b, c) => CommandView::ChangePinDirectory(*a, b@, c@),
            Command::ChangePinPosition(a, b, c) => CommandView::ChangePinPosition(*a, *b, c@),
            Command::NewPin(a, b) => CommandView::NewPin(*a, b@),
            Command::CreateEntitys(a) => CommandView::CreateEntitys(a@),
            Command::CreateView(a) => CommandView::CreateView(a@),
            Command::CreateEditor(a) => CommandView::CreateEditor(a@),
            Command::CreateFinder(a) => CommandView::CreateFinder(a@),
            Command::UpdateTab(a) => CommandView::UpdateTab(*a),
            Command::DeleteTab(a, b) => CommandView::DeleteTab(*a, b@),
            Command::ChangeTabName(a, b, c) => CommandView::ChangeTabName(*a, b@, c@),
            Command::ChangeTabDirectory(a, b, c) => CommandView::ChangeTabDirectory(*a, b@, text_of(*c)),
            Command::ChangeTabPosition(a, b, c) => CommandView::ChangeTabPosition(*a, *b, c@),
            Command::NewTab(a, b) => CommandView::NewTab(*a, b@),
            Command::ChangeEntitysSortBy(a, b, c) => CommandView::ChangeEntitysSortBy(*a, b@, *c),
            Command::CreateEntity(a, b, c) => CommandView::CreateEntity(*a, b@, c@),
            Command::DeleteEntitys(a, b, c) => CommandView::DeleteEntitys(*a, b@, views_of(c@)),
            Command::CopyEntitys(a, b, c, d, e) => CommandView::CopyEntitys(*a, b@, *c, views_of(d@), e@),
            Command::MoveEntitys(a, b, c, d, e) => CommandView::MoveEntitys(*a, b@, *c, views_of(d@), e@),
            Command::ChangeEntityName(a, b, c, d, e) => CommandView::ChangeEntityName(*a, b@, *c, d@, e@),
            Command::ChangeEntityExtension(a, b, c, d, e) => CommandView::ChangeEntityExtension(*a, b@, *c, d@, e@),
            Command::ChangeEntityPermissions(a, b, c, d, e) => CommandView::ChangeEntityPermissions(*a, b@, *c, d@, e@),
            Command::ChangeEntityOwners(a, b, c, d, e) => CommandView::ChangeEntityOwners(*a, b@, *c, d@, e@),
            Command::ChangeEntityContent(a, b, c, d) => CommandView::ChangeEntityContent(*a, b@, c@, d@),
            Command::UpdateFind(a, b, c) => CommandView::UpdateFind(*a, b@, c@),
        }
    }
}

} // verus!
