//! The decisions of the controller: the actor that owns the pins and tabs,
//! checks each request before the model sees it, and keeps the
//! presentation's copy in step.
//!
//! The controller itself neither reads the filesystem nor sends anything.
//! For each message it says what it needs read (`wanted`), is told what was
//! read (`Observed`), and answers with the effects to carry out (`handle`).

use crate::commands::{Command, CommandView};
use crate::config::{cleared, clone_pins, clone_tabs, default_config, Config, ConfigView};
use crate::entity::find::clone_entitys;
use crate::entity::{views_of, Entity, EntityView};
use crate::path::{path_parent, text_of};
use crate::pin::Pin;
use crate::tab::{Tab, TabContentView, TabView};
use vstd::prelude::*;
use vstd::string::StringExecFns;

verus! {

/// What `format!("{:?}", text)` writes for a text: the text in double
/// quotes, with the characters that need it escaped.
pub uninterp spec fn debug_quoted(text: Seq<char>) -> Seq<char>;

/// Formats a text with `{:?}`.
#[verifier::external_body]
fn quoted(text: &str) -> (shown: String)
    ensures
        shown@ == debug_quoted(text@),
{
    format!("{:?}", text)
}

/// The entities that were read anew for the listing of one tab.
#[derive(Debug)]
pub struct Listing {
    pub tab: usize,
    pub entitys: Vec<Entity>,
}

/// What a listing holds.
pub struct ListingView {
    pub tab: usize,
    pub entitys: Seq<EntityView>,
}

impl View for Listing {
    type V = ListingView;

    open spec fn view(&self) -> ListingView {
        ListingView { tab: self.tab, entitys: views_of(self.entitys@) }
    }
}

/// The views of a sequence of listings, one for one.
pub open spec fn listing_views(listings: Seq<Listing>) -> Seq<ListingView> {
    listings.map_values(|l: Listing| l@)
}

/// What the controller needs read before it decides on a message.
#[derive(Debug)]
pub struct Wanted {
    /// The path to look at: does it exist, and is it a directory.
    pub path: Option<String>,
    /// The tabs whose directories are to be read anew, each with its directory.
    pub listings: Vec<(usize, String)>,
}

/// What was read for the controller.
#[derive(Debug)]
pub struct Observed {
    /// Whether the wanted path exists.
    pub exists: bool,
    /// Whether the wanted path is a directory.
    pub is_dir: bool,
    /// The directories that could be read, each for its tab.
    pub listings: Vec<Listing>,
}

/// What was read for the controller.
pub struct ObservedView {
    pub exists: bool,
    pub is_dir: bool,
    pub listings: Seq<ListingView>,
}

impl View for Observed {
    type V = ObservedView;

    open spec fn view(&self) -> ObservedView {
        ObservedView {
            exists: self.exists,
            is_dir: self.is_dir,
            listings: listing_views(self.listings@),
        }
    }
}

/// Something for the controller's surroundings to carry out.
#[derive(Debug)]
pub enum Effect {
    /// Send the message to the model.
    ToModel(Command),
    /// Send the message to the presentation.
    ToView(Command),
    /// Write the snapshot to disk; a failure is put up with.
    Persist(Config),
    /// Leave the loop.
    Stop,
}

/// What an effect holds.
pub enum EffectView {
    ToModel(CommandView),
    ToView(CommandView),
    Persist(ConfigView),
    Stop,
}

impl View for Effect {
    type V = EffectView;

    open spec fn view(&self) -> EffectView {
        match self {
            Effect::ToModel(command) => EffectView::ToModel(command@),
            Effect::ToView(command) => EffectView::ToView(command@),
            Effect::Persist(config) => EffectView::Persist(config@),
            Effect::Stop => EffectView::Stop,
        }
    }
}

/// The views of a sequence of effects, one for one.
pub open spec fn effect_views(effects: Seq<Effect>) -> Seq<EffectView> {
    effects.map_values(|e: Effect| e@)
}

/// The message of the error for a path that does not exist.
pub open spec fn missing_path_text(path: Seq<char>) -> Seq<char> {
    "Path "@ + debug_quoted(path) + " does not exist"@
}

/// The message of the error for a path that is no directory.
pub open spec fn not_a_directory_text(path: Seq<char>) -> Seq<char> {
    "Path "@ + debug_quoted(path) + " is not a directory"@
}

/// The path that the controller looks at before it decides on a message:
/// where something is to be made or put, or the entity that is to be changed.
pub open spec fn wanted_path(command: CommandView) -> Option<Seq<char>> {
    match command {
        CommandView::CreatePin(path) => Some(path),
        CommandView::CreateEntitys(path) => Some(path),
        CommandView::CreateView(path) => Some(path),
        CommandView::CreateEditor(path) => Some(path),
        CommandView::CreateFinder(parameters) => Some(parameters.path),
        CommandView::CopyEntitys(_, _, _, _, path) => Some(path),
        CommandView::MoveEntitys(_, _, _, _, path) => Some(path),
        CommandView::ChangeEntityName(_, _, _, entity, _) => Some(entity.path),
        CommandView::ChangeEntityExtension(_, _, _, entity, _) => Some(entity.path),
        CommandView::ChangeEntityPermissions(_, _, _, entity, _) => Some(entity.path),
        CommandView::ChangeEntityOwners(_, _, _, entity, _) => Some(entity.path),
        CommandView::ChangeEntityContent(_, _, entity, _) => Some(entity.path),
        _ => None,
    }
}

/// The directory that a tab lists, if it has a listing.
pub open spec fn listed_directory(tab: TabView) -> Option<Seq<char>> {
    match tab.content {
        TabContentView::Entitys(_, path, _) => Some(path),
        _ => None,
    }
}

/// The tabs among the first `upto` that have a listing, each with its index
/// and its directory, in their order. With `only`, no tab but that one.
pub open spec fn wanted_listings(tabs: Seq<TabView>, only: Option<usize>, upto: int) -> Seq<
    (usize, Seq<char>),
>
    decreases upto,
{
    if upto <= 0 {
        Seq::empty()
    } else {
        let before = wanted_listings(tabs, only, upto - 1);
        let i = upto - 1;
        if i < tabs.len() && (only matches Some(o) ==> o == i) {
            match listed_directory(tabs[i]) {
                Some(path) => before.push((i as usize, path)),
                None => before,
            }
        } else {
            before
        }
    }
}

/// The tabs after the listings that were read are put in, one after the
/// other: each replaces the listing of its tab, if there is such a tab and,
/// with `only`, if it is that one. A tab without a listing stays as it is.
pub open spec fn refreshed(tabs: Seq<TabView>, listings: Seq<ListingView>, only: Option<usize>) -> Seq<
    TabView,
>
    decreases listings.len(),
{
    if listings.len() == 0 {
        tabs
    } else {
        let first = listings[0];
        let next = if first.tab < tabs.len() && (only matches Some(o) ==> o == first.tab) {
            tabs.update(first.tab as int, tabs[first.tab as int].with_entitys(first.entitys))
        } else {
            tabs
        };
        refreshed(next, listings.drop_first(), only)
    }
}

/// Whether slot `index` of `row` holds `expected`.
pub open spec fn holds<T>(row: Seq<T>, index: usize, expected: T) -> bool {
    index < row.len() && row[index as int] == expected
}

/// The row without slot `index`, if that slot holds `expected`; else the row.
pub open spec fn deleted<T>(row: Seq<T>, index: usize, expected: T) -> Seq<T> {
    if holds(row, index, expected) {
        row.remove(index as int)
    } else {
        row
    }
}

/// The row with slots `from` and `to` exchanged, if `from` holds `expected`
/// and `to` is a slot of the row; else the row.
pub open spec fn exchanged<T>(row: Seq<T>, from: usize, to: usize, expected: T) -> Seq<T> {
    if holds(row, from, expected) && to < row.len() {
        row.update(to as int, row[from as int]).update(from as int, row[to as int])
    } else {
        row
    }
}

/// The row with `item` appended where no index is given, and put in place
/// of slot `index` where one is given and is a slot of the row; else the row.
pub open spec fn placed<T>(row: Seq<T>, index: Option<usize>, item: T) -> Seq<T> {
    match index {
        None => row.push(item),
        Some(i) => if i < row.len() {
            row.update(i as int, item)
        } else {
            row
        },
    }
}

/// The full copy of pins and tabs that the presentation is sent.
pub open spec fn sync_of(config: ConfigView) -> EffectView {
    EffectView::ToView(CommandView::Sync(config.pins, config.tabs))
}

/// A request that is passed to the model if the wanted path exists, and
/// answered with an error to the presentation if it does not.
pub open spec fn checked(command: CommandView, seen: ObservedView) -> Seq<EffectView> {
    if seen.exists {
        seq![EffectView::ToModel(command)]
    } else {
        match wanted_path(command) {
            Some(path) => seq![EffectView::ToView(CommandView::Error(missing_path_text(path)))],
            None => seq![EffectView::ToModel(command)],
        }
    }
}

/// A request to put entities into the directory `target`: passed to the
/// model if `target` is a directory, else answered with an error.
pub open spec fn checked_target(command: CommandView, target: Seq<char>, seen: ObservedView) -> Seq<
    EffectView,
> {
    if !seen.exists {
        seq![EffectView::ToView(CommandView::Error(missing_path_text(target)))]
    } else if !seen.is_dir {
        seq![EffectView::ToView(CommandView::Error(not_a_directory_text(target)))]
    } else {
        seq![EffectView::ToModel(command)]
    }
}

/// The directory that is meant by a path where a directory is asked for:
/// the path itself, or its parent where the path is no directory and has a
/// parent.
pub open spec fn implied_directory(path: Seq<char>, seen: ObservedView) -> Seq<char> {
    if seen.is_dir {
        path
    } else {
        match path_parent(path) {
            Some(parent) => parent,
            None => path,
        }
    }
}

/// What the controller makes of a message that leaves its snapshot alone:
/// a request is checked and passed to the model or answered with an error,
/// an error of the model is passed to the presentation, and a message that
/// is not meant for the controller is dropped.
pub open spec fn routed(command: CommandView, seen: ObservedView) -> Seq<EffectView> {
    match command {
        CommandView::Error(detail) => seq![EffectView::ToView(CommandView::Error(detail))],
        CommandView::CreateView(_)
        | CommandView::CreateEditor(_)
        | CommandView::CreateFinder(_)
        | CommandView::ChangeEntityName(..)
        | CommandView::ChangeEntityExtension(..)
        | CommandView::ChangeEntityPermissions(..)
        | CommandView::ChangeEntityOwners(..)
        | CommandView::ChangeEntityContent(..) => checked(command, seen),
        CommandView::CopyEntitys(_, _, _, _, target) => checked_target(command, target, seen),
        CommandView::MoveEntitys(_, _, _, _, target) => checked_target(command, target, seen),
        CommandView::ChangePinName(..)
        | CommandView::ChangePinDirectory(..)
        | CommandView::ChangeTabName(..)
        | CommandView::ChangeTabDirectory(..)
        | CommandView::ChangeEntitysSortBy(..)
        | CommandView::CreateEntity(..)
        | CommandView::DeleteEntitys(..) => seq![EffectView::ToModel(command)],
        _ => Seq::empty(),
    }
}

/// What the controller makes of a message: the snapshot it holds
/// afterwards, and the effects, in the order they are to be carried out.
pub open spec fn react(config: ConfigView, command: CommandView, seen: ObservedView) -> (
    ConfigView,
    Seq<EffectView>,
) {
    match command {
        CommandView::CreatePin(path) => (
            config,
            if seen.exists {
                seq![EffectView::ToModel(CommandView::CreatePin(implied_directory(path, seen)))]
            } else {
                seq![EffectView::ToView(CommandView::Error(missing_path_text(path)))]
            },
        ),
        CommandView::CreateEntitys(path) => (
            config,
            if seen.exists {
                seq![EffectView::ToModel(CommandView::CreateEntitys(implied_directory(path, seen)))]
            } else {
                seq![EffectView::ToView(CommandView::Error(missing_path_text(path)))]
            },
        ),
        CommandView::DeletePin(index, expected) => {
            let next = ConfigView { pins: deleted(config.pins, index, expected), ..config };
            (next, seq![sync_of(next)])
        },
        CommandView::ChangePinPosition(from, to, expected) => {
            let next = ConfigView { pins: exchanged(config.pins, from, to, expected), ..config };
            (next, seq![sync_of(next)])
        },
        CommandView::NewPin(index, pin) => {
            let next = ConfigView { pins: placed(config.pins, index, pin), ..config };
            (next, seq![sync_of(next)])
        },
        CommandView::DeleteTab(index, expected) => {
            let next = ConfigView { tabs: deleted(config.tabs, index, expected), ..config };
            (next, seq![sync_of(next)])
        },
        CommandView::ChangeTabPosition(from, to, expected) => {
            let next = ConfigView { tabs: exchanged(config.tabs, from, to, expected), ..config };
            (next, seq![sync_of(next)])
        },
        CommandView::NewTab(index, tab) => {
            let next = ConfigView { tabs: placed(config.tabs, index, tab), ..config };
            (next, seq![sync_of(next)])
        },
        CommandView::UpdateTab(index) => {
            let next = ConfigView {
                tabs: refreshed(config.tabs, seen.listings, Some(index)),
                ..config
            };
            (next, seq![sync_of(next)])
        },
        CommandView::Update => {
            let next = ConfigView { tabs: refreshed(config.tabs, seen.listings, None), ..config };
            (next, seq![EffectView::ToView(CommandView::SetConfig(next))])
        },
        CommandView::SetConfig(given) => {
            let next = ConfigView { tabs: cleared(given.tabs), ..given };
            (next, seq![EffectView::Persist(next), EffectView::ToView(CommandView::SetConfig(given))])
        },
        CommandView::Drop => {
            let next = ConfigView { tabs: cleared(config.tabs), ..config };
            (
                next,
                seq![
                    EffectView::Persist(next),
                    EffectView::ToView(CommandView::Drop),
                    EffectView::ToModel(CommandView::Drop),
                    EffectView::Stop,
                ],
            )
        },
        _ => (config, routed(command, seen)),
    }
}

/// What the controller does when its clock ticks: the listings that were
/// read anew are put in, the presentation is sent the full copy of pins and
/// tabs and is asked for its snapshot, so that it can be kept.
pub open spec fn tick_of(config: ConfigView, listings: Seq<ListingView>) -> (
    ConfigView,
    Seq<EffectView>,
) {
    let next = ConfigView { tabs: refreshed(config.tabs, listings, None), ..config };
    (next, seq![sync_of(next), EffectView::ToView(CommandView::GetConfig)])
}

/// The seconds between two ticks of the controller's clock.
pub const TICK_SECONDS: u64 = 5;

/// The views of the tabs to read anew, one for one.
pub open spec fn wanted_views(wanted: Seq<(usize, String)>) -> Seq<(usize, Seq<char>)> {
    wanted.map_values(|w: (usize, String)| (w.0, w.1@))
}

/// Which tab alone a message asks to be read anew; `None` where it asks
/// for all of them or for none.
pub open spec fn only_tab(command: CommandView) -> Option<usize> {
    match command {
        CommandView::UpdateTab(index) => Some(index),
        _ => None,
    }
}

/// Whether a message asks for directories to be read anew.
pub open spec fn asks_listings(command: CommandView) -> bool {
    command is UpdateTab || command is Update
}

/// The controller: the one owner of the pins and tabs.
#[derive(Debug)]
pub struct JujikController {
    config: Config,
}

impl View for JujikController {
    type V = ConfigView;

    closed spec fn view(&self) -> ConfigView {
        self.config@
    }
}

/// A row of the one effect.
fn one(effect: Effect) -> (effects: Vec<Effect>)
    ensures
        effect_views(effects@) == seq![effect@],
{
    let mut effects = Vec::new();
    effects.push(effect);
    assert(effect_views(effects@) =~= seq![effect@]);
    effects
}

/// The error to the presentation for a path that does not exist.
fn missing_path(path: &str) -> (effect: Effect)
    ensures
        effect@ == EffectView::ToView(CommandView::Error(missing_path_text(path@))),
{
    let shown = quoted(path);
    Effect::ToView(
        Command::Error(
            String::from_str("Path ").concat(shown.as_str()).concat(" does not exist"),
        ),
    )
}

/// The error to the presentation for a path that is no directory.
fn not_a_directory(path: &str) -> (effect: Effect)
    ensures
        effect@ == EffectView::ToView(CommandView::Error(not_a_directory_text(path@))),
{
    let shown = quoted(path);
    Effect::ToView(
        Command::Error(
            String::from_str("Path ").concat(shown.as_str()).concat(" is not a directory"),
        ),
    )
}

/// The directory that is meant by `path` where a directory is asked for.
fn directory_meant(path: String, seen: &Observed) -> (directory: String)
    ensures
        directory@ == implied_directory(path@, seen@),
{
    if seen.is_dir {
        path
    } else {
        match crate::path::parent(path.as_str()) {
            Some(parent) => parent,
            None => path,
        }
    }
}

/// The path that the controller looks at before it decides on `command`.
pub fn wanted_path_of(command: &Command) -> (path: Option<String>)
    ensures
        text_of(path) == wanted_path(command@),
{
    match command {
        Command::CreatePin(path) => Some(path.clone()),
        Command::CreateEntitys(path) => Some(path.clone()),
        Command::CreateView(path) => Some(path.clone()),
        Command::CreateEditor(path) => Some(path.clone()),
        Command::CreateFinder(parameters) => Some(parameters.path.clone()),
        Command::CopyEntitys(_, _, _, _, path) => Some(path.clone()),
        Command::MoveEntitys(_, _, _, _, path) => Some(path.clone()),
        Command::ChangeEntityName(_, _, _, entity, _) => Some(entity.path()),
        Command::ChangeEntityExtension(_, _, _, entity, _) => Some(entity.path()),
        Command::ChangeEntityPermissions(_, _, _, entity, _) => Some(entity.path()),
        Command::ChangeEntityOwners(_, _, _, entity, _) => Some(entity.path()),
        Command::ChangeEntityContent(_, _, entity, _) => Some(entity.path()),
        _ => None,
    }
}

/// What is to be done with a message that leaves the snapshot alone.
fn route(command: Command, seen: &Observed) -> (effects: Vec<Effect>)
    ensures
        effect_views(effects@) == routed(command@, seen@),
{
    let path = wanted_path_of(&command);
    match command {
        Command::Error(detail) => one(Effect::ToView(Command::Error(detail))),
        Command::CreateView(_)
        | Command::CreateEditor(_)
        | Command::CreateFinder(_)
        | Command::ChangeEntityName(..)
        | Command::ChangeEntityExtension(..)
        | Command::ChangeEntityPermissions(..)
        | Command::ChangeEntityOwners(..)
        | Command::ChangeEntityContent(..) => {
            if seen.exists {
                one(Effect::ToModel(command))
            } else {
                match path {
                    Some(path) => one(missing_path(path.as_str())),
                    None => one(Effect::ToModel(command)),
                }
            }
        },
        Command::CopyEntitys(..) | Command::MoveEntitys(..) => {
            match path {
                Some(path) => {
                    if !seen.exists {
                        one(missing_path(path.as_str()))
                    } else if !seen.is_dir {
                        one(not_a_directory(path.as_str()))
                    } else {
                        one(Effect::ToModel(command))
                    }
                },
                None => one(Effect::ToModel(command)),
            }
        },
        Command::ChangePinName(..)
        | Command::ChangePinDirectory(..)
        | Command::ChangeTabName(..)
        | Command::ChangeTabDirectory(..)
        | Command::ChangeEntitysSortBy(..)
        | Command::CreateEntity(..)
        | Command::DeleteEntitys(..) => one(Effect::ToModel(command)),
        _ => {
            let effects = Vec::new();
            assert(effect_views(effects@) =~= Seq::empty());
            effects
        },
    }
}

impl JujikController {
    /// The controller that starts from the snapshot that was loaded, or from
    /// the default snapshot where none could be loaded.
    pub fn new(loaded: Option<Config>) -> (controller: Self)
        ensures
            controller@ == match loaded {
                Some(config) => config@,
                None => default_config(),
            },
    {
        match loaded {
            Some(config) => Self { config },
            None => Self { config: Config::default() },
        }
    }

    /// The snapshot that the controller holds.
    pub fn config(&self) -> (config: &Config)
        ensures
            config@ == self@,
    {
        &self.config
    }

    /// What the controller does first: it sends the presentation its snapshot.
    pub fn start(&self) -> (effects: Vec<Effect>)
        ensures
            effect_views(effects@) == seq![EffectView::ToView(CommandView::SetConfig(self@))],
    {
        one(Effect::ToView(Command::SetConfig(self.config.clone())))
    }

    /// The full copy of pins and tabs for the presentation.
    fn sync_view(&self) -> (effect: Effect)
        ensures
            effect@ == sync_of(self@),
    {
        Effect::ToView(Command::Sync(clone_pins(&self.config.pins), clone_tabs(&self.config.tabs)))
    }

    /// The tabs with a listing, each with its index and its directory; with
    /// `only`, no tab but that one.
    fn listings_wanted(&self, only: Option<usize>) -> (wanted: Vec<(usize, String)>)
        ensures
            wanted_views(wanted@) == wanted_listings(self@.tabs, only, self@.tabs.len() as int),
    {
        let mut wanted: Vec<(usize, String)> = Vec::new();
        let mut i: usize = 0;
        assert(wanted_views(wanted@) =~= Seq::empty());
        while i < self.config.tabs.len()
            invariant
                i <= self.config.tabs.len(),
                wanted_views(wanted@) == wanted_listings(self@.tabs, only, i as int),
            decreases self.config.tabs.len() - i,
        {
            let ghost before = wanted_views(wanted@);
            let chosen = match only {
                Some(o) => o == i,
                None => true,
            };
            if chosen {
                match self.config.tabs[i].listing_path() {
                    Some(path) => {
                        wanted.push((i, path));
                        assert(wanted_views(wanted@) =~= before.push((i, path@)));
                    },
                    None => {},
                }
            }
            assert(self@.tabs[i as int] == self.config.tabs@[i as int]@);
            i += 1;
        }
        wanted
    }

    /// What has to be read before `handle` is given `command`.
    pub fn wanted(&self, command: &Command) -> (wanted: Wanted)
        ensures
            text_of(wanted.path) == wanted_path(command@),
            wanted_views(wanted.listings@) == if asks_listings(command@) {
                wanted_listings(self@.tabs, only_tab(command@), self@.tabs.len() as int)
            } else {
                Seq::empty()
            },
    {
        let path = wanted_path_of(command);
        let listings = match command {
            Command::UpdateTab(index) => self.listings_wanted(Some(*index)),
            Command::Update => self.listings_wanted(None),
            _ => {
                let none: Vec<(usize, String)> = Vec::new();
                assert(wanted_views(none@) =~= Seq::empty());
                none
            },
        };
        Wanted { path, listings }
    }

    /// Whether the clock is to tick again, `elapsed_seconds` whole seconds
    /// after its last tick: every five seconds, whatever messages come.
    pub fn tick_due(elapsed_seconds: u64) -> (due: bool)
        ensures
            due == (elapsed_seconds >= TICK_SECONDS),
            due == (elapsed_seconds >= 5),
    {
        elapsed_seconds >= TICK_SECONDS
    }

    /// What has to be read before `tick`: the directory of every tab with a
    /// listing.
    pub fn tick_wanted(&self) -> (wanted: Vec<(usize, String)>)
        ensures
            wanted_views(wanted@) == wanted_listings(self@.tabs, None, self@.tabs.len() as int),
    {
        self.listings_wanted(None)
    }

    /// Puts the listings that were read into their tabs.
    fn refresh(&mut self, listings: &Vec<Listing>, only: Option<usize>)
        ensures
            final(self)@ == (ConfigView {
                tabs: refreshed(old(self)@.tabs, listing_views(listings@), only),
                ..old(self)@
            }),
    {
        let ghost all = listing_views(listings@);
        let mut i: usize = 0;
        assert(all.subrange(0, all.len() as int) =~= all);
        while i < listings.len()
            invariant
                i <= listings.len(),
                all == listing_views(listings@),
                self.config.style == old(self).config.style,
                self.config.pins == old(self).config.pins,
                self.config.current_tab_idx == old(self).config.current_tab_idx,
                self.config.entitys_show == old(self).config.entitys_show,
                refreshed(self@.tabs, all.subrange(i as int, all.len() as int), only) == refreshed(
                    old(self)@.tabs,
                    all,
                    only,
                ),
            decreases listings.len() - i,
        {
            let ghost tabs_before = self@.tabs;
            let ghost rest = all.subrange(i as int, all.len() as int);
            let index = listings[i].tab;
            let chosen = match only {
                Some(o) => o == index,
                None => true,
            };
            if index < self.config.tabs.len() && chosen {
                let mut tab = self.config.tabs[index].clone();
                let done = tab.update_entitys(clone_entitys(&listings[i].entitys));
                self.config.tabs.set(index, tab);
                assert(self@.tabs =~= tabs_before.update(
                    index as int,
                    tabs_before[index as int].with_entitys(rest[0].entitys),
                ));
            }
            assert(rest.drop_first() =~= all.subrange(i + 1, all.len() as int));
            i += 1;
        }
    }

    /// Removes the pin at `index` if it is `expected`.
    fn delete_pin(&mut self, index: usize, expected: &Pin)
        ensures
            final(self)@ == (ConfigView {
                pins: deleted(old(self)@.pins, index, expected@),
                ..old(self)@
            }),
    {
        if index < self.config.pins.len() && self.config.pins[index] == *expected {
            let removed = self.config.pins.remove(index);
            assert(self@.pins =~= old(self)@.pins.remove(index as int));
        }
    }

    /// Exchanges the pins at `from` and `to` if the one at `from` is `expected`.
    fn exchange_pins(&mut self, from: usize, to: usize, expected: &Pin)
        ensures
            final(self)@ == (ConfigView {
                pins: exchanged(old(self)@.pins, from, to, expected@),
                ..old(self)@
            }),
    {
        let len = self.config.pins.len();
        if from < len && to < len && self.config.pins[from] == *expected {
            let moved = self.config.pins[to].clone();
            let held = self.config.pins[from].clone();
            self.config.pins.set(to, held);
            self.config.pins.set(from, moved);
            assert(self@.pins =~= exchanged(old(self)@.pins, from, to, expected@));
        }
    }

    /// Appends `pin`, or puts it in place of the pin at `index`.
    fn place_pin(&mut self, index: Option<usize>, pin: Pin)
        ensures
            final(self)@ == (ConfigView { pins: placed(old(self)@.pins, index, pin@), ..old(self)@ }),
    {
        match index {
            None => {
                self.config.pins.push(pin);
                assert(self@.pins =~= old(self)@.pins.push(pin@));
            },
            Some(i) => {
                if i < self.config.pins.len() {
                    self.config.pins.set(i, pin);
                    assert(self@.pins =~= old(self)@.pins.update(i as int, pin@));
                }
            },
        }
    }

    /// Removes the tab at `index` if it is `expected`.
    fn delete_tab(&mut self, index: usize, expected: &Tab)
        ensures
            final(self)@ == (ConfigView {
                tabs: deleted(old(self)@.tabs, index, expected@),
                ..old(self)@
            }),
    {
        if index < self.config.tabs.len() && self.config.tabs[index] == *expected {
            let removed = self.config.tabs.remove(index);
            assert(self@.tabs =~= old(self)@.tabs.remove(index as int));
        }
    }

    /// Exchanges the tabs at `from` and `to` if the one at `from` is `expected`.
    fn exchange_tabs(&mut self, from: usize, to: usize, expected: &Tab)
        ensures
            final(self)@ == (ConfigView {
                tabs: exchanged(old(self)@.tabs, from, to, expected@),
                ..old(self)@
            }),
    {
        let len = self.config.tabs.len();
        if from < len && to < len && self.config.tabs[from] == *expected {
            let moved = self.config.tabs[to].clone();
            let held = self.config.tabs[from].clone();
            self.config.tabs.set(to, held);
            self.config.tabs.set(from, moved);
            assert(self@.tabs =~= exchanged(old(self)@.tabs, from, to, expected@));
        }
    }

    /// Appends `tab`, or puts it in place of the tab at `index`.
    fn place_tab(&mut self, index: Option<usize>, tab: Tab)
        ensures
            final(self)@ == (ConfigView { tabs: placed(old(self)@.tabs, index, tab@), ..old(self)@ }),
    {
        match index {
            None => {
                self.config.tabs.push(tab);
                assert(self@.tabs =~= old(self)@.tabs.push(tab@));
            },
            Some(i) => {
                if i < self.config.tabs.len() {
                    self.config.tabs.set(i, tab);
                    assert(self@.tabs =~= old(self)@.tabs.update(i as int, tab@));
                }
            },
        }
    }

    /// Empties the listings of the snapshot and hands out a copy to be kept.
    fn write_config(&mut self) -> (effect: Effect)
        ensures
            final(self)@ == (ConfigView { tabs: cleared(old(self)@.tabs), ..old(self)@ }),
            effect@ == EffectView::Persist(final(self)@),
    {
        self.config.clear_entitys();
        Effect::Persist(self.config.clone())
    }

    /// Decides on `command`, given what was read for it: changes the
    /// snapshot and says what is to be sent, kept or ended.
    pub fn handle(&mut self, command: Command, seen: Observed) -> (effects: Vec<Effect>)
        ensures
            (final(self)@, effect_views(effects@)) == react(old(self)@, command@, seen@),
    {
        match command {
            Command::CreatePin(path) => {
                if seen.exists {
                    one(Effect::ToModel(Command::CreatePin(directory_meant(path, &seen))))
                } else {
                    one(missing_path(path.as_str()))
                }
            },
            Command::CreateEntitys(path) => {
                if seen.exists {
                    one(Effect::ToModel(Command::CreateEntitys(directory_meant(path, &seen))))
                } else {
                    one(missing_path(path.as_str()))
                }
            },
            Command::DeletePin(index, expected) => {
                self.delete_pin(index, &expected);
                one(self.sync_view())
            },
            Command::ChangePinPosition(from, to, expected) => {
                self.exchange_pins(from, to, &expected);
                one(self.sync_view())
            },
            Command::NewPin(index, pin) => {
                self.place_pin(index, pin);
                one(self.sync_view())
            },
            Command::DeleteTab(index, expected) => {
                self.delete_tab(index, &expected);
                one(self.sync_view())
            },
            Command::ChangeTabPosition(from, to, expected) => {
                self.exchange_tabs(from, to, &expected);
                one(self.sync_view())
            },
            Command::NewTab(index, tab) => {
                self.place_tab(index, tab);
                one(self.sync_view())
            },
            Command::UpdateTab(index) => {
                self.refresh(&seen.listings, Some(index));
                one(self.sync_view())
            },
            Command::Update => {
                self.refresh(&seen.listings, None);
                one(Effect::ToView(Command::SetConfig(self.config.clone())))
            },
            Command::SetConfig(given) => {
                self.config = given.clone();
                let persist = self.write_config();
                let mut effects = Vec::new();
                effects.push(persist);
                effects.push(Effect::ToView(Command::SetConfig(given)));
                assert(effect_views(effects@) =~= seq![
                    persist@,
                    EffectView::ToView(CommandView::SetConfig(given@)),
                ]);
                effects
            },
            Command::Drop => {
                let persist = self.write_config();
                let mut effects = Vec::new();
                effects.push(persist);
                effects.push(Effect::ToView(Command::Drop));
                effects.push(Effect::ToModel(Command::Drop));
                effects.push(Effect::Stop);
                assert(effect_views(effects@) =~= seq![
                    persist@,
                    EffectView::ToView(CommandView::Drop),
                    EffectView::ToModel(CommandView::Drop),
                    EffectView::Stop,
                ]);
                effects
            },
            other => route(other, &seen),
        }
    }

    /// What the controller does when its clock ticks, given the listings
    /// that were read anew.
    pub fn tick(&mut self, listings: Vec<Listing>) -> (effects: Vec<Effect>)
        ensures
            (final(self)@, effect_views(effects@)) == tick_of(old(self)@, listing_views(listings@)),
    {
        self.refresh(&listings, None);
        let mut effects = Vec::new();
        let sync = self.sync_view();
        effects.push(sync);
        effects.push(Effect::ToView(Command::GetConfig));
        assert(effect_views(effects@) =~= seq![
            sync@,
            EffectView::ToView(CommandView::GetConfig),
        ]);
        effects
    }
}

/// A request to exchange or delete that names a slot which no longer holds
/// what the sender saw there changes nothing, and the presentation is sent
/// the pins and tabs as they were.
pub proof fn lemma_stale_request_changes_nothing(
    config: ConfigView,
    command: CommandView,
    seen: ObservedView,
)
    requires
        match command {
            CommandView::ChangePinPosition(from, _, expected) => !holds(config.pins, from, expected),
            CommandView::DeletePin(index, expected) => !holds(config.pins, index, expected),
            CommandView::ChangeTabPosition(from, _, expected) => !holds(config.tabs, from, expected),
            CommandView::DeleteTab(index, expected) => !holds(config.tabs, index, expected),
            _ => false,
        },
    ensures
        react(config, command, seen) == (config, seq![sync_of(config)]),
{
}

/// An exchange that goes through puts each of the two into the other's
/// slot and leaves every other slot, and the length of the row, as it was.
pub proof fn lemma_exchange_swaps<T>(row: Seq<T>, from: usize, to: usize, expected: T)
    requires
        holds(row, from, expected),
        to < row.len(),
    ensures
        exchanged(row, from, to, expected).len() == row.len(),
        exchanged(row, from, to, expected)[to as int] == row[from as int],
        exchanged(row, from, to, expected)[from as int] == row[to as int],
        forall|i: int|
            0 <= i < row.len() && i != from && i != to ==> exchanged(row, from, to, expected)[i]
                == row[i],
{
}

/// A delete that goes through takes out the one slot and closes the gap.
pub proof fn lemma_delete_removes_one<T>(row: Seq<T>, index: usize, expected: T)
    requires
        holds(row, index, expected),
    ensures
        deleted(row, index, expected).len() == row.len() - 1,
        forall|i: int| 0 <= i < index ==> deleted(row, index, expected)[i] == row[i],
        forall|i: int|
            index <= i < row.len() - 1 ==> deleted(row, index, expected)[i] == row[i + 1],
{
}

/// A request that depends on a path which does not exist never reaches the
/// model: the snapshot stays as it is, and the presentation gets the one
/// error that names the path.
pub proof fn lemma_missing_path_is_refused(
    config: ConfigView,
    command: CommandView,
    seen: ObservedView,
)
    requires
        wanted_path(command) is Some,
        !seen.exists,
    ensures
        react(config, command, seen) == (
            config,
            seq![
                EffectView::ToView(
                    CommandView::Error(missing_path_text(wanted_path(command)->Some_0)),
                ),
            ],
        ),
{
}

/// Whatever reaches the model of a request that depends on a path was
/// checked: the path exists.
pub proof fn lemma_model_gets_checked_requests(
    config: ConfigView,
    command: CommandView,
    seen: ObservedView,
    i: int,
)
    requires
        wanted_path(command) is Some,
        0 <= i < react(config, command, seen).1.len(),
        react(config, command, seen).1[i] is ToModel,
    ensures
        seen.exists,
{
}

/// Whenever the presentation is sent pins and tabs, they are those that the
/// controller holds after the message.
pub proof fn lemma_sync_is_current(
    config: ConfigView,
    command: CommandView,
    seen: ObservedView,
    i: int,
)
    requires
        0 <= i < react(config, command, seen).1.len(),
        react(config, command, seen).1[i] is ToView,
        react(config, command, seen).1[i]->ToView_0 is Sync,
    ensures
        react(config, command, seen).1[i] == sync_of(react(config, command, seen).0),
{
}

/// A message changes the controller's pins or tabs only together with
/// telling the presentation: each such message but the saving of a
/// snapshot is answered with exactly the pins and tabs held afterwards.
pub proof fn lemma_changes_are_told(config: ConfigView, command: CommandView, seen: ObservedView)
    requires
        react(config, command, seen).0 != config,
        !(command is SetConfig),
        !(command is Drop),
    ensures
        ({
            let (next, effects) = react(config, command, seen);
            effects == seq![sync_of(next)] || effects == seq![
                EffectView::ToView(CommandView::SetConfig(next)),
            ]
        }),
{
}

} // verus!
