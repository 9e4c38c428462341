//! What the file manager keeps between runs: its look, the pins, the tabs.

use crate::pin::{pin_views, Pin, PinView};
use crate::tab::{tab_views, Tab, TabView};
use vstd::prelude::*;
use vstd::string::StringExecFns;

verus! {

/// Which columns a listing shows.
#[derive(Debug, PartialEq, Eq, Clone, Copy, Structural)]
pub struct EntitysShowColumn {
    pub filekind: bool,
    pub name: bool,
    pub name_with_extension: bool,
    pub extension: bool,
    pub permissions: bool,
    pub owners: bool,
    pub size: bool,
    pub date_modification: bool,
    pub date_creation: bool,
}

impl Default for EntitysShowColumn {
    /// Every column is shown.
    fn default() -> (columns: Self)
        ensures
            columns == (EntitysShowColumn {
                filekind: true,
                name: true,
                name_with_extension: true,
                extension: true,
                permissions: true,
                owners: true,
                size: true,
                date_modification: true,
                date_creation: true,
            }),
    {
        Self {
            filekind: true,
            name: true,
            name_with_extension: true,
            extension: true,
            permissions: true,
            owners: true,
            size: true,
            date_modification: true,
            date_creation: true,
        }
    }
}

/// A colour as red, green and blue.
#[derive(Debug, PartialEq, Eq, Clone, Copy, Structural)]
pub struct JujikColor {
    pub red: u8,
    pub green: u8,
    pub blue: u8,
}

impl JujikColor {
    pub fn new(r: u8, g: u8, b: u8) -> (color: Self)
        ensures
            color == (JujikColor { red: r, green: g, blue: b }),
    {
        Self { red: r, green: g, blue: b }
    }

    /// Red, green and blue in a row.
    pub fn array(&self) -> (rgb: [u8; 3])
        ensures
            rgb@ == seq![self.red, self.green, self.blue],
    {
        let rgb = [self.red, self.green, self.blue];
        assert(rgb@ =~= seq![self.red, self.green, self.blue]);
        rgb
    }
}

/// The bits of the number 18 as a 32-bit float: the text size of the
/// default look.
pub const DEFAULT_TEXT_SIZE_BITS: u32 = 0x4190_0000;

/// The look of the file manager. The text size is a 32-bit float; it is
/// held by its bits, which this library hands on and never reads.
#[derive(Debug, PartialEq, Eq, Clone, Copy, Structural)]
pub struct JujikStyle {
    pub show: bool,
    pub primary_color: JujikColor,
    pub background_color: JujikColor,
    pub selection_color: JujikColor,
    pub text_color: JujikColor,
    pub text_size_bits: u32,
}

/// The look that the file manager starts with.
pub open spec fn default_style() -> JujikStyle {
    JujikStyle {
        show: false,
        primary_color: JujikColor { red: 100, green: 100, blue: 100 },
        background_color: JujikColor { red: 50, green: 50, blue: 50 },
        selection_color: JujikColor { red: 50, green: 80, blue: 50 },
        text_color: JujikColor { red: 220, green: 220, blue: 220 },
        text_size_bits: DEFAULT_TEXT_SIZE_BITS,
    }
}

impl Default for JujikStyle {
    fn default() -> (style: Self)
        ensures
            style == default_style(),
    {
        Self {
            show: false,
            primary_color: JujikColor::new(100, 100, 100),
            background_color: JujikColor::new(50, 50, 50),
            selection_color: JujikColor::new(50, 80, 50),
            text_color: JujikColor::new(220, 220, 220),
            text_size_bits: DEFAULT_TEXT_SIZE_BITS,
        }
    }
}

/// The snapshot that is kept between runs.
#[derive(Debug)]
pub struct Config {
    pub style: JujikStyle,
    pub pins: Vec<Pin>,
    pub tabs: Vec<Tab>,
    pub current_tab_idx: usize,
    pub entitys_show: EntitysShowColumn,
}

/// What a snapshot holds.
pub struct ConfigView {
    pub style: JujikStyle,
    pub pins: Seq<PinView>,
    pub tabs: Seq<TabView>,
    pub current_tab_idx: usize,
    pub entitys_show: EntitysShowColumn,
}

impl View for Config {
    type V = ConfigView;

    open spec fn view(&self) -> ConfigView {
        ConfigView {
            style: self.style,
            pins: pin_views(self.pins@),
            tabs: tab_views(self.tabs@),
            current_tab_idx: self.current_tab_idx,
            entitys_show: self.entitys_show,
        }
    }
}

/// A copy of a row of pins.
pub fn clone_pins(pins: &Vec<Pin>) -> (copy: Vec<Pin>)
    ensures
        pin_views(copy@) == pin_views(pins@),
{
    let mut copy: Vec<Pin> = Vec::new();
    let mut i: usize = 0;
    while i < pins.len()
        invariant
            i <= pins.len(),
            copy.len() == i,
            forall|k: int| 0 <= k < i ==> copy@[k]@ == pins@[k]@,
        decreases pins.len() - i,
    {
        copy.push(pins[i].clone());
        i += 1;
    }
    assert(pin_views(copy@) =~= pin_views(pins@));
    copy
}

/// A copy of a row of tabs.
pub fn clone_tabs(tabs: &Vec<Tab>) -> (copy: Vec<Tab>)
    ensures
        tab_views(copy@) == tab_views(tabs@),
{
    let mut copy: Vec<Tab> = Vec::new();
    let mut i: usize = 0;
    while i < tabs.len()
        invariant
            i <= tabs.len(),
            copy.len() == i,
            forall|k: int| 0 <= k < i ==> copy@[k]@ == tabs@[k]@,
        decreases tabs.len() - i,
    {
        copy.push(tabs[i].clone());
        i += 1;
    }
    assert(tab_views(copy@) =~= tab_views(tabs@));
    copy
}

/// The tabs with every listing emptied.
pub open spec fn cleared(tabs: Seq<TabView>) -> Seq<TabView> {
    tabs.map_values(|t: TabView| t.with_entitys(Seq::empty()))
}

/// The snapshot of a first run: the default look, no pins, no tabs.
pub open spec fn default_config() -> ConfigView {
    ConfigView {
        style: default_style(),
        pins: Seq::empty(),
        tabs: Seq::empty(),
        current_tab_idx: 0,
        entitys_show: EntitysShowColumn {
            filekind: true,
            name: true,
            name_with_extension: true,
            extension: true,
            permissions: true,
            owners: true,
            size: true,
            date_modification: true,
            date_creation: true,
        },
    }
}

impl Clone for Config {
    fn clone(&self) -> (copy: Self)
        ensures
            copy@ == self@,
    {
        Self {
            style: self.style,
            pins: clone_pins(&self.pins),
            tabs: clone_tabs(&self.tabs),
            current_tab_idx: self.current_tab_idx,
            entitys_show: self.entitys_show,
        }
    }
}

impl Default for Config {
    /// The snapshot of a first run: the default look, no pins, no tabs.
    fn default() -> (config: Self)
        ensures
            config@ == default_config(),
    {
        let config = Self {
            style: JujikStyle::default(),
            pins: Vec::new(),
            tabs: Vec::new(),
            current_tab_idx: 0,
            entitys_show: EntitysShowColumn::default(),
        };
        assert(config@.pins =~= Seq::empty());
        assert(config@.tabs =~= Seq::empty());
        config
    }
}

impl Config {
    pub fn new(
        style: JujikStyle,
        pins: Vec<Pin>,
        tabs: Vec<Tab>,
        current_tab_idx: usize,
        entitys_show: EntitysShowColumn,
    ) -> (config: Self)
        ensures
            config@ == (ConfigView {
                style,
                pins: pin_views(pins@),
                tabs: tab_views(tabs@),
                current_tab_idx,
                entitys_show,
            }),
    {
        Self { style, pins, tabs, current_tab_idx, entitys_show }
    }

    /// The snapshot of a first run for a user whose home directory is
    /// `home`: the default snapshot with one pin, `Home`, that leads there.
    pub fn with_home(home: String) -> (config: Self)
        ensures
            config@ == (ConfigView {
                pins: seq![PinView { name: "Home"@, path: home@ }],
                ..default_config()
            }),
    {
        let mut config = Self::default();
        config.pins.push(Pin::from(String::from_str("Home"), home));
        assert(config@.pins =~= seq![PinView { name: "Home"@, path: home@ }]);
        config
    }

    /// Empties the listing of every tab, as a snapshot is kept without the
    /// entities that were on disk when it was taken.
    pub fn clear_entitys(&mut self)
        ensures
            final(self)@ == (ConfigView { tabs: cleared(old(self)@.tabs), ..old(self)@ }),
    {
        let mut i: usize = 0;
        while i < self.tabs.len()
            invariant
                i <= self.tabs.len(),
                self.tabs.len() == old(self).tabs.len(),
                self.style == old(self).style,
                self.pins == old(self).pins,
                self.current_tab_idx == old(self).current_tab_idx,
                self.entitys_show == old(self).entitys_show,
                forall|k: int|
                    0 <= k < i ==> #[trigger] self.tabs@[k]@ == old(self).tabs@[k]@.with_entitys(
                        Seq::empty(),
                    ),
                forall|k: int|
                    i <= k < self.tabs.len() ==> #[trigger] self.tabs@[k]@ == old(self).tabs@[k]@,
            decreases self.tabs.len() - i,
        {
            let mut tab = self.tabs[i].clone();
            tab.clear_entitys();
            self.tabs.set(i, tab);
            i += 1;
        }
        assert(self@.tabs =~= cleared(old(self)@.tabs));
    }
}

} // verus!
