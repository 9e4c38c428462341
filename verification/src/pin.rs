//! A named shortcut to a directory.

use crate::entity::{name_of_path, Entity};
use crate::error::JujikError;
use vstd::prelude::*;

verus! {

/// A shortcut: the name it is shown under and the path it leads to.
#[derive(Debug, Eq)]
pub struct Pin {
    name: String,
    pathbuf: String,
}

/// What a pin holds, with its texts as sequences of characters.
pub struct PinView {
    pub name: Seq<char>,
    pub path: Seq<char>,
}

impl View for Pin {
    type V = PinView;

    closed spec fn view(&self) -> PinView {
        PinView { name: self.name@, path: self.pathbuf@ }
    }
}

/// The views of a sequence of pins, one for one.
pub open spec fn pin_views(pins: Seq<Pin>) -> Seq<PinView> {
    pins.map_values(|p: Pin| p@)
}

impl PartialEq for Pin {
    fn eq(&self, other: &Self) -> (same: bool) {
        self.name == other.name && self.pathbuf == other.pathbuf
    }
}

impl vstd::std_specs::cmp::PartialEqSpecImpl for Pin {
    open spec fn obeys_eq_spec() -> bool {
        true
    }

    open spec fn eq_spec(&self, other: &Self) -> bool {
        self@ == other@
    }
}

impl Clone for Pin {
    fn clone(&self) -> (copy: Self)
        ensures
            copy@ == self@,
    {
        Self { name: self.name.clone(), pathbuf: self.pathbuf.clone() }
    }
}

impl Default for Pin {
    /// The pin without name or path.
    fn default() -> (pin: Self)
        ensures
            pin@ == (PinView { name: Seq::empty(), path: Seq::empty() }),
    {
        Self { name: String::new(), pathbuf: String::new() }
    }
}

impl Pin {
    /// The pin to `pathbuf`, named as an entity at that path would be. A
    /// path held as text always has such a name.
    pub fn new(pathbuf: String) -> (made: Result<Self, JujikError>)
        ensures
            made matches Ok(pin) && pin@ == (PinView {
                name: name_of_path(pathbuf@),
                path: pathbuf@,
            }),
    {
        match Entity::get_name(pathbuf.as_str()) {
            Ok(name) => Ok(Self { name, pathbuf }),
            Err(e) => Err(e),
        }
    }

    /// The pin without name or path.
    pub fn empty() -> (pin: Self)
        ensures
            pin@ == (PinView { name: Seq::empty(), path: Seq::empty() }),
    {
        Self { name: String::new(), pathbuf: String::new() }
    }

    /// The pin to `pathbuf` under the name `name`.
    pub fn from(name: String, pathbuf: String) -> (pin: Self)
        ensures
            pin@ == (PinView { name: name@, path: pathbuf@ }),
    {
        Self { name, pathbuf }
    }

    pub fn name(&self) -> (name: String)
        ensures
            name@ == self@.name,
    {
        self.name.clone()
    }

    pub fn path(&self) -> (path: String)
        ensures
            path@ == self@.path,
    {
        self.pathbuf.clone()
    }

    pub fn path_str(&self) -> (path: String)
        ensures
            path@ == self@.path,
    {
        self.pathbuf.clone()
    }

    pub fn set_name(&mut self, name: String)
        ensures
            final(self)@ == (PinView { name: name@, ..old(self)@ }),
    {
        self.name = name;
    }

    pub fn set_path(&mut self, pathbuf: String)
        ensures
            final(self)@ == (PinView { path: pathbuf@, ..old(self)@ }),
    {
        self.pathbuf = pathbuf;
    }
}

} // verus!
