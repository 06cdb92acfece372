//! The demo panel as a whole.

use vstd::prelude::*;
use vstd::std_specs::cmp::PartialEqSpecImpl;
use crate::settings::ContextMenusData;

verus! {

/// The demo panel. It owns the settings of its plot; whoever draws the panel
/// borrows them for the length of one frame.
#[derive(Clone, Copy, Debug)]
pub struct ContextMenus {
    pub data: ContextMenusData,
}

impl ContextMenus {
    /// The title of the panel's window.
    pub fn name(&self) -> (title: &'static str)
        ensures
            title@ == "☰ Context Menus"@,
    {
        "☰ Context Menus"
    }
}

impl Default for ContextMenus {
    fn default() -> (demo: ContextMenus)
        ensures
            demo.data == ContextMenusData::initial(),
    {
        ContextMenus { data: ContextMenusData::default() }
    }
}

impl PartialEq for ContextMenus {
    fn eq(&self, other: &Self) -> (r: bool) {
        self.data == other.data
    }
}

impl PartialEqSpecImpl for ContextMenus {
    open spec fn obeys_eq_spec() -> bool {
        true
    }

    open spec fn eq_spec(&self, other: &ContextMenus) -> bool {
        self.data.same_settings(other.data)
    }
}

} // verus!
