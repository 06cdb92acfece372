//! The nested menus of the demo: a fixed tree of buttons and submenus, shown
//! both by a menu button and as a context menu.

use vstd::prelude::*;
use crate::settings::MenuAction;

verus! {

/// One line of a menu.
#[derive(Debug)]
pub enum MenuEntry {
    /// A button. `closes` says whether a click on it closes the menu.
    Button { label: &'static str, closes: bool },
    /// A button that opens a further menu.
    SubMenu { label: &'static str, entries: Vec<MenuEntry> },
}

/// What a menu entry is, as a value of mathematics.
pub enum MenuNode {
    /// A button with its text, and whether a click on it closes the menu.
    Button { label: Seq<char>, closes: bool },
    /// A submenu with its text and its entries, from top to bottom.
    SubMenu { label: Seq<char>, entries: Seq<MenuNode> },
}

impl View for MenuEntry {
    type V = MenuNode;

    open spec fn view(&self) -> MenuNode
        decreases self,
    {
        match self {
            MenuEntry::Button { label, closes } => MenuNode::Button {
                label: label@,
                closes: *closes,
            },
            MenuEntry::SubMenu { label, entries } => MenuNode::SubMenu {
                label: label@,
                entries: Seq::new(
                    entries@.len(),
                    |i: int|
                        if 0 <= i < entries@.len() {
                            entries@[i]@
                        } else {
                            arbitrary()
                        },
                ),
            },
        }
    }
}

/// The entries of a menu, each as a value of mathematics.
pub open spec fn nodes(entries: Seq<MenuEntry>) -> Seq<MenuNode> {
    Seq::new(entries.len(), |i: int| entries[i]@)
}

/// A button that closes the menu.
pub open spec fn closing(label: &str) -> MenuNode {
    MenuNode::Button { label: label@, closes: true }
}

/// A button that leaves the menu open.
pub open spec fn plain(label: &str) -> MenuNode {
    MenuNode::Button { label: label@, closes: false }
}

/// A submenu with the given entries.
pub open spec fn submenu(label: &str, entries: Seq<MenuNode>) -> MenuNode {
    MenuNode::SubMenu { label: label@, entries }
}

/// The tree of the nested menus.
pub open spec fn nested_layout() -> Seq<MenuNode> {
    seq![
        closing("Open..."),
        submenu(
            "SubMenu",
            seq![
                submenu("SubMenu", seq![closing("Open..."), plain("Item")]),
                submenu("SubMenu", seq![closing("Open..."), plain("Item")]),
                plain("Item"),
                closing("Open..."),
            ],
        ),
        submenu(
            "SubMenu",
            seq![
                plain("Item1"),
                plain("Item2"),
                plain("Item3"),
                plain("Item4"),
                closing("Open..."),
            ],
        ),
        plain("Very long text for this item"),
    ]
}

impl MenuNode {
    /// What a click on the entry does to the menu: a closing button closes it,
    /// any other entry leaves it open.
    pub open spec fn action(self) -> MenuAction {
        match self {
            MenuNode::Button { closes: true, .. } => MenuAction::Close,
            _ => MenuAction::KeepOpen,
        }
    }
}

impl MenuEntry {
    /// What the menu does after a click on this entry.
    pub fn activated(&self) -> (action: MenuAction)
        ensures
            action == self@.action(),
            action is Close <==> (self matches MenuEntry::Button { closes, .. } && *closes),
    {
        match self {
            MenuEntry::Button { closes: true, .. } => MenuAction::Close,
            _ => MenuAction::KeepOpen,
        }
    }
}

/// Builds a submenu that holds a closing "Open..." and a plain "Item".
fn leaf_menu() -> (entry: MenuEntry)
    ensures
        entry@ == submenu("SubMenu", seq![closing("Open..."), plain("Item")]),
{
    let mut entries: Vec<MenuEntry> = Vec::new();
    entries.push(MenuEntry::Button { label: "Open...", closes: true });
    entries.push(MenuEntry::Button { label: "Item", closes: false });
    assert(entries@[0]@ == closing("Open..."));
    assert(entries@[1]@ == plain("Item"));
    let entry = MenuEntry::SubMenu { label: "SubMenu", entries };
    assert(entry@->SubMenu_entries =~= seq![closing("Open..."), plain("Item")]);
    entry
}

/// The nested menus, from top to bottom.
pub fn nested_menus() -> (menu: Vec<MenuEntry>)
    ensures
        nodes(menu@) == nested_layout(),
{
    let mut first: Vec<MenuEntry> = Vec::new();
    first.push(leaf_menu());
    first.push(leaf_menu());
    first.push(MenuEntry::Button { label: "Item", closes: false });
    first.push(MenuEntry::Button { label: "Open...", closes: true });
    assert(first@[2]@ == plain("Item"));
    assert(first@[3]@ == closing("Open..."));
    let first = MenuEntry::SubMenu { label: "SubMenu", entries: first };
    assert(first@->SubMenu_entries =~= seq![
        submenu("SubMenu", seq![closing("Open..."), plain("Item")]),
        submenu("SubMenu", seq![closing("Open..."), plain("Item")]),
        plain("Item"),
        closing("Open..."),
    ]);

    let mut second: Vec<MenuEntry> = Vec::new();
    second.push(MenuEntry::Button { label: "Item1", closes: false });
    second.push(MenuEntry::Button { label: "Item2", closes: false });
    second.push(MenuEntry::Button { label: "Item3", closes: false });
    second.push(MenuEntry::Button { label: "Item4", closes: false });
    second.push(MenuEntry::Button { label: "Open...", closes: true });
    assert(second@[0]@ == plain("Item1"));
    assert(second@[1]@ == plain("Item2"));
    assert(second@[2]@ == plain("Item3"));
    assert(second@[3]@ == plain("Item4"));
    assert(second@[4]@ == closing("Open..."));
    let second = MenuEntry::SubMenu { label: "SubMenu", entries: second };
    assert(second@->SubMenu_entries =~= seq![
        plain("Item1"),
        plain("Item2"),
        plain("Item3"),
        plain("Item4"),
        closing("Open..."),
    ]);

    let mut menu: Vec<MenuEntry> = Vec::new();
    menu.push(MenuEntry::Button { label: "Open...", closes: true });
    menu.push(first);
    menu.push(second);
    menu.push(MenuEntry::Button { label: "Very long text for this item", closes: false });
    assert(menu@[0]@ == closing("Open..."));
    assert(menu@[3]@ == plain("Very long text for this item"));
    assert(nodes(menu@) =~= nested_layout());
    menu
}

} // verus!
