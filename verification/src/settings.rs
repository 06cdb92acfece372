//! The plot's settings, and how the controls of its context menu change them.

use vstd::prelude::*;
use vstd::arithmetic::power2::{lemma2_to64, lemma_pow2_adds, pow2};
use vstd::std_specs::cmp::PartialEqSpecImpl;
use crate::pixels::Pixels;
use crate::plot::Plot;

verus! {

/// The bit pattern of 400, the width of a new plot.
pub const DEFAULT_WIDTH: u32 = 0x43c8_0000;

/// The bit pattern of 200, the height of a new plot.
pub const DEFAULT_HEIGHT: u32 = 0x4348_0000;

/// What the demo window should do with the menu after a control was used.
#[derive(Clone, Copy, Debug, PartialEq, Eq, Structural)]
pub enum MenuAction {
    /// Close the menu, with all the menus it is nested in.
    Close,
    /// Leave the menu open.
    KeepOpen,
}

/// The check boxes of the settings menu.
#[derive(Clone, Copy, Debug, PartialEq, Eq, Structural)]
pub enum Flag {
    /// Show the horizontal axis.
    XAxis,
    /// Show the vertical axis.
    YAxis,
    /// Let the user drag the plot.
    Drag,
    /// Let the user zoom the plot.
    Zoom,
    /// Let the user scroll the plot.
    Scroll,
}

impl Flag {
    /// The boxes that say what the user may do with the plot, as opposed to
    /// those that say what is drawn.
    pub open spec fn is_permission(self) -> bool {
        self is Drag || self is Zoom || self is Scroll
    }
}

/// One use of a control of the settings menu.
#[derive(Clone, Copy, Debug)]
pub enum MenuEvent {
    /// A radio button of the curve group was clicked.
    Select(Plot),
    /// The width field was dragged to a new value.
    SetWidth(Pixels),
    /// The height field was dragged to a new value.
    SetHeight(Pixels),
    /// A check box was clicked.
    Toggle(Flag),
}

impl MenuEvent {
    /// Whether the menu closes once the event has been applied: it does when a
    /// curve is picked and when a permission is switched, and stays open while
    /// the size or the axes are edited.
    pub open spec fn action(self) -> MenuAction {
        match self {
            MenuEvent::Select(_) => MenuAction::Close,
            MenuEvent::SetWidth(_) => MenuAction::KeepOpen,
            MenuEvent::SetHeight(_) => MenuAction::KeepOpen,
            MenuEvent::Toggle(flag) => if flag.is_permission() {
                MenuAction::Close
            } else {
                MenuAction::KeepOpen
            },
        }
    }
}

/// The settings of the plot.
#[derive(Clone, Copy, Debug)]
pub struct ContextMenusData {
    /// The curve shown.
    pub plot: Plot,
    /// Whether the horizontal and the vertical axis are drawn, in this order.
    pub show_axes: [bool; 2],
    /// Whether the user may drag the plot.
    pub allow_drag: bool,
    /// Whether the user may zoom the plot.
    pub allow_zoom: bool,
    /// Whether the user may scroll the plot.
    pub allow_scroll: bool,
    /// Whether the horizontal axis is kept in the middle of the plot.
    pub center_x_axis: bool,
    /// Whether the vertical axis is kept in the middle of the plot.
    pub center_y_axis: bool,
    /// The width of the plot. A plot looks right only with a positive width,
    /// but any number is stored as it comes.
    pub width: Pixels,
    /// The height of the plot, stored as it comes like the width.
    pub height: Pixels,
}

impl ContextMenusData {
    /// The settings of a new plot: a sine wave with both axes drawn, which the
    /// user may drag, zoom and scroll, no axis centred, 400 by 200 pixels.
    pub open spec fn initial() -> ContextMenusData {
        ContextMenusData {
            plot: Plot::Sin,
            show_axes: [true, true],
            allow_drag: true,
            allow_zoom: true,
            allow_scroll: true,
            center_x_axis: false,
            center_y_axis: false,
            width: Pixels { bits: DEFAULT_WIDTH },
            height: Pixels { bits: DEFAULT_HEIGHT },
        }
    }

    /// The settings after `event`: the one field that the control is bound to
    /// has changed, a check box to the opposite of what it was.
    pub open spec fn after(self, event: MenuEvent) -> ContextMenusData {
        match event {
            MenuEvent::Select(plot) => ContextMenusData { plot, ..self },
            MenuEvent::SetWidth(width) => ContextMenusData { width, ..self },
            MenuEvent::SetHeight(height) => ContextMenusData { height, ..self },
            MenuEvent::Toggle(Flag::XAxis) => ContextMenusData {
                show_axes: [!self.show_axes[0], self.show_axes[1]],
                ..self
            },
            MenuEvent::Toggle(Flag::YAxis) => ContextMenusData {
                show_axes: [self.show_axes[0], !self.show_axes[1]],
                ..self
            },
            MenuEvent::Toggle(Flag::Drag) => ContextMenusData {
                allow_drag: !self.allow_drag,
                ..self
            },
            MenuEvent::Toggle(Flag::Zoom) => ContextMenusData {
                allow_zoom: !self.allow_zoom,
                ..self
            },
            MenuEvent::Toggle(Flag::Scroll) => ContextMenusData {
                allow_scroll: !self.allow_scroll,
                ..self
            },
        }
    }

    /// Every field of `self` equals that of `other`, the sizes as numbers.
    pub open spec fn same_settings(self, other: ContextMenusData) -> bool {
        &&& self.plot == other.plot
        &&& self.show_axes[0] == other.show_axes[0]
        &&& self.show_axes[1] == other.show_axes[1]
        &&& self.allow_drag == other.allow_drag
        &&& self.allow_zoom == other.allow_zoom
        &&& self.allow_scroll == other.allow_scroll
        &&& self.center_x_axis == other.center_x_axis
        &&& self.center_y_axis == other.center_y_axis
        &&& self.width.same_number(other.width)
        &&& self.height.same_number(other.height)
    }

    /// Applies one use of a control to the settings, and says what becomes of
    /// the menu.
    pub fn apply(&mut self, event: MenuEvent) -> (action: MenuAction)
        ensures
            *final(self) == old(self).after(event),
            action == event.action(),
            event is Select ==> action is Close,
            event matches MenuEvent::Toggle(flag) ==> (action is Close <==> flag.is_permission()),
            (event is SetWidth || event is SetHeight) ==> action is KeepOpen,
    {
        match event {
            MenuEvent::Select(plot) => {
                self.plot = plot;
                MenuAction::Close
            },
            MenuEvent::SetWidth(width) => {
                self.width = width;
                MenuAction::KeepOpen
            },
            MenuEvent::SetHeight(height) => {
                self.height = height;
                MenuAction::KeepOpen
            },
            MenuEvent::Toggle(Flag::XAxis) => {
                self.show_axes = [!self.show_axes[0], self.show_axes[1]];
                MenuAction::KeepOpen
            },
            MenuEvent::Toggle(Flag::YAxis) => {
                self.show_axes = [self.show_axes[0], !self.show_axes[1]];
                MenuAction::KeepOpen
            },
            MenuEvent::Toggle(Flag::Drag) => {
                self.allow_drag = !self.allow_drag;
                MenuAction::Close
            },
            MenuEvent::Toggle(Flag::Zoom) => {
                self.allow_zoom = !self.allow_zoom;
                MenuAction::Close
            },
            MenuEvent::Toggle(Flag::Scroll) => {
                self.allow_scroll = !self.allow_scroll;
                MenuAction::Close
            },
        }
    }
}

impl Default for ContextMenusData {
    fn default() -> (data: ContextMenusData)
        ensures
            data == ContextMenusData::initial(),
            data.same_settings(ContextMenusData::initial()),
            data.width.is_integer(400),
            data.height.is_integer(200),
    {
        let data = ContextMenusData {
            plot: Plot::Sin,
            show_axes: [true, true],
            allow_drag: true,
            allow_zoom: true,
            allow_scroll: true,
            center_x_axis: false,
            center_y_axis: false,
            width: Pixels { bits: DEFAULT_WIDTH },
            height: Pixels { bits: DEFAULT_HEIGHT },
        };
        proof {
            lemma_default_size();
        }
        data
    }
}

/// The two default patterns are the numbers 400 and 200.
pub proof fn lemma_default_size()
    ensures
        (Pixels { bits: DEFAULT_WIDTH }).is_integer(400),
        (Pixels { bits: DEFAULT_HEIGHT }).is_integer(200),
{
    let w = Pixels { bits: DEFAULT_WIDTH };
    let h = Pixels { bits: DEFAULT_HEIGHT };
    lemma2_to64();
    lemma_pow2_adds(135, 15);
    lemma_pow2_adds(134, 16);
    assert(w.exponent() == 135 && w.fraction() == 0x48_0000);
    assert(h.exponent() == 134 && h.fraction() == 0x48_0000);
    assert(0xc8_0000 * pow2(135) == 400 * (pow2(135) * 0x8000)) by (nonlinear_arith);
    assert(0xc8_0000 * pow2(134) == 200 * (pow2(134) * 0x1_0000)) by (nonlinear_arith);
}

/// Two sets of settings that were both made as the default compare equal.
pub proof fn lemma_defaults_equal(a: ContextMenusData, b: ContextMenusData)
    requires
        a == ContextMenusData::initial(),
        b == ContextMenusData::initial(),
    ensures
        a.same_settings(b),
{
}

/// Settings equal themselves unless one of their sizes is not a number.
pub proof fn lemma_same_settings_reflexive(a: ContextMenusData)
    ensures
        a.same_settings(a) <==> !a.width.is_nan() && !a.height.is_nan(),
{
}

/// Equality of settings does not depend on the order of the two sides.
pub proof fn lemma_same_settings_symmetric(a: ContextMenusData, b: ContextMenusData)
    ensures
        a.same_settings(b) == b.same_settings(a),
{
}

/// Two sets of settings that equal a third one equal each other.
pub proof fn lemma_same_settings_transitive(
    a: ContextMenusData,
    b: ContextMenusData,
    c: ContextMenusData,
)
    requires
        a.same_settings(b),
        b.same_settings(c),
    ensures
        a.same_settings(c),
{
}

/// A second click on a check box undoes the first.
pub proof fn lemma_toggle_twice(a: ContextMenusData, flag: Flag)
    ensures
        a.after(MenuEvent::Toggle(flag)).after(MenuEvent::Toggle(flag)) == a,
{
    let twice = a.after(MenuEvent::Toggle(flag)).after(MenuEvent::Toggle(flag));
    assert(twice.show_axes =~= a.show_axes);
}

/// An event leaves alone every field but the one its control is bound to.
pub proof fn lemma_event_is_local(a: ContextMenusData, event: MenuEvent)
    ensures
        !(event is Select) ==> a.after(event).plot == a.plot,
        !(event is SetWidth) ==> a.after(event).width == a.width,
        !(event is SetHeight) ==> a.after(event).height == a.height,
        event != MenuEvent::Toggle(Flag::XAxis) ==> a.after(event).show_axes[0] == a.show_axes[0],
        event != MenuEvent::Toggle(Flag::YAxis) ==> a.after(event).show_axes[1] == a.show_axes[1],
        event != MenuEvent::Toggle(Flag::Drag) ==> a.after(event).allow_drag == a.allow_drag,
        event != MenuEvent::Toggle(Flag::Zoom) ==> a.after(event).allow_zoom == a.allow_zoom,
        event != MenuEvent::Toggle(Flag::Scroll) ==> a.after(event).allow_scroll == a.allow_scroll,
        a.after(event).center_x_axis == a.center_x_axis,
        a.after(event).center_y_axis == a.center_y_axis,
{
}

/// Whether the menu closes depends on the control alone: picking a curve and
/// switching a permission close it, the axes and the sizes do not.
pub proof fn lemma_closing_controls(event: MenuEvent)
    ensures
        event.action() is Close <==> event is Select || event == MenuEvent::Toggle(Flag::Drag)
            || event == MenuEvent::Toggle(Flag::Zoom) || event == MenuEvent::Toggle(Flag::Scroll),
{
}

impl PartialEq for ContextMenusData {
    fn eq(&self, other: &Self) -> (r: bool) {
        self.plot == other.plot
            && self.show_axes[0] == other.show_axes[0]
            && self.show_axes[1] == other.show_axes[1]
            && self.allow_drag == other.allow_drag
            && self.allow_zoom == other.allow_zoom
            && self.allow_scroll == other.allow_scroll
            && self.center_x_axis == other.center_x_axis
            && self.center_y_axis == other.center_y_axis
            && self.width == other.width
            && self.height == other.height
    }
}

impl PartialEqSpecImpl for ContextMenusData {
    open spec fn obeys_eq_spec() -> bool {
        true
    }

    open spec fn eq_spec(&self, other: &ContextMenusData) -> bool {
        self.same_settings(*other)
    }
}

} // verus!
