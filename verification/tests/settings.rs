use context_menus::settings::{DEFAULT_HEIGHT, DEFAULT_WIDTH};
use context_menus::{ContextMenus, ContextMenusData, Flag, MenuAction, MenuEvent, Pixels, Plot};

fn pixels(value: f32) -> Pixels {
    Pixels { bits: value.to_bits() }
}

#[test]
fn default_settings_snapshot() {
    let data = ContextMenusData::default();
    assert_eq!(data.plot, Plot::Sin);
    assert_eq!(data.show_axes, [true, true]);
    assert!(data.allow_drag);
    assert!(data.allow_zoom);
    assert!(data.allow_scroll);
    assert!(!data.center_x_axis);
    assert!(!data.center_y_axis);
    assert_eq!(f32::from_bits(data.width.bits), 400.0);
    assert_eq!(f32::from_bits(data.height.bits), 200.0);
}

#[test]
fn default_size_constants_are_400_and_200() {
    assert_eq!(DEFAULT_WIDTH, 400.0f32.to_bits());
    assert_eq!(DEFAULT_HEIGHT, 200.0f32.to_bits());
    assert_eq!(DEFAULT_WIDTH, 0x43c8_0000);
    assert_eq!(DEFAULT_HEIGHT, 0x4348_0000);
}

#[test]
fn two_defaults_compare_equal() {
    let a = ContextMenusData::default();
    let b = ContextMenusData::default();
    assert!(a == b);
    assert!(b == a);
    assert_eq!(a.plot, b.plot);
    assert_eq!(a.show_axes, b.show_axes);
    assert_eq!(a.allow_drag, b.allow_drag);
    assert_eq!(a.allow_zoom, b.allow_zoom);
    assert_eq!(a.allow_scroll, b.allow_scroll);
    assert_eq!(a.center_x_axis, b.center_x_axis);
    assert_eq!(a.center_y_axis, b.center_y_axis);
    assert_eq!(a.width.bits, b.width.bits);
    assert_eq!(a.height.bits, b.height.bits);
}

#[test]
fn two_default_demos_compare_equal() {
    let a = ContextMenus::default();
    let b = ContextMenus::default();
    assert!(a == b);
    assert!(a.data == ContextMenusData::default());
}

#[test]
fn demos_differ_when_their_settings_differ() {
    let a = ContextMenus::default();
    let mut b = ContextMenus::default();
    b.data.apply(MenuEvent::Toggle(Flag::XAxis));
    assert!(a != b);
    b.data.apply(MenuEvent::Toggle(Flag::XAxis));
    assert!(a == b);
}

#[test]
fn demo_name() {
    assert_eq!(ContextMenus::default().name(), "\u{2630} Context Menus");
}

#[test]
fn toggling_drag_closes_the_menu() {
    let mut data = ContextMenusData::default();
    assert_eq!(data.apply(MenuEvent::Toggle(Flag::Drag)), MenuAction::Close);
    assert!(!data.allow_drag);
    assert!(data.allow_zoom);
    assert!(data.allow_scroll);
    assert_eq!(data.show_axes, [true, true]);
}

#[test]
fn toggling_zoom_closes_the_menu() {
    let mut data = ContextMenusData::default();
    assert_eq!(data.apply(MenuEvent::Toggle(Flag::Zoom)), MenuAction::Close);
    assert!(data.allow_drag);
    assert!(!data.allow_zoom);
    assert!(data.allow_scroll);
}

#[test]
fn toggling_scroll_closes_the_menu() {
    let mut data = ContextMenusData::default();
    assert_eq!(data.apply(MenuEvent::Toggle(Flag::Scroll)), MenuAction::Close);
    assert!(data.allow_drag);
    assert!(data.allow_zoom);
    assert!(!data.allow_scroll);
}

#[test]
fn toggling_an_axis_keeps_the_menu_open() {
    let mut data = ContextMenusData::default();
    assert_eq!(data.apply(MenuEvent::Toggle(Flag::XAxis)), MenuAction::KeepOpen);
    assert_eq!(data.show_axes, [false, true]);
    assert_eq!(data.apply(MenuEvent::Toggle(Flag::YAxis)), MenuAction::KeepOpen);
    assert_eq!(data.show_axes, [false, false]);
    assert!(data.allow_drag && data.allow_zoom && data.allow_scroll);
}

#[test]
fn toggling_twice_restores_the_settings() {
    let flags = [Flag::XAxis, Flag::YAxis, Flag::Drag, Flag::Zoom, Flag::Scroll];
    for flag in flags {
        let mut data = ContextMenusData::default();
        data.apply(MenuEvent::Toggle(flag));
        assert!(data != ContextMenusData::default());
        data.apply(MenuEvent::Toggle(flag));
        assert!(data == ContextMenusData::default());
    }
}

#[test]
fn selecting_a_curve_closes_the_menu() {
    for plot in [Plot::Sin, Plot::Bell, Plot::Sigmoid] {
        let mut data = ContextMenusData::default();
        assert_eq!(data.apply(MenuEvent::Select(plot)), MenuAction::Close);
        assert_eq!(data.plot, plot);
        assert_eq!(data.show_axes, [true, true]);
        assert!(data.allow_drag && data.allow_zoom && data.allow_scroll);
    }
}

#[test]
fn selecting_the_current_curve_closes_the_menu_too() {
    let mut data = ContextMenusData::default();
    assert_eq!(data.apply(MenuEvent::Select(Plot::Sin)), MenuAction::Close);
    assert!(data == ContextMenusData::default());
}

#[test]
fn editing_the_size_keeps_the_menu_open() {
    let mut data = ContextMenusData::default();
    assert_eq!(data.apply(MenuEvent::SetWidth(pixels(123.5))), MenuAction::KeepOpen);
    assert_eq!(f32::from_bits(data.width.bits), 123.5);
    assert_eq!(f32::from_bits(data.height.bits), 200.0);
    assert_eq!(data.apply(MenuEvent::SetHeight(pixels(77.0))), MenuAction::KeepOpen);
    assert_eq!(f32::from_bits(data.width.bits), 123.5);
    assert_eq!(f32::from_bits(data.height.bits), 77.0);
    assert_eq!(data.plot, Plot::Sin);
}

#[test]
fn settings_differ_in_each_single_field() {
    let base = ContextMenusData::default();
    let mut other = base;
    other.plot = Plot::Sigmoid;
    assert!(base != other);
    let mut other = base;
    other.show_axes = [true, false];
    assert!(base != other);
    let mut other = base;
    other.show_axes = [false, true];
    assert!(base != other);
    let mut other = base;
    other.allow_drag = false;
    assert!(base != other);
    let mut other = base;
    other.allow_zoom = false;
    assert!(base != other);
    let mut other = base;
    other.allow_scroll = false;
    assert!(base != other);
    let mut other = base;
    other.center_x_axis = true;
    assert!(base != other);
    let mut other = base;
    other.center_y_axis = true;
    assert!(base != other);
    let mut other = base;
    other.width = pixels(401.0);
    assert!(base != other);
    let mut other = base;
    other.height = pixels(201.0);
    assert!(base != other);
}

#[test]
fn settings_compare_sizes_as_numbers() {
    let mut a = ContextMenusData::default();
    let mut b = ContextMenusData::default();
    a.width = pixels(0.0);
    b.width = pixels(-0.0);
    assert!(a == b);
    a.height = pixels(f32::NAN);
    assert!(a != a);
    assert!(a != b);
}
