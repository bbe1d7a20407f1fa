use touchhle_core::guest::RefOp;
use touchhle_core::uikit::ui_action_sheet::UIActionSheetHostObject;
use touchhle_core::uikit::ui_activity_indicator_view::UIActivityIndicatorViewHostObject;
use touchhle_core::uikit::ui_bar_button_item::{bar_system_item_title, UIBarButtonItemHostObject};
use touchhle_core::uikit::ui_date_picker::{DatePickerObjectProperty, UIDatePickerHostObject};
use touchhle_core::uikit::ui_gesture_recognizer::{
    UIGestureRecognizerHostObject, UIPanGestureRecognizerHostObject,
    UIPinchGestureRecognizerHostObject, UISwipeGestureRecognizerHostObject,
    UITapGestureRecognizerHostObject,
};
use touchhle_core::uikit::ns_layout_constraint::NSLayoutConstraintHostObject;
use touchhle_core::uikit::ui_navigation_bar::{UINavigationBarHostObject, UINavigationItemHostObject};
use touchhle_core::uikit::ui_page_control::UIPageControlHostObject;
use touchhle_core::uikit::ui_progress_view::UIProgressViewHostObject;
use touchhle_core::uikit::ui_scroll_view::UIScrollViewHostObject;
use touchhle_core::uikit::ui_search_bar::{SearchBarObjectProperty, UISearchBarHostObject};
use touchhle_core::uikit::ui_stepper::UIStepperHostObject;
use touchhle_core::uikit::ui_tab_bar::{system_item_title, UITabBarHostObject, UITabBarItemHostObject};
use touchhle_core::uikit::ui_tab_bar_controller::UITabBarControllerHostObject;
use touchhle_core::uikit::ui_table_view::{UITableViewCellHostObject, UITableViewHostObject};
use touchhle_core::uikit::ui_toolbar::UIToolbarHostObject;

#[test]
fn action_sheet_buttons_in_order_destructive_other_cancel() {
    let mut s = UIActionSheetHostObject::default();
    let ops = s.init_with_title(0x10, 0x20, 0x30, 0x40, 0x50);
    assert_eq!(
        ops,
        vec![RefOp::Retain(0x10), RefOp::Retain(0x40), RefOp::Retain(0x50), RefOp::Retain(0x30)]
    );
    assert_eq!(s.button_titles, vec![0x40, 0x50, 0x30]);
    assert_eq!(s.destructive_button_index, 0);
    assert_eq!(s.first_other_button_index, 1);
    assert_eq!(s.cancel_button_index, 2);
    assert_eq!(s.number_of_buttons(), 3);
    assert_eq!(s.button_title_at_index(1), 0x50);
    assert_eq!(s.button_title_at_index(3), 0);
    assert_eq!(s.button_title_at_index(-1), 0);
}

#[test]
fn action_sheet_without_destructive_button() {
    let mut s = UIActionSheetHostObject::default();
    s.init_with_title(0, 0x20, 0x30, 0, 0x50);
    assert_eq!(s.button_titles, vec![0x50, 0x30]);
    assert_eq!(s.destructive_button_index, -1);
    assert_eq!(s.first_other_button_index, 0);
    assert_eq!(s.cancel_button_index, 1);
    assert_eq!(s.title, 0);
}

#[test]
fn action_sheet_add_button() {
    let mut s = UIActionSheetHostObject::default();
    assert_eq!(s.add_button_with_title(0), (-1, vec![]));
    assert_eq!(s.add_button_with_title(0x11), (0, vec![RefOp::Retain(0x11)]));
    assert_eq!(s.add_button_with_title(0x12), (1, vec![RefOp::Retain(0x12)]));
    assert_eq!(s.button_title_at_index(1), 0x12);
    s.show_in_view();
    assert!(s.visible);
    s.dismiss();
    assert!(!s.visible);
    assert_eq!(s.set_title(0x99), vec![RefOp::Retain(0x99)]);
    assert_eq!(
        s.dealloc_releases(),
        vec![RefOp::Release(0x99), RefOp::Release(0x11), RefOp::Release(0x12)]
    );
}

#[test]
fn action_sheet_coder() {
    let mut s = UIActionSheetHostObject::default();
    let ops = s.init_with_coder(0x77, Some(2), Some(1), None);
    assert_eq!(ops, vec![RefOp::Retain(0x77)]);
    assert_eq!(s.title, 0x77);
    assert_eq!(s.action_sheet_style, 2);
    assert_eq!(s.cancel_button_index, 1);
    assert_eq!(s.destructive_button_index, -1);
}

#[test]
fn page_control_clamps_current_page() {
    let mut p = UIPageControlHostObject::default();
    p.set_current_page(3);
    assert_eq!(p.current_page, 0);
    p.set_number_of_pages(5);
    p.set_current_page(3);
    assert_eq!(p.current_page, 3);
    p.set_current_page(9);
    assert_eq!(p.current_page, 4);
    p.set_current_page(-2);
    assert_eq!(p.current_page, 0);
    p.set_current_page(4);
    p.set_number_of_pages(2);
    assert_eq!(p.current_page, 1);
    p.set_number_of_pages(0);
    assert_eq!(p.current_page, 0);
    p.set_number_of_pages(i32::MIN);
    assert_eq!(p.current_page, 0);
}

#[test]
fn page_control_coder_and_colors() {
    let mut p = UIPageControlHostObject::default();
    let ops = p.init_with_coder(Some(3), Some(2), Some(true), None, 0x5, 0);
    assert_eq!(ops, vec![RefOp::Retain(0x5)]);
    assert_eq!((p.number_of_pages, p.current_page, p.hides_for_single_page), (3, 2, true));
    assert_eq!(p.set_page_indicator_tint_color(0x6), vec![RefOp::Release(0x5), RefOp::Retain(0x6)]);
    assert_eq!(p.set_current_page_indicator_tint_color(0x7), vec![RefOp::Retain(0x7)]);
    assert_eq!(p.dealloc_releases(), vec![RefOp::Release(0x6), RefOp::Release(0x7)]);
}

#[test]
fn navigation_bar_stack() {
    let mut b = UINavigationBarHostObject::default();
    assert_eq!(b.top_item(), 0);
    assert_eq!(b.pop_navigation_item(), 0);
    assert_eq!(b.push_navigation_item(0), vec![]);
    assert_eq!(b.push_navigation_item(0xa), vec![RefOp::Retain(0xa)]);
    assert_eq!(b.back_item(), 0);
    b.push_navigation_item(0xb);
    assert_eq!(b.top_item(), 0xb);
    assert_eq!(b.back_item(), 0xa);
    assert_eq!(b.pop_navigation_item(), 0xb);
    assert_eq!(b.items, vec![0xa]);
    let ops = b.set_items(Some(vec![0xc, 0xd]));
    assert_eq!(ops, vec![RefOp::Release(0xa), RefOp::Retain(0xc), RefOp::Retain(0xd)]);
    assert_eq!(b.top_item(), 0xd);
    assert_eq!(b.set_items(None), vec![RefOp::Release(0xc), RefOp::Release(0xd)]);
    assert!(b.items.is_empty());
}

#[test]
fn navigation_bar_coder_and_dealloc() {
    let mut b = UINavigationBarHostObject::default();
    assert_eq!(b.init_with_coder(Some(1), Some(true), 0x3), vec![RefOp::Retain(0x3)]);
    assert_eq!((b.bar_style, b.translucent, b.tint_color), (1, true, 0x3));
    b.push_navigation_item(0xa);
    assert_eq!(b.dealloc_releases(), vec![RefOp::Release(0xa), RefOp::Release(0x3)]);
}

#[test]
fn navigation_item() {
    let mut i = UINavigationItemHostObject::default();
    assert_eq!(i.init_with_title(0x1), vec![RefOp::Retain(0x1)]);
    assert_eq!(
        i.init_with_coder(0, 0x2, 0x3, 0),
        vec![RefOp::Retain(0x2), RefOp::Retain(0x3)]
    );
    assert_eq!((i.title, i.title_view, i.left_bar_button_item), (0x1, 0x2, 0x3));
    assert_eq!(i.set_title(0x4), vec![RefOp::Release(0x1), RefOp::Retain(0x4)]);
    assert_eq!(i.set_back_bar_button_item(0x5), vec![RefOp::Retain(0x5)]);
    assert_eq!(
        i.dealloc_releases(),
        vec![RefOp::Release(0x4), RefOp::Release(0x2), RefOp::Release(0x3), RefOp::Release(0x5)]
    );
}

#[test]
fn tab_bar_controller_selection() {
    let mut c = UITabBarControllerHostObject::default();
    c.set_view_controllers(Some(vec![0x10, 0x20, 0x30]));
    assert_eq!(c.set_selected_index(1), vec![RefOp::Retain(0x20)]);
    assert_eq!(c.selected_view_controller, 0x20);
    assert_eq!(c.set_selected_index(1), vec![]);
    assert_eq!(c.set_selected_index(2), vec![RefOp::Release(0x20), RefOp::Retain(0x30)]);
    assert_eq!(c.set_selected_index(7), vec![]);
    assert_eq!(c.selected_index, 7);
    assert_eq!(c.selected_view_controller, 0x30);
    assert_eq!(c.adopt_tab_bar(0x99), vec![RefOp::Retain(0x99)]);
    assert_eq!(
        c.dealloc_releases(),
        vec![
            RefOp::Release(0x10),
            RefOp::Release(0x20),
            RefOp::Release(0x30),
            RefOp::Release(0x30),
            RefOp::Release(0x99)
        ]
    );
}

#[test]
fn tab_bar_controller_coder() {
    let mut c = UITabBarControllerHostObject::default();
    let ops = c.init_with_coder(Some(vec![0x1, 0x2]), Some(-1), 0x3);
    assert_eq!(ops, vec![RefOp::Retain(0x1), RefOp::Retain(0x2), RefOp::Retain(0x3)]);
    assert_eq!(c.selected_index, u32::MAX);
    assert_eq!(c.tab_bar, 0x3);
}

#[test]
fn tab_bar_items_and_titles() {
    assert_eq!(system_item_title(0), "More");
    assert_eq!(system_item_title(3), "Top Rated");
    assert_eq!(system_item_title(11), "Most Viewed");
    assert_eq!(system_item_title(12), "");
    let mut item = UITabBarItemHostObject::default();
    assert_eq!(item.init_with_tab_bar_system_item(8, 42), Some("Search"));
    assert_eq!((item.system_item, item.tag), (Some(8), 42));
    item.adopt_title(0x70);
    assert_eq!(item.title, 0x70);
    let mut item2 = UITabBarItemHostObject::default();
    assert_eq!(item2.init_with_tab_bar_system_item(-3, 1), None);
    assert_eq!(item2.title, 0);
    let mut item3 = UITabBarItemHostObject::default();
    assert_eq!(item3.init_with_title(0x1, 0, 5), vec![RefOp::Retain(0x1)]);
    assert_eq!(item3.init_with_coder(0, 0x2, 0x3, Some(9), Some(false)), vec![
        RefOp::Retain(0x2),
        RefOp::Retain(0x3)
    ]);
    assert_eq!((item3.tag, item3.enabled), (9, false));
    assert_eq!(
        item3.dealloc_releases(),
        vec![RefOp::Release(0x1), RefOp::Release(0x2), RefOp::Release(0x3)]
    );
}

#[test]
fn tab_bar() {
    let mut t = UITabBarHostObject::default();
    assert_eq!(
        t.init_with_coder(Some(vec![0x1]), 0x1, 0),
        vec![RefOp::Retain(0x1), RefOp::Retain(0x1)]
    );
    assert_eq!(t.set_items(Some(vec![0x2])), vec![RefOp::Release(0x1), RefOp::Retain(0x2)]);
    assert_eq!(t.set_selected_item(0x2), vec![RefOp::Release(0x1), RefOp::Retain(0x2)]);
    assert_eq!(t.set_tint_color(0x4), vec![RefOp::Retain(0x4)]);
    assert_eq!(
        t.dealloc_releases(),
        vec![RefOp::Release(0x2), RefOp::Release(0x2), RefOp::Release(0x4)]
    );
}

#[test]
fn toolbar_items() {
    let mut t = UIToolbarHostObject::default();
    let ops = t.init_with_coder(Some(2), None, 0x9, Some(vec![0x1, 0x2]));
    assert_eq!(ops, vec![RefOp::Retain(0x9), RefOp::Retain(0x1), RefOp::Retain(0x2)]);
    assert_eq!(t.items, vec![0x1, 0x2]);
    assert_eq!(
        t.set_items(Some(vec![0x3])),
        vec![RefOp::Release(0x1), RefOp::Release(0x2), RefOp::Retain(0x3)]
    );
    assert_eq!(t.set_tint_color(0), vec![RefOp::Release(0x9)]);
    assert_eq!(t.dealloc_releases(), vec![RefOp::Release(0x3)]);
}

#[test]
fn search_bar() {
    let mut s = UISearchBarHostObject::default();
    let ops = s.init_with_coder(Some(1), 0x1, 0, 0x3, 0, Some(true));
    assert_eq!(ops, vec![RefOp::Retain(0x1), RefOp::Retain(0x3)]);
    assert_eq!((s.bar_style, s.text, s.prompt, s.shows_cancel_button), (1, 0x1, 0x3, true));
    assert_eq!(
        s.set_object_property(SearchBarObjectProperty::Text, 0x5),
        vec![RefOp::Release(0x1), RefOp::Retain(0x5)]
    );
    assert_eq!(s.set_object_property(SearchBarObjectProperty::Placeholder, 0x6), vec![RefOp::Retain(0x6)]);
    assert_eq!(s.prompt, 0x3);
    assert_eq!(
        s.dealloc_releases(),
        vec![RefOp::Release(0x5), RefOp::Release(0x6), RefOp::Release(0x3)]
    );
}

#[test]
fn activity_indicator() {
    let mut a = UIActivityIndicatorViewHostObject::default();
    assert_eq!((a.style, a.animating, a.hides_when_stopped), (1, false, true));
    a.start_animating();
    assert!(a.animating);
    a.stop_animating();
    assert!(!a.animating);
    a.init_with_activity_indicator_style(2);
    a.init_with_coder(None, Some(false), Some(true));
    assert_eq!((a.style, a.animating, a.hides_when_stopped), (2, true, false));
}

#[test]
fn gesture_recognizers() {
    let mut g = UIGestureRecognizerHostObject::default();
    assert!(g.enabled && g.cancels_touches_in_view && !g.delays_touches_began && g.delays_touches_ended);
    g.add_target(0x10, 0);
    assert_eq!((g.target, g.action), (0x10, None));
    g.add_target(0x10, 0x44);
    assert_eq!(g.action, Some(0x44));
    g.remove_target();
    assert_eq!((g.target, g.action), (0, None));
    g.init_with_coder(Some(false), None, Some(true), None);
    assert!(!g.enabled && g.delays_touches_began && g.delays_touches_ended);

    let mut tap = UITapGestureRecognizerHostObject::default();
    assert_eq!((tap.number_of_taps_required, tap.number_of_touches_required), (1, 1));
    tap.init_with_coder(Some(2), None);
    assert_eq!(tap.number_of_taps_required, 2);
    let mut swipe = UISwipeGestureRecognizerHostObject::default();
    assert_eq!(swipe.direction, 1);
    swipe.init_with_coder(Some(4), Some(2));
    assert_eq!((swipe.direction, swipe.number_of_touches_required), (4, 2));
    let mut pan = UIPanGestureRecognizerHostObject::default();
    assert_eq!((pan.minimum_number_of_touches, pan.maximum_number_of_touches), (1, i32::MAX));
    pan.init_with_coder(None, Some(3));
    assert_eq!(pan.maximum_number_of_touches, 3);
    let pinch = UIPinchGestureRecognizerHostObject::default();
    assert_eq!(f32::from_bits(pinch.scale_bits), 1.0);
    assert_eq!(f32::from_bits(pinch.velocity_bits), 0.0);
}

#[test]
fn scroll_view_coder() {
    let mut s = UIScrollViewHostObject::default();
    assert!(s.scroll_enabled);
    let size = (320.0f32.to_bits(), 960.0f32.to_bits());
    assert!(!s.init_with_coder(Some(size), None, true));
    assert_eq!(s.content_size_bits, size);
    assert!(!s.scroll_enabled);
    let offset = (0.0f32.to_bits(), 100.0f32.to_bits());
    assert!(s.init_with_coder(None, Some(offset), false));
    assert_eq!(s.content_offset_bits, offset);
    assert!(s.scroll_enabled);
}

#[test]
fn table_view_and_cell() {
    let mut t = UITableViewHostObject::default();
    assert_eq!(f32::from_bits(t.row_height_bits), 44.0);
    assert_eq!(t.set_data_source(0x1), vec![RefOp::Retain(0x1)]);
    assert_eq!(t.set_data_source(0x2), vec![RefOp::Retain(0x2), RefOp::Release(0x1)]);
    assert_eq!(t.set_delegate(0x3), vec![RefOp::Retain(0x3)]);
    assert_eq!(t.dequeue_reusable_cell(0x9), 0);
    t.init_with_style(1);
    assert_eq!(t.style, 1);
    assert_eq!(t.dealloc_releases(), vec![RefOp::Release(0x2), RefOp::Release(0x3)]);

    let mut c = UITableViewCellHostObject::default();
    assert_eq!(c.init_with_style(3, 0x8), vec![RefOp::Retain(0x8)]);
    c.adopt_subviews(0x20, 0x21);
    c.set_accessory_type(1);
    assert_eq!((c.style, c.reuse_identifier, c.content_view, c.text_label, c.accessory_type), (3, 0x8, 0x20, 0x21, 1));
    assert_eq!(
        c.dealloc_releases(),
        vec![RefOp::Release(0x21), RefOp::Release(0x20), RefOp::Release(0x8)]
    );
}

#[test]
fn bar_button_item() {
    assert_eq!(bar_system_item_title(0), "Done");
    assert_eq!(bar_system_item_title(4), "+");
    assert_eq!(bar_system_item_title(5), "");
    assert_eq!(bar_system_item_title(21), "Undo");
    assert_eq!(bar_system_item_title(22), "Redo");
    let mut b = UIBarButtonItemHostObject::default();
    assert_eq!(b.init_with_bar_button_system_item(1, 0x5, 0x6), Some("Cancel"));
    assert_eq!((b.system_item, b.target, b.action()), (Some(1), 0x5, 0x6));
    let mut b2 = UIBarButtonItemHostObject::default();
    assert_eq!(b2.init_with_bar_button_system_item(5, 0x5, 0), None);
    assert_eq!(b2.action, None);
    assert_eq!(b2.action(), 0);
    assert_eq!(b2.init_with_title(0x7, 2, 0x5, 0x9), vec![RefOp::Retain(0x7)]);
    assert_eq!((b2.title, b2.style, b2.action), (0x7, 2, Some(0x9)));
    let ops = b2.init_with_coder(0, 0x8, 0, None, Some(30.0f32.to_bits()), Some(false));
    assert_eq!(ops, vec![RefOp::Retain(0x8)]);
    assert_eq!(f32::from_bits(b2.width_bits), 30.0);
    assert!(!b2.enabled);
    assert_eq!(
        b2.dealloc_releases(),
        vec![RefOp::Release(0x7), RefOp::Release(0x8)]
    );
}

#[test]
fn layout_constraint_coder() {
    let mut c = NSLayoutConstraintHostObject::default();
    assert_eq!(f32::from_bits(c.priority_bits), 1000.0);
    assert_eq!(f32::from_bits(c.multiplier_bits), 1.0);
    c.init_with_coder(0x1, Some(7), Some(-1), 0, None, None, Some(8.0f32.to_bits()), None);
    assert_eq!((c.first_item, c.first_attribute, c.relation, c.second_item), (0x1, 7, -1, 0));
    assert_eq!(f32::from_bits(c.constant_bits), 8.0);
    assert_eq!(f32::from_bits(c.priority_bits), 1000.0);
}

#[test]
fn date_picker() {
    let mut d = UIDatePickerHostObject::default();
    assert_eq!((d.date_picker_mode, d.minute_interval), (2, 1));
    let (ops, needs_date) = d.init_with_coder(Some(1), 0, 0x5, 0, Some(15));
    assert_eq!(ops, vec![RefOp::Retain(0x5)]);
    assert!(needs_date);
    assert_eq!(d.adopt_current_date(0x9), vec![RefOp::Retain(0x9)]);
    assert_eq!(
        d.set_object_property(DatePickerObjectProperty::Date, 0xa),
        vec![RefOp::Release(0x9), RefOp::Retain(0xa)]
    );
    assert_eq!((d.date, d.minimum_date, d.minute_interval), (0xa, 0x5, 15));
    assert_eq!(d.dealloc_releases(), vec![RefOp::Release(0xa), RefOp::Release(0x5)]);
}

#[test]
fn progress_view_and_stepper() {
    let mut p = UIProgressViewHostObject::default();
    p.init_with_progress_view_style(1);
    assert_eq!(p.init_with_coder(None, Some(0.5f32.to_bits()), 0x1, 0), vec![RefOp::Retain(0x1)]);
    assert_eq!((p.style, f32::from_bits(p.progress_bits)), (1, 0.5));
    assert_eq!(p.set_track_tint_color(0x2), vec![RefOp::Retain(0x2)]);
    assert_eq!(p.dealloc_releases(), vec![RefOp::Release(0x1), RefOp::Release(0x2)]);

    let mut s = UIStepperHostObject::default();
    assert_eq!(f64::from_bits(s.maximum_value_bits), 100.0);
    assert_eq!(f64::from_bits(s.step_value_bits), 1.0);
    let ops = s.init_with_coder(Some(5.0f64.to_bits()), None, None, None, None, None, Some(true), 0x3);
    assert_eq!(ops, vec![RefOp::Retain(0x3)]);
    assert_eq!(f64::from_bits(s.value_bits), 5.0);
    assert!(s.wraps);
    assert_eq!(s.set_tint_color(0), vec![RefOp::Release(0x3)]);
    assert_eq!(s.dealloc_releases(), vec![]);
}
