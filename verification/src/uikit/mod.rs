//! Host-side state of UIKit classes and the logic of their methods.

pub mod ns_layout_constraint;
pub mod ui_action_sheet;
pub mod ui_activity_indicator_view;
pub mod ui_bar_button_item;
pub mod ui_date_picker;
pub mod ui_gesture_recognizer;
pub mod ui_navigation_bar;
pub mod ui_page_control;
pub mod ui_progress_view;
pub mod ui_scroll_view;
pub mod ui_search_bar;
pub mod ui_stepper;
pub mod ui_tab_bar;
pub mod ui_tab_bar_controller;
pub mod ui_table_view;
pub mod ui_toolbar;
