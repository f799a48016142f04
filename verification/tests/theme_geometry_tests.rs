use wcpopup::builder::MenuBuilder;
use wcpopup::config::{Corner, MenuSize, Theme, default_dark_color_scheme};
use wcpopup::geometry::{
    arrow_origin, background_rect, checkmark_origin, content_rect, corner_radius, get_display_point, get_item_rect, icon_rect,
    is_selected_item, menu_border_color, menu_border_width, menu_vertical_padding, separator_rect, submenu_position, text_rect,
    to_vertical_middle, DisplayPoint, Rect,
};
use wcpopup::gtk_rules::{radio_group_item, should_send, toggle_icon, IconVisibility};
use wcpopup::layout::{IconSize, IconSpace, TextSize};
use wcpopup::menu::MenuData;
use wcpopup::menu_item::{Menu, MenuIcon, MenuItem, MenuItemType, MenuType};
use wcpopup::theme::{
    border_colorref, get_color_scheme, get_current_theme, get_widget_name, is_dark_color, is_dark_theme_name, is_win11_version,
    on_theme_change, ThemeChangeFactor,
};

fn data(menu_type: MenuType, theme: Theme) -> MenuData {
    let m = Menu { window_handle: 100, menu_type, parent_window_handle: 7 };
    let mut b = MenuBuilder::new_with_theme(m, theme);
    b.menu_type = menu_type;
    b.text("a", "A", false, 1);
    let tree: Vec<MenuItem> = b.items.iter().map(|i| i.dup()).collect();
    b.build(&vec![TextSize { width: 10, height: 10 }], 20, 10, 1, &tree).unwrap()
}

#[test]
fn current_theme() {
    assert_eq!(get_current_theme(Theme::System, true), Theme::Dark);
    assert_eq!(get_current_theme(Theme::System, false), Theme::Light);
    assert_eq!(get_current_theme(Theme::Dark, false), Theme::Dark);
    assert_eq!(get_current_theme(Theme::Light, true), Theme::Light);
}

#[test]
fn dark_colors() {
    assert!(is_dark_color(0, 204, 4));
    assert!(!is_dark_color(0, 204, 5));
    assert!(is_dark_color(0, 0, 0));
    assert!(!is_dark_color(255, 255, 255));
}

#[test]
fn theme_changes() {
    let mut d = data(MenuType::Main, Theme::Light);
    assert_eq!(on_theme_change(&mut d, &mut Vec::new(), Some(Theme::Dark), ThemeChangeFactor::User, false), Some(Theme::Dark));
    assert_eq!(d.current_theme, Theme::Dark);
    // a system setting change leaves a menu that does not follow the system alone
    assert_eq!(on_theme_change(&mut d, &mut Vec::new(), None, ThemeChangeFactor::SystemSetting, false), None);
    assert_eq!(d.current_theme, Theme::Dark);
    // the application turned light
    assert_eq!(on_theme_change(&mut d, &mut Vec::new(), None, ThemeChangeFactor::App, false), Some(Theme::Light));
    let mut d = data(MenuType::Main, Theme::System);
    assert_eq!(on_theme_change(&mut d, &mut Vec::new(), None, ThemeChangeFactor::SystemSetting, true), Some(Theme::System));
    assert_eq!(on_theme_change(&mut d, &mut Vec::new(), None, ThemeChangeFactor::App, true), Some(Theme::System));
    let mut s = data(MenuType::Submenu, Theme::Light);
    assert_eq!(on_theme_change(&mut s, &mut Vec::new(), Some(Theme::Dark), ThemeChangeFactor::User, false), None);
    assert_eq!(s.current_theme, Theme::Light);
}

#[test]
fn set_theme_then_theme() {
    let m = Menu { window_handle: 100, menu_type: MenuType::Main, parent_window_handle: 7 };
    let mut d = data(MenuType::Main, Theme::Light);
    let mut subs = vec![data(MenuType::Submenu, Theme::Light), data(MenuType::Submenu, Theme::Light)];
    m.set_theme(&mut d, &mut subs, Theme::Dark);
    assert_eq!(m.theme(&d), Theme::Dark);
    assert!(subs.iter().all(|s| s.current_theme == Theme::Dark));
    m.set_theme(&mut d, &mut subs, Theme::System);
    assert_eq!(m.theme(&d), Theme::System);
    assert!(subs.iter().all(|s| s.current_theme == Theme::System));
}

#[test]
fn submenus_take_the_new_theme() {
    let mut d = data(MenuType::Main, Theme::Light);
    let mut subs = vec![data(MenuType::Submenu, Theme::Light)];
    assert_eq!(on_theme_change(&mut d, &mut subs, Some(Theme::Dark), ThemeChangeFactor::User, false), Some(Theme::Dark));
    assert_eq!(subs[0].current_theme, Theme::Dark);
    // nothing changes, nothing is handed on
    assert_eq!(on_theme_change(&mut d, &mut subs, None, ThemeChangeFactor::SystemSetting, false), None);
    assert_eq!(subs[0].current_theme, Theme::Dark);
}

#[test]
fn colors_of_theme() {
    let d = data(MenuType::Main, Theme::Dark);
    assert_eq!(get_color_scheme(&d, false), default_dark_color_scheme());
    let d = data(MenuType::Main, Theme::System);
    assert_eq!(get_color_scheme(&d, true), default_dark_color_scheme());
    assert_eq!(get_color_scheme(&d, false).background_color, 0xFFFFFF);
    // no border: no border color
    assert_eq!(border_colorref(&d, true), None);
    let mut d = data(MenuType::Main, Theme::Dark);
    d.config.size.border_size = 1;
    d.config.color.dark.border = 0x112233;
    assert_eq!(border_colorref(&d, false), Some(0x332211));
}

#[test]
fn widget_names_and_theme_names() {
    assert_eq!(get_widget_name(Theme::Dark), "wcpopup-dark");
    assert_eq!(get_widget_name(Theme::Light), "wcpopup-light");
    assert_eq!(get_widget_name(Theme::System), "wcpopup");
    assert!(is_dark_theme_name("Adwaita-DARK"));
    assert!(is_dark_theme_name("dark"));
    assert!(!is_dark_theme_name("Yaru"));
    assert!(is_win11_version(10, 22000));
    assert!(!is_win11_version(10, 19045));
    assert!(!is_win11_version(11, 22000));
}

#[test]
fn display_points() {
    let work = Rect { left: 0, top: 0, right: 1000, bottom: 700 };
    let monitor = Rect { left: 0, top: 0, right: 1000, bottom: 740 };
    assert_eq!(get_display_point(10, 20, 100, 200, work, monitor), Some(DisplayPoint { x: 10, y: 20, rtl: false, reverse: false }));
    assert_eq!(get_display_point(950, 650, 100, 200, work, monitor), Some(DisplayPoint { x: 850, y: 450, rtl: true, reverse: true }));
    let work = Rect { left: 50, top: 40, right: 1000, bottom: 700 };
    assert_eq!(get_display_point(10, 20, 100, 200, work, monitor), Some(DisplayPoint { x: 0, y: 0, rtl: false, reverse: false }));
    assert_eq!(get_display_point(i32::MAX, 20, 100, 200, work, monitor), None);
    let m = Menu { window_handle: 100, menu_type: MenuType::Main, parent_window_handle: 7 };
    let d = data(MenuType::Main, Theme::Light);
    let pt = m.popup_at(&d, 990, 10, work, monitor).unwrap();
    assert!(pt.rtl && !pt.reverse);
    assert_eq!(pt.x, 990 - d.size.width);
}

#[test]
fn submenu_positions() {
    let size = MenuSize { vertical_padding: 2, border_size: 1, submenu_offset: -3, ..MenuSize::default() };
    let rect = Rect { left: 100, top: 200, right: 300, bottom: 500 };
    let pt = DisplayPoint { x: 0, y: 0, rtl: false, reverse: false };
    assert_eq!(submenu_position(rect, 50, 0, 120, 80, pt, size, Corner::Round), Some((297, 200 + 50 - 2 - 8 - 1)));
    let pt = DisplayPoint { x: 0, y: 0, rtl: true, reverse: true };
    assert_eq!(submenu_position(rect, 50, 400, 120, 80, pt, size, Corner::DoNotRound), Some((100 - 120 + 3, 400 - 80 + 4 + 0 + 1)));
    assert_eq!(submenu_position(rect, 50, i32::MAX, 120, 80, pt, MenuSize { vertical_padding: i32::MAX, ..size }, Corner::Round), None);
}

#[test]
fn vertical_middle() {
    assert_eq!(to_vertical_middle(10, 20, 7), 17);
    assert_eq!(to_vertical_middle(0, 5, 8), -1);
    assert_eq!(to_vertical_middle(0, 4, 4), 0);
    for ih in -40..40 {
        for th in -40..40 {
            let expected = 3 + ((ih as f32 - th as f32) / 2.0).ceil() as i32;
            assert_eq!(to_vertical_middle(3, ih, th), expected);
        }
    }
}

#[test]
fn item_part_rects() {
    let mut item = MenuItem::new_submenu_item("s", "S", false, Some(MenuIcon::new("i.png")), 1);
    item.left = 0;
    item.top = 8;
    item.right = 200;
    item.bottom = 44;
    let r = get_item_rect(&item);
    assert_eq!(r, Rect { left: 0, top: 8, right: 200, bottom: 44 });
    let size = MenuSize { item_horizontal_padding: 2, ..MenuSize::default() };
    let c = content_rect(r, size).unwrap();
    assert_eq!(content_rect(Rect { left: i32::MIN, ..r }, MenuSize { item_horizontal_padding: -1, ..size }), None);
    assert_eq!(c, Rect { left: 2, top: 16, right: 198, bottom: 36 });
    let sp = IconSpace {
        left: IconSize { width: 16, lmargin: 0, rmargin: 10 },
        mid: IconSize { width: 12, lmargin: 1, rmargin: 10 },
        right: IconSize { width: 8, lmargin: 20, rmargin: 0 },
    };
    assert_eq!(checkmark_origin(c, sp), Some((2, 18)));
    assert_eq!(checkmark_origin(Rect { top: 0, bottom: 0x100_0000, ..c }, sp), None);
    assert_eq!(icon_rect(c, sp), Some(Rect { left: 2 + 26 + 1, top: 20, right: 41, bottom: 32 }));
    assert_eq!(text_rect(c, sp, &item, true, false), Some(Rect { left: 2 + 26 + 23, top: 16, right: 198 - 28, bottom: 36 }));
    let plain = MenuItem::new_text_item("t", "T", None, false, None, 2);
    assert_eq!(text_rect(c, sp, &plain, true, false), Some(Rect { left: 28, top: 16, right: 198, bottom: 36 }));
    assert_eq!(arrow_origin(c, sp), Some((198 - 28, 22)));
    assert_eq!(separator_rect(Rect { left: 0, top: 10, right: 50, bottom: 27 }), Some(Rect { left: 0, top: 18, right: 50, bottom: 27 }));
    assert_eq!(separator_rect(Rect { left: 0, top: 10, right: 50, bottom: 7 }), Some(Rect { left: 0, top: 9, right: 50, bottom: 7 }));
    assert_eq!(separator_rect(Rect { left: 0, top: i32::MIN, right: 50, bottom: 1 }), None);
    assert_eq!(background_rect(Rect { left: 0, top: 0, right: 100, bottom: 50 }, 2), Some(Rect { left: 2, top: 2, right: 98, bottom: 48 }));
}

#[test]
fn selected_item_drawing() {
    let mut d = data(MenuType::Main, Theme::Light);
    assert!(!is_selected_item(&d, 0));
    d.selected_index = 0;
    assert!(is_selected_item(&d, 0));
    d.set_disabled(0, true);
    assert!(!is_selected_item(&d, 0));
}

#[test]
fn gtk_css_metrics() {
    let size = MenuSize { vertical_padding: 3, border_size: 0, ..MenuSize::default() };
    assert_eq!(menu_vertical_padding(size, Corner::Round), 8);
    assert_eq!(menu_vertical_padding(size, Corner::DoNotRound), 3);
    assert_eq!(menu_border_width(size), 0);
    assert_eq!(menu_border_width(MenuSize { border_size: 2, ..size }), 2);
    let scheme = default_dark_color_scheme();
    assert_eq!(menu_border_color(size, &scheme), scheme.background_color);
    assert_eq!(menu_border_color(MenuSize { border_size: 2, ..size }, &scheme), scheme.border);
    assert_eq!(corner_radius(Corner::Round), 8);
    assert_eq!(corner_radius(Corner::DoNotRound), 0);
}

#[test]
fn gtk_activation() {
    let (mut checked, mut suppress) = (false, false);
    assert!(should_send(MenuItemType::Checkbox, true, &mut checked, &mut suppress));
    assert!(checked);
    let (mut checked, mut suppress) = (false, true);
    assert!(!should_send(MenuItemType::Checkbox, true, &mut checked, &mut suppress));
    assert!(checked && !suppress);
    let (mut checked, mut suppress) = (true, false);
    assert!(!should_send(MenuItemType::Radio, false, &mut checked, &mut suppress));
    assert!(!checked);
    assert!(should_send(MenuItemType::Radio, true, &mut checked, &mut suppress));
    assert!(!should_send(MenuItemType::Submenu, true, &mut checked, &mut suppress));
    assert!(should_send(MenuItemType::Text, false, &mut checked, &mut suppress));
}

#[test]
fn gtk_icons_and_groups() {
    let items = vec![
        MenuItem::new_text_item("a", "A", None, false, None, 1),
        MenuItem::new_separator(2),
        MenuItem::new_text_item("b", "B", None, false, Some(MenuIcon::new("x.svg")), 3),
        MenuItem::new_radio_item("r", "R", "g", None, false, false, None, 4),
    ];
    assert_eq!(toggle_icon(&items, false), vec![IconVisibility::Keep, IconVisibility::Keep, IconVisibility::Show, IconVisibility::Keep]);
    assert_eq!(toggle_icon(&items, true), vec![IconVisibility::Show, IconVisibility::Keep, IconVisibility::Show, IconVisibility::Show]);
    let plain = vec![MenuItem::new_text_item("a", "A", None, false, None, 1), MenuItem::new_separator(2)];
    assert_eq!(toggle_icon(&plain, true), vec![IconVisibility::Hide, IconVisibility::Keep]);
    assert_eq!(radio_group_item(&items, "g"), Some(3));
    assert_eq!(radio_group_item(&items, "h"), None);
}

#[test]
fn item_padding_style() {
    assert_eq!(wcpopup::gtk_rules::item_padding_css(12).as_str(), "padding-right: 12px; padding-left: 12px;");
    assert_eq!(wcpopup::gtk_rules::item_padding_css(0).as_str(), "");
    assert_eq!(wcpopup::gtk_rules::item_padding_css(-3).as_str(), "");
}

#[test]
fn check_and_arrow_image_style() {
    assert_eq!(
        wcpopup::gtk_rules::icon_source_css(Some("/a/check.svg"), true, 16, -2, "12").as_str(),
        "-gtk-icon-source: -gtk-recolor(url(\"/a/check.svg\")); min-width: 16px; min-height: -2px;"
    );
    assert_eq!(
        wcpopup::gtk_rules::icon_source_css(Some("/a/check.png"), false, 8, 9, "12").as_str(),
        "-gtk-icon-source: url(\"/a/check.png\"); min-width: 8px; min-height: 9px;"
    );
    assert_eq!(wcpopup::gtk_rules::icon_source_css(None, false, 0, 0, "12.5").as_str(), "min-width: 12.5px; min-height: 12.5px;");
}

#[test]
fn item_style_sheet() {
    let mut c = wcpopup::config::MenuConfig::default();
    c.size.item_horizontal_padding = 5;
    let css = wcpopup::style::menu_item_css(&c, "12", "14", "Segoe UI", wcpopup::config::FontWeight::Bold, false, false);
    let lines: Vec<&str> = css.lines().collect();
    assert_eq!(lines.len(), 23);
    assert_eq!(
        lines[0],
        "#wcpopup accelerator, #wcpopup-dark accelerator, #wcpopup-light accelerator { font: 12px \"Segoe UI\"; font-weight: 700; }"
    );
    assert_eq!(
        lines[2],
        format!("#wcpopup-light accelerator {{ color: {}; }}", wcpopup::config::to_rgba_string(0x635e5e))
    );
    assert_eq!(
        lines[3],
        "#wcpopup check, #wcpopup-dark check, #wcpopup-light check { border-width: 0px; outline-width: 0px; min-width: 14px; min-height: 14px; }"
    );
    assert_eq!(
        lines[13],
        "menuitem#wcpopup, menuitem#wcpopup-dark, menuitem#wcpopup-light { padding-right: 5px; padding-left: 5px; padding-top: 8px; padding-bottom: 8px; border: none; }"
    );
    assert_eq!(
        lines[20],
        "separator#wcpopup, separator#wcpopup-dark, separator#wcpopup-light { padding-left: 5px; padding-right: 5px; margin-top: 8px; margin-bottom: 8px; min-height: 1px; }"
    );
    assert_eq!(
        lines[22],
        format!("separator#wcpopup-light {{ background-color: {}; }}", wcpopup::config::to_rgba_string(0xe9e2e2))
    );
}
