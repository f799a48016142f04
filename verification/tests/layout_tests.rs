use wcpopup::builder::MenuBuilder;
use wcpopup::config::{Corner, IconSettings, MenuConfig};
use wcpopup::layout::{calculate, get_icon_space, measure_item, IconSize, IconSpace, Size, TextSize};
use wcpopup::menu::MenuData;
use wcpopup::menu_item::{Menu, MenuIcon, MenuItem, MenuType};

fn main_menu() -> Menu {
    Menu { window_handle: 100, menu_type: MenuType::Main, parent_window_handle: 7 }
}

fn sample_items() -> Vec<MenuItem> {
    let mut hidden = MenuItem::new_radio_item("r", "R", "g", None, false, false, None, 4);
    hidden.set_visible(false);
    vec![
        MenuItem::new_text_item("a", "A", None, false, None, 1),
        MenuItem::new_separator(2),
        MenuItem::new_check_item("b", "B", Some("Ctrl+B"), false, false, None, 3),
        hidden,
    ]
}

fn sample_texts() -> Vec<TextSize> {
    vec![
        TextSize { width: 30, height: 16 },
        TextSize { width: 0, height: 0 },
        TextSize { width: 50, height: 16 },
        TextSize { width: 20, height: 16 },
    ]
}

#[test]
fn icon_space_for_check_items() {
    let items = sample_items();
    let sp = get_icon_space(&items, &IconSettings::default(), 20, 10);
    assert_eq!(sp.left, IconSize { width: 20, lmargin: 0, rmargin: 10 });
    assert_eq!(sp.mid, IconSize { width: 0, lmargin: 0, rmargin: 0 });
    assert_eq!(sp.right, IconSize { width: 0, lmargin: 0, rmargin: 0 });
}

#[test]
fn icon_space_empty_menu() {
    let items: Vec<MenuItem> = Vec::new();
    assert_eq!(get_icon_space(&items, &IconSettings::default(), 20, 10), IconSpace::default());
}

#[test]
fn icon_space_with_icons_and_submenu() {
    let items = vec![
        MenuItem::new_text_item("a", "A", None, false, Some(MenuIcon::from_rgba(vec![0; 4 * 32 * 32], 32, 32)), 1),
        MenuItem::new_text_item("b", "B", None, false, Some(MenuIcon::new("icon.png")), 2),
        MenuItem::new_submenu_item("s", "S", false, None, 3),
    ];
    let mut settings = IconSettings::default();
    let sp = get_icon_space(&items, &settings, 20, 10);
    assert_eq!(sp.left, IconSize { width: 0, lmargin: 0, rmargin: 0 });
    assert_eq!(sp.mid, IconSize { width: 32, lmargin: 0, rmargin: 10 });
    assert_eq!(sp.right, IconSize { width: 10, lmargin: 20, rmargin: 0 });
    settings.horizontal_margin = Some(3);
    let sp = get_icon_space(&items, &settings, 40, 10);
    assert_eq!(sp.mid, IconSize { width: 40, lmargin: 3, rmargin: 3 });
}

#[test]
fn measure_items() {
    let items = sample_items();
    let config = MenuConfig::default();
    let sp = get_icon_space(&items, &config.icon, 20, 10);
    assert_eq!(measure_item(&items[0], &config, sp, TextSize { width: 30, height: 16 }), (60, 36));
    assert_eq!(measure_item(&items[1], &config, sp, TextSize { width: 0, height: 0 }), (0, 17));
    assert_eq!(measure_item(&items[2], &config, sp, TextSize { width: 50, height: 16 }), (90, 36));
    // A negative text height counts by its size.
    assert_eq!(measure_item(&items[0], &config, sp, TextSize { width: 30, height: -40 }), (60, 56));
}

#[test]
fn calculate_lays_out_items() {
    let mut items = sample_items();
    let config = MenuConfig::default();
    let sp = get_icon_space(&items, &config.icon, 20, 10);
    let size = calculate(&mut items, &config, sp, &sample_texts());
    assert_eq!(size, Some(Size { width: 90, height: 105 }));
    assert_eq!((items[0].left, items[0].top, items[0].right, items[0].bottom), (0, 8, 90, 44));
    assert_eq!((items[1].top, items[1].bottom), (44, 61));
    assert_eq!((items[2].top, items[2].bottom), (61, 97));
    assert_eq!((items[3].left, items[3].top, items[3].right, items[3].bottom), (-1, -1, -1, -1));
    for (i, item) in items.iter().enumerate() {
        assert_eq!(item.index as usize, i);
    }
}

#[test]
fn items_stack_law_on_values() {
    let mut items = sample_items();
    let config = MenuConfig::default();
    let sp = get_icon_space(&items, &config.icon, 20, 10);
    calculate(&mut items, &config, sp, &sample_texts()).unwrap();
    assert_eq!(items[1].top, items[0].bottom);
    assert_eq!(items[2].top, items[1].bottom);
    // every shown item fits in the width
    assert!(items[2].right - items[2].left >= 90);
}

#[test]
fn calculate_square_corners_and_paddings() {
    let mut items = vec![MenuItem::new_text_item("a", "A", None, false, None, 1)];
    let mut config = MenuConfig::default();
    config.corner = Corner::DoNotRound;
    config.size.border_size = 1;
    config.size.vertical_padding = 2;
    config.size.horizontal_padding = 3;
    let sp = get_icon_space(&items, &config.icon, 20, 10);
    let size = calculate(&mut items, &config, sp, &vec![TextSize { width: 40, height: 10 }]);
    // item height 10 + 16, width 40; top = 2 + 1
    assert_eq!(size, Some(Size { width: 40 + 6 + 2, height: 3 + 26 + 2 + 1 }));
    assert_eq!((items[0].left, items[0].top, items[0].right, items[0].bottom), (4, 3, 44, 29));
}

#[test]
fn calculate_refuses_overflow() {
    let mut items = vec![MenuItem::new_text_item("a", "A", None, false, None, 1)];
    let config = MenuConfig::default();
    let sp = get_icon_space(&items, &config.icon, 20, 10);
    let before = items[0].top;
    let r = calculate(&mut items, &config, sp, &vec![TextSize { width: 10, height: i32::MAX }]);
    assert_eq!(r, None);
    assert_eq!(items[0].top, before);
}

#[test]
fn recalculate_and_build() {
    let mut builder = MenuBuilder::new(main_menu());
    builder.text("a", "A", false, 1);
    builder.separator(2);
    builder.check_with_accelerator("b", "B", false, false, "Ctrl+B", 3);
    builder.radio("r", "R", "g", false, false, 4);
    builder.items[3].set_visible(false);
    let tree = builder.items.iter().map(|i| i.dup()).collect::<Vec<_>>();
    let data: MenuData = builder.build(&sample_texts(), 20, 10, 400, &tree).unwrap();
    assert_eq!(data.size, Size { width: 90, height: 105 });
    assert_eq!(data.selected_index, -1);
    assert_eq!(data.visible_submenu_index, -1);
    assert_eq!(data.win_subclass_id, Some(400));
    assert_eq!(data.parent, 0);
    assert_eq!(data.accelerators.len(), 1);
    assert_eq!(data.accelerators.get(&3).map(|s| s.as_str()), Some("Ctrl+B"));
    assert!(data.items.iter().all(|i| i.menu_window_handle == 100));
}

#[test]
fn item_tree_must_match_the_items() {
    let mut builder = MenuBuilder::new(main_menu());
    builder.text("a", "A", false, 1);
    builder.check_with_accelerator("b", "B", false, false, "Ctrl+B", 3);
    let tree = builder.items.iter().map(|i| i.dup()).collect::<Vec<_>>();
    assert!(wcpopup::builder::is_tree_over(&tree, &builder.items));
    assert!(!wcpopup::builder::is_tree_over(&Vec::new(), &builder.items));
    let mut other = builder.items.iter().map(|i| i.dup()).collect::<Vec<_>>();
    other[1].accelerator = "Ctrl+C".to_string();
    assert!(!wcpopup::builder::is_tree_over(&other, &builder.items));
}
