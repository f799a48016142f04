use wcpopup::builder::MenuBuilder;
use wcpopup::config::{Corner, MenuConfig, Theme};
use wcpopup::menu_item::{Menu, MenuIcon, MenuIconKind, MenuItem, MenuItemType, MenuType};

#[test]
fn constructors() {
    let t = MenuItem::new_text_item("id", "Label", Some("Ctrl+A"), true, None, 7);
    assert_eq!((t.id.as_str(), t.label.as_str(), t.accelerator.as_str(), t.name.as_str()), ("id", "Label", "Ctrl+A", ""));
    assert_eq!(t.menu_item_type, MenuItemType::Text);
    assert!(t.disabled && t.visible && !t.checked);
    assert_eq!((t.uuid, t.index, t.menu_window_handle), (7, 0, 0));
    let c = MenuItem::new_check_item("c", "C", None, true, false, None, 8);
    assert_eq!(c.menu_item_type, MenuItemType::Checkbox);
    assert!(c.checked);
    assert_eq!(c.accelerator, "");
    let r = MenuItem::new_radio_item("r", "R", "group", None, false, false, None, 9);
    assert_eq!(r.name, "group");
    let s = MenuItem::new_submenu_item("s", "S", false, None, 10);
    assert_eq!(s.menu_item_type, MenuItemType::Submenu);
    assert_eq!(s.items.as_ref().map(|v| v.len()), Some(0));
    let sep = MenuItem::new_separator(11);
    assert_eq!(sep.menu_item_type, MenuItemType::Separator);
    assert_eq!(MenuItem::new_separator_with_id("sep", 12).id, "sep");
    let n = MenuItem::new(5, "n", "N", "F1", "", false, false, MenuItemType::Text, None, None, 13);
    assert_eq!(n.menu_window_handle, 5);
    assert_eq!(n.accelerator, "F1");
}

#[test]
fn icons() {
    match MenuIcon::new("a/b.svg").icon {
        MenuIconKind::Path(p) => assert_eq!(p, "a/b.svg"),
        _ => panic!("expected a path icon"),
    }
    let icon = MenuIcon::from_rgba(vec![1, 2, 3, 4], 1, 1);
    let copy = icon.dup();
    match copy.icon {
        MenuIconKind::Rgba(r) => {
            assert_eq!(r.rgba, vec![1, 2, 3, 4]);
            assert_eq!((r.width, r.height), (1, 1));
        },
        _ => panic!("expected pixels"),
    }
}

#[test]
fn setters() {
    let mut t = MenuItem::new_text_item("id", "Label", None, false, None, 1);
    t.set_label("Other");
    t.set_disabled(true);
    t.set_visible(false);
    t.set_checked(true);
    t.set_icon(Some(MenuIcon::new("x.png")));
    assert_eq!(t.label, "Other");
    assert!(t.disabled && !t.visible && t.checked && t.icon.is_some());
    let mut sep = MenuItem::new_separator(2);
    sep.set_icon(Some(MenuIcon::new("x.png")));
    assert!(sep.icon.is_none());
}

#[test]
fn submenu_items_and_copies() {
    let mut s = MenuItem::new_submenu_item("s", "S", false, None, 1);
    s.add_menu_item(MenuItem::new_text_item("a", "A", None, false, None, 2));
    s.add_menu_item(MenuItem::new_text_item("b", "B", None, false, None, 3));
    let copy = s.dup();
    let items = copy.items.unwrap();
    assert_eq!(items.len(), 2);
    assert_eq!(items[1].id, "b");
    let mut t = MenuItem::new_text_item("t", "T", None, false, None, 4);
    t.add_menu_item(MenuItem::new_separator(5));
    assert!(t.items.is_none());
}

#[test]
fn item_builder() {
    let item = MenuItem::builder(MenuItemType::Submenu, 3)
        .id("id")
        .label("Label")
        .accelerator("F2")
        .name("n")
        .submenu(vec![MenuItem::new_separator(4)])
        .checked(true)
        .disabled(true)
        .visible(false)
        .icon(MenuIcon::new("i.png"))
        .build();
    assert_eq!((item.id.as_str(), item.label.as_str(), item.accelerator.as_str(), item.name.as_str()), ("id", "Label", "F2", "n"));
    assert!(item.checked && item.disabled && !item.visible && item.icon.is_some());
    assert_eq!(item.items.map(|v| v.len()), Some(1));
    let text = MenuItem::builder(MenuItemType::Text, 5).submenu(vec![MenuItem::new_separator(6)]).build();
    assert!(text.items.is_none());
}

#[test]
fn menu_builder() {
    let main = Menu { window_handle: 100, menu_type: MenuType::Main, parent_window_handle: 7 };
    let mut config = MenuConfig::default();
    config.theme = Theme::Dark;
    let mut b = MenuBuilder::new_from_config(main, config, false);
    assert_eq!(b.config.corner, Corner::DoNotRound);
    assert_eq!(b.theme, Theme::Dark);
    b.text("a", "A", false, 1);
    b.text_with_accelerator("b", "B", false, "Ctrl+B", 2);
    b.text_with_icon("c", "C", false, MenuIcon::new("c.png"), 3);
    b.text_with_accel_icon("d", "D", false, "F1", MenuIcon::new("d.png"), 4);
    b.check("e", "E", true, false, 5);
    b.check_with_accelerator("f", "F", false, false, "F2", 6);
    b.check_with_icon("g", "G", false, false, MenuIcon::new("g.png"), 7);
    b.check_with_accel_icon("h", "H", false, false, "F3", MenuIcon::new("h.png"), 8);
    b.radio("i", "I", "grp", true, false, 9);
    b.radio_with_accelerator("j", "J", "grp", false, false, "F4", 10);
    b.radio_with_icon("k", "K", "grp", false, false, MenuIcon::new("k.png"), 11);
    b.radio_with_accel_icon("l", "L", "grp", false, false, "F5", MenuIcon::new("l.png"), 12);
    b.separator(13);
    let sub = Menu { window_handle: 200, menu_type: MenuType::Submenu, parent_window_handle: 100 };
    let sb = b.submenu("m", "M", false, None, 14, sub, true);
    b.append(MenuItem::new_text_item("n", "N", None, false, None, 15));
    assert_eq!(b.items.len(), 15);
    assert!(b.items.iter().all(|i| i.menu_window_handle == 100));
    assert_eq!(b.items[13].submenu, Some(sub));
    assert_eq!(sb.menu_type, MenuType::Submenu);
    assert_eq!(sb.menu, sub);
    assert_eq!(sb.config.corner, Corner::DoNotRound);
    let round = MenuBuilder::new_from_config(main, MenuConfig::default(), true);
    assert_eq!(round.config.corner, Corner::Round);
}
