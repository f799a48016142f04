use wcpopup::builder::MenuBuilder;
use wcpopup::config::Theme;
use wcpopup::layout::TextSize;
use wcpopup::menu::{
    change_selection, find_by_id, hide_submenu, index_from_point, index_from_rect, index_of_item, init_menu_data, on_menu_item_selected,
    on_mouse_up, target_window, mouse_down_flags, toggle_radio, toggle_submenu, MenuData,
};
use wcpopup::menu_item::{Menu, MenuItem, MenuItemType, MenuType};

fn menu() -> Menu {
    Menu { window_handle: 100, menu_type: MenuType::Main, parent_window_handle: 7 }
}

/// Items: text, separator, check (Ctrl+B), radio g1 (checked), radio g1, radio g2 (checked), submenu, disabled text.
fn sample_data() -> MenuData {
    let mut b = MenuBuilder::new(menu());
    b.text("a", "A", false, 1);
    b.separator(2);
    b.check_with_accelerator("b", "B", false, false, "Ctrl+B", 3);
    b.radio("r1", "R1", "g1", true, false, 4);
    b.radio("r2", "R2", "g1", false, false, 5);
    b.radio("r3", "R3", "g2", true, false, 6);
    let sub = Menu { window_handle: 200, menu_type: MenuType::Submenu, parent_window_handle: 100 };
    let _sb = b.submenu("s", "S", false, None, 7, sub, true);
    b.text("d", "D", true, 8);
    let n = b.items.len();
    let texts = vec![TextSize { width: 40, height: 16 }; n];
    let tree: Vec<MenuItem> = b.items.iter().map(|i| i.dup()).collect();
    b.build(&texts, 20, 10, 400, &tree).unwrap()
}

fn texts8() -> Vec<TextSize> {
    vec![TextSize { width: 40, height: 16 }; 8]
}

#[test]
fn remove_finds_items_in_submenus() {
    let mut m = menu();
    let mut sub = MenuItem::new_submenu_item("s", "S", false, None, 10);
    sub.add_menu_item(MenuItem::new_text_item("x", "X", None, false, None, 13));
    sub.add_menu_item(MenuItem::new_text_item("y", "Y", None, false, None, 14));
    let mut tree = vec![MenuItem::new_text_item("a", "A", None, false, None, 1), sub];
    let probe = MenuItem::new_separator(14);
    let (removed, pos) = m.remove(&mut tree, &probe).unwrap();
    assert_eq!(removed.id, "y");
    assert_eq!(pos, 1);
    assert_eq!(tree.len(), 2);
    let kids = tree[1].items.as_ref().unwrap();
    assert_eq!(kids.len(), 1);
    assert_eq!(kids[0].id, "x");
    // a top-level item
    let (removed, pos) = m.remove(&mut tree, &MenuItem::new_separator(1)).unwrap();
    assert_eq!((removed.id.as_str(), pos), ("a", 0));
    assert_eq!(tree.len(), 1);
    assert!(m.remove(&mut tree, &MenuItem::new_separator(99)).is_none());
}

#[test]
fn toggle_radio_checks_one_of_group() {
    let mut data = sample_data();
    toggle_radio(&mut data, 4);
    assert!(!data.items[3].checked);
    assert!(data.items[4].checked);
    assert!(data.items[5].checked);
    // idempotent
    toggle_radio(&mut data, 4);
    assert!(!data.items[3].checked && data.items[4].checked && data.items[5].checked);
}

#[test]
fn selecting_items() {
    let mut data = sample_data();
    assert!(on_menu_item_selected(&mut data, 2));
    assert!(data.items[2].checked);
    assert!(on_menu_item_selected(&mut data, 2));
    assert!(!data.items[2].checked);
    assert!(on_menu_item_selected(&mut data, 4));
    assert!(!data.items[3].checked && data.items[4].checked);
    // submenu items and disabled items are not selected
    assert!(!on_menu_item_selected(&mut data, 6));
    assert!(!on_menu_item_selected(&mut data, 7));
    data.set_visible(0, false, &texts8());
    assert!(!on_menu_item_selected(&mut data, 0));
    assert!(on_menu_item_selected(&mut data, 1));
}

#[test]
fn set_checked_on_radio_checks_whatever_the_value() {
    let mut data = sample_data();
    data.set_checked(4, false);
    assert!(data.items[4].checked);
    assert!(!data.items[3].checked);
    data.set_checked(2, true);
    assert!(data.items[2].checked);
    data.set_checked(0, true);
    assert!(!data.items[0].checked);
}

#[test]
fn setters_at_index() {
    let mut data = sample_data();
    let before_size = data.size;
    let mut texts = texts8();
    texts[0] = TextSize { width: 300, height: 16 };
    assert!(data.set_label(0, "New", &texts));
    assert_eq!(data.items[0].label, "New");
    // the menu is laid out again after the wider label
    assert!(data.size.width > before_size.width);
    data.set_disabled(0, true);
    assert!(data.items[0].disabled);
    assert!(data.set_icon(0, None, &texts));
    assert!(data.items[0].icon.is_none());
}

#[test]
fn add_item_checked_radio_unchecks_group() {
    let mut data = sample_data();
    let mut m = menu();
    let item = MenuItem::new_radio_item("r4", "R4", "g1", None, true, false, None, 9);
    assert!(m.insert(&mut data, item, 0, &vec![TextSize { width: 40, height: 16 }; 9]));
    assert_eq!(data.items.len(), 9);
    // every item's index is its position again
    assert!(data.items.iter().enumerate().all(|(i, it)| it.index as usize == i));
    assert_eq!(data.items[0].id, "r4");
    assert_eq!(data.items[0].menu_window_handle, 100);
    assert!(data.items[0].checked);
    assert!(!data.items[4].checked);
    assert!(data.items[6].checked);
}

#[test]
fn add_then_remove_law_on_values() {
    let mut data = sample_data();
    let mut m = menu();
    let ids: Vec<String> = data.items.iter().map(|i| i.id.clone()).collect();
    assert!(m.append(&mut data, MenuItem::new_text_item("x", "X", None, false, None, 20), &vec![TextSize { width: 40, height: 16 }; 9]));
    assert_eq!(data.items.len(), 9);
    let (removed, ok) = m.remove_at(&mut data, 8, &texts8()).unwrap();
    assert!(ok);
    assert_eq!(removed.id, "x");
    let after: Vec<String> = data.items.iter().map(|i| i.id.clone()).collect();
    assert_eq!(ids, after);
}

#[test]
fn remove_out_of_range_and_by_uuid() {
    let mut data = sample_data();
    let mut m = menu();
    assert!(m.remove_at(&mut data, 8, &texts8()).is_none());
    assert_eq!(data.items.len(), 8);
    let (removed, ok) = m.remove_at(&mut data, 4, &vec![TextSize { width: 40, height: 16 }; 7]).unwrap();
    assert!(ok);
    assert_eq!(removed.id, "r2");
    assert_eq!(data.items.len(), 7);
    assert!(data.items.iter().enumerate().all(|(i, it)| it.index as usize == i));
}

#[test]
fn find_and_path_in_tree() {
    let mut sub = MenuItem::new_submenu_item("s", "S", false, None, 10);
    let mut inner = MenuItem::new_submenu_item("t", "T", false, None, 11);
    inner.add_menu_item(MenuItem::new_text_item("deep", "Deep", None, false, None, 12));
    sub.add_menu_item(MenuItem::new_text_item("x", "X", None, false, None, 13));
    sub.add_menu_item(inner);
    let items = vec![MenuItem::new_text_item("a", "A", None, false, None, 14), sub];
    let found = find_by_id(&items, "deep").unwrap();
    assert_eq!(found.label, "Deep");
    assert_eq!(found.uuid, 12);
    assert!(find_by_id(&items, "nothing").is_none());
    assert_eq!(find_by_id(&items, "s").unwrap().items.as_ref().unwrap().len(), 2);
    assert_eq!(index_of_item(&items, 12), Some(vec![1, 1, 0]));
    assert_eq!(index_of_item(&items, 13), Some(vec![1, 0]));
    assert_eq!(index_of_item(&items, 14), Some(vec![0]));
    assert_eq!(index_of_item(&items, 99), None);
}

#[test]
fn menu_item_by_id_and_theme() {
    let data = sample_data();
    let m = menu();
    assert_eq!(m.get_menu_item_by_id(&data, "b").unwrap().accelerator, "Ctrl+B");
    assert_eq!(m.theme(&data), Theme::Light);
    assert_eq!(m.theme_handle(), 100);
    let sub = Menu { window_handle: 200, menu_type: MenuType::Submenu, parent_window_handle: 100 };
    assert_eq!(sub.theme_handle(), 100);
    assert_eq!(m.items(&data).len(), 8);
}

#[test]
fn hit_testing() {
    let data = sample_data();
    // every item is 36 high (text 16 or check slot 20, plus paddings), separator 17; first top 8
    assert_eq!(data.items[0].top, 8);
    assert_eq!(data.items[0].bottom, 44);
    assert_eq!(index_from_point(&data, 5, 10), 0);
    assert_eq!(index_from_point(&data, 5, 44), 0);
    assert_eq!(index_from_point(&data, 5, 50), -1); // separator
    assert_eq!(index_from_point(&data, -1, 10), -1);
    assert_eq!(index_from_point(&data, 5, data.size.height), -1);
    assert_eq!(index_from_rect(&data, 0, data.size.height), None);
    assert_eq!(index_from_rect(&data, data.items[2].top, data.items[2].bottom), Some(2));
    assert_eq!(index_from_rect(&data, 1, 2), None);
}

#[test]
fn selection_changes() {
    let mut data = sample_data();
    let c = change_selection(&mut data, false, 5, 10);
    assert!(!c.changed && c.repaint.is_empty());
    assert_eq!(data.selected_index, -1);
    let c = change_selection(&mut data, true, 5, 10);
    assert!(c.changed);
    assert_eq!(c.repaint, vec![0]);
    assert_eq!(data.selected_index, 0);
    let y = data.items[7].top + 1;
    let c = change_selection(&mut data, true, 5, y);
    assert!(c.changed);
    // item 7 is disabled, so only item 0 is painted again
    assert_eq!(c.repaint, vec![0]);
    assert_eq!(data.selected_index, 7);
    let c = change_selection(&mut data, true, 5, y);
    assert!(!c.changed && c.repaint.is_empty());
}

#[test]
fn submenu_opens_and_closes() {
    let mut data = sample_data();
    data.selected_index = 6;
    let c = toggle_submenu(&mut data);
    assert_eq!(c.hide_index, None);
    assert!(c.show);
    assert_eq!(data.visible_submenu_index, 6);
    // while the submenu is open, a point on no item keeps the selection
    let c = change_selection(&mut data, true, 5, 50);
    assert!(!c.changed);
    assert_eq!(data.selected_index, 6);
    data.selected_index = 0;
    let c = toggle_submenu(&mut data);
    assert_eq!(c.hide_index, Some(6));
    assert!(!c.show);
    assert_eq!(data.visible_submenu_index, -1);
    data.selected_index = 6;
    data.set_disabled(6, true);
    let c = toggle_submenu(&mut data);
    assert!(!c.show);
    assert_eq!(data.visible_submenu_index, -1);
}

#[test]
fn init_and_hide() {
    let mut data = sample_data();
    data.selected_index = 6;
    data.visible_submenu_index = 6;
    assert_eq!(init_menu_data(&mut data), Some(6));
    assert_eq!(data.selected_index, -1);
    assert_eq!(data.visible_submenu_index, -1);
    assert_eq!(init_menu_data(&mut data), None);
    data.selected_index = 2;
    hide_submenu(&mut data);
    assert_eq!(data.selected_index, -1);
}

#[test]
fn clicks() {
    let mut data = sample_data();
    let y = data.items[2].top + 1;
    assert_eq!(on_mouse_up(&mut data, 5, y), Some(2));
    assert!(data.items[2].checked);
    let y = data.items[6].top + 1;
    assert_eq!(on_mouse_up(&mut data, 5, y), None);
    assert_eq!(on_mouse_up(&mut data, 5, 50), None);
}

#[test]
fn pointer_targets_and_flags() {
    assert_eq!(target_window(1, 2, Some(2)), Some(2));
    assert_eq!(target_window(1, 1, Some(2)), Some(1));
    assert_eq!(target_window(1, 3, None), None);
    assert_eq!(target_window(1, 0, Some(0)), None);
    assert_eq!(mouse_down_flags(true), 0xC002);
    assert_eq!(mouse_down_flags(false), 0xC008);
}

#[test]
fn toggle_visible_flips() {
    let mut data = sample_data();
    let m = menu();
    assert!(!data.visible);
    m.toggle_visible(&mut data);
    assert!(data.visible);
    m.toggle_visible(&mut data);
    assert!(!data.visible);
}

#[test]
fn item_type_kept() {
    let data = sample_data();
    assert_eq!(data.items[6].menu_item_type, MenuItemType::Submenu);
    assert_eq!(data.items[6].submenu.unwrap().window_handle, 200);
}

#[test]
fn hit_tests_return_the_stored_index() {
    let mut data = sample_data();
    data.items[0].index = 42;
    assert_eq!(index_from_point(&data, 5, 10), 42);
    assert_eq!(index_from_rect(&data, data.items[0].top, data.items[0].bottom), Some(42));
}

#[test]
fn removing_from_a_submenu_keeps_the_top_level() {
    let mut m = menu();
    let mut sub = MenuItem::new_submenu_item("s", "S", false, None, 10);
    sub.add_menu_item(MenuItem::new_text_item("x", "X", None, false, None, 13));
    sub.add_menu_item(MenuItem::new_text_item("y", "Y", None, false, None, 14));
    sub.add_menu_item(MenuItem::new_text_item("z", "Z", None, false, None, 15));
    let mut tree = vec![MenuItem::new_text_item("a", "A", None, false, None, 1), sub, MenuItem::new_text_item("b", "B", None, false, None, 2)];
    let (removed, pos) = m.remove(&mut tree, &MenuItem::new_separator(14)).unwrap();
    assert_eq!((removed.id.as_str(), pos), ("y", 1));
    let top: Vec<u16> = tree.iter().map(|i| i.uuid).collect();
    assert_eq!(top, vec![1, 10, 2]);
    let kids: Vec<u16> = tree[1].items.as_ref().unwrap().iter().map(|i| i.uuid).collect();
    assert_eq!(kids, vec![13, 15]);
}
