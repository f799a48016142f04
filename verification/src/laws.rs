//! Properties that hold across the operations of the library.
use vstd::prelude::*;
use crate::config::{spec_rgba_bytes, RgbaBytes, Theme};
use crate::geometry::ceil_half;
use crate::layout::{heights_before, item_bottom, item_extent, item_top, widest, IconSpace, TextSize};
use crate::geometry::{spec_submenu_position, DisplayPoint, Rect};
use crate::config::MenuSize;
use crate::accelerator::{spec_virtual_key, spec_windows_accel, split_on, FALT, FCONTROL, FSHIFT, FVIRTKEY};
use crate::config::MenuConfig;
use crate::menu::{data_items, indexed, relaid, relaid_with, removed_from_tree, after_add, after_select, after_toggle_radio, find_by_id_from, item_at_path, path_of_uuid_from, tree_remove, MenuData};
use crate::builder::{built_state, effective_corner, MenuBuilder};
use crate::config::Corner;
use crate::menu_item::{items_view, MenuItem, MenuItemType, MenuItemView, MenuType};
use crate::theme::{all_take_theme, spec_theme_after_change, ThemeChangeFactor};

verus! {

/// Once a radio item is checked, it is the only checked item of its group.
pub proof fn law_radio_group_exclusive(items: Seq<MenuItemView>, index: int)
    requires
        0 <= index < items.len(),
        items[index].menu_item_type == MenuItemType::Radio,
    ensures
        after_toggle_radio(items, index)[index].checked,
        forall|j: int|
            0 <= j < items.len() && j != index && items[j].menu_item_type == MenuItemType::Radio && items[j].name
                == items[index].name ==> !(#[trigger] after_toggle_radio(items, index)[j]).checked,
        forall|j: int|
            0 <= j < items.len() && j != index && !(items[j].menu_item_type == MenuItemType::Radio
                && items[j].name == items[index].name) ==> #[trigger] after_toggle_radio(items, index)[j]
                == items[j],
{
}

/// Checking a radio item that is already the checked one changes nothing.
pub proof fn law_toggle_radio_idempotent(items: Seq<MenuItemView>, index: int)
    requires
        0 <= index < items.len(),
    ensures
        after_toggle_radio(after_toggle_radio(items, index), index) == after_toggle_radio(items, index),
{
    assert(after_toggle_radio(after_toggle_radio(items, index), index) =~= after_toggle_radio(items, index));
}

/// Clicking a check item twice gives back the items as they were.
pub proof fn law_checkbox_click_twice(items: Seq<MenuItemView>, index: int)
    requires
        0 <= index < items.len(),
        items[index].menu_item_type == MenuItemType::Checkbox,
    ensures
        after_select(after_select(items, index), index) == items,
{
    let once = after_select(items, index);
    assert(once[index].menu_item_type == MenuItemType::Checkbox);
    assert(after_select(once, index) =~= items);
}

/// Removing an item right after adding it gives back the items as they
/// were, unless the item was a checked radio item, which unchecks the rest
/// of its group.
pub proof fn law_add_then_remove(items: Seq<MenuItemView>, item: MenuItemView, p: int)
    requires
        0 <= p <= items.len(),
        !(item.menu_item_type == MenuItemType::Radio && item.checked),
    ensures
        after_add(items, item, p)[p] == item,
        after_add(items, item, p).remove(p) == items,
{
    assert(after_add(items, item, p).remove(p) =~= items);
}

/// Shown items are stacked: a shown item starts where the shown item above
/// it ends, and an item that is not shown takes no height.
pub proof fn law_items_stack(items: Seq<MenuItem>, texts: Seq<TextSize>, c: MenuConfig, sp: IconSpace, i: int)
    requires
        0 <= i,
        i + 1 < items.len(),
    ensures
        items[i].visible ==> item_top(items, texts, c, sp, i + 1) == item_bottom(items, texts, c, sp, i),
        !items[i].visible ==> item_top(items, texts, c, sp, i + 1) == item_top(items, texts, c, sp, i),
{
    assert(heights_before(items, texts, c, sp, i + 1) == heights_before(items, texts, c, sp, i) + if items[i].visible {
        item_extent(items[i], texts[i], c, sp).1
    } else {
        0
    });
}

/// Every shown item fits in the width of the menu's items.
pub proof fn law_menu_wide_enough(items: Seq<MenuItem>, texts: Seq<TextSize>, c: MenuConfig, sp: IconSpace, n: int, k: int)
    requires
        0 <= k < n,
        items[k].visible,
    ensures
        item_extent(items[k], texts[k], c, sp).0 <= widest(items, texts, c, sp, n),
    decreases n,
{
    if k < n - 1 {
        law_menu_wide_enough(items, texts, c, sp, n - 1, k);
    }
}

/// A color packed from red, green and blue bytes unpacks to the same bytes
/// and an opaque alpha.
pub proof fn law_rgb_round_trip(r: u32, g: u32, b: u32)
    requires
        r < 256,
        g < 256,
        b < 256,
    ensures
        spec_rgba_bytes((r * 0x10000 + g * 0x100 + b) as u32) == (RgbaBytes { r, g, b, a: 255 }),
{
    let hex = r * 0x10000 + g * 0x100 + b;
    assert(hex / 0x10000 == r && (hex / 0x100) % 256 == g && hex % 256 == b) by (nonlinear_arith)
        requires
            r < 256,
            g < 256,
            b < 256,
            hex == r * 0x10000 + g * 0x100 + b,
    ;
}

/// A color packed from bytes with an alpha byte unpacks to the same bytes,
/// as long as the red byte is not zero: with a zero red byte the value is
/// no larger than 24 bits and reads as a color without alpha.
pub proof fn law_rgba_round_trip(r: u32, g: u32, b: u32, a: u32)
    requires
        0 < r < 256,
        g < 256,
        b < 256,
        a < 256,
    ensures
        spec_rgba_bytes((r * 0x1000000 + g * 0x10000 + b * 0x100 + a) as u32) == (RgbaBytes { r, g, b, a }),
{
    let hex = r * 0x1000000 + g * 0x10000 + b * 0x100 + a;
    assert(hex > 0xFFFFFF && hex / 0x1000000 == r && (hex / 0x10000) % 256 == g && (hex / 0x100) % 256 == b
        && hex % 256 == a) by (nonlinear_arith)
        requires
            0 < r < 256,
            g < 256,
            b < 256,
            a < 256,
            hex == r * 0x1000000 + g * 0x10000 + b * 0x100 + a,
    ;
}

/// The high and low words of a double word put it back together.
pub proof fn law_words_recombine(dword: u32)
    ensures
        (dword / 0x10000) * 0x10000 + dword % 0x10000 == dword,
        dword / 0x10000 < 0x10000,
{
}

/// A theme the user asks for is the theme a main menu takes.
pub proof fn law_requested_theme_taken(current: Theme, theme: Theme, app_dark: bool)
    ensures
        spec_theme_after_change(MenuType::Main, current, Some(theme), ThemeChangeFactor::User, app_dark) == Some(
            theme,
        ),
{
}

/// A change of the system setting leaves alone a menu that does not follow
/// the system, and every submenu.
pub proof fn law_system_setting_ignored(menu_type: MenuType, current: Theme, preferred: Option<Theme>, app_dark: bool)
    requires
        current != Theme::System || menu_type == MenuType::Submenu,
    ensures
        spec_theme_after_change(menu_type, current, preferred, ThemeChangeFactor::SystemSetting, app_dark) is None,
{
}

/// A target placed with `to_vertical_middle` is centered: the space above
/// it equals the space below it, or exceeds it by one pixel.
pub proof fn law_vertical_middle_centers(top: int, item_height: int, target_height: int)
    ensures
        ({
            let above = ceil_half(item_height - target_height);
            let below = (top + item_height) - (top + above + target_height);
            above == below || above == below + 1
        }),
{
}

/// The item found for an id has that id.
pub proof fn law_found_item_has_id(items: Seq<MenuItemView>, id: Seq<char>, i: int)
    ensures
        find_by_id_from(items, id, i) is Some ==> find_by_id_from(items, id, i)->0.id == id,
    decreases items, items.len() - i,
{
    if 0 <= i < items.len() && items[i].id != id {
        if items[i].menu_item_type == MenuItemType::Submenu {
            match items[i].items {
                Some(children) => {
                    assert(decreases_to!(items => items[i]));
                    law_found_item_has_id(children, id, 0);
                },
                None => {},
            }
        }
        law_found_item_has_id(items, id, i + 1);
    }
}

/// Following the path found for a uuid leads to an item with that uuid.
pub proof fn law_path_leads_to_uuid(items: Seq<MenuItemView>, uuid: u16, i: int)
    ensures
        path_of_uuid_from(items, uuid, i) is Some ==> {
            let p = path_of_uuid_from(items, uuid, i)->0;
            p.len() >= 1 && item_at_path(items, p) is Some && item_at_path(items, p)->0.uuid == uuid
        },
    decreases items, items.len() - i,
{
    if 0 <= i < items.len() && items[i].uuid != uuid {
        if items[i].menu_item_type == MenuItemType::Submenu {
            match items[i].items {
                Some(children) => {
                    assert(decreases_to!(items => items[i]));
                    law_path_leads_to_uuid(children, uuid, 0);
                    if path_of_uuid_from(children, uuid, 0) is Some {
                        let q = path_of_uuid_from(children, uuid, 0)->0;
                        let p = seq![i] + q;
                        assert(q.len() >= 1);
                        assert(p.drop_first() =~= q);
                        assert(p[0] == i);
                        assert(p.len() >= 2);
                        assert(item_at_path(items, p) == item_at_path(children, q));
                    }
                },
                None => {},
            }
        }
        law_path_leads_to_uuid(items, uuid, i + 1);
    } else if 0 <= i < items.len() {
        let p = seq![i];
        assert(item_at_path(items, p) == Some(items[i]));
    }
}

/// The list of items at `prefix` in an item tree: the tree itself for an
/// empty prefix, else the items of the submenu item reached.
pub open spec fn list_at(items: Seq<MenuItemView>, prefix: Seq<int>) -> Option<Seq<MenuItemView>> {
    if prefix.len() == 0 {
        Some(items)
    } else {
        match item_at_path(items, prefix) {
            Some(it) => it.items,
            None => None,
        }
    }
}

/// Removing the item at a path takes it out of the list that held it (the
/// submenu on the way, or the top level) and leaves that list otherwise as
/// it was.
pub proof fn law_removed_from_holder(items: Seq<MenuItemView>, path: Seq<int>)
    requires
        item_at_path(items, path) is Some,
    ensures
        list_at(items, path.drop_last()) is Some,
        list_at(tree_remove(items, path), path.drop_last()) == Some(
            list_at(items, path.drop_last())->0.remove(path.last()),
        ),
    decreases path.len(),
{
    if path.len() >= 2 {
        let c = items[path[0]].items->0;
        let q = path.drop_first();
        assert(item_at_path(items, path) == item_at_path(c, q));
        law_removed_from_holder(c, q);
        let after = tree_remove(items, path);
        assert(after == items.update(path[0], MenuItemView { items: Some(tree_remove(c, q)), ..items[path[0]] }));
        if q.len() == 1 {
            assert(path.drop_last() =~= seq![path[0]]);
            assert(q.drop_last() =~= Seq::<int>::empty());
            assert(path.last() == q.last());
        } else {
            let d = path.drop_last();
            assert(d.drop_first() =~= q.drop_last());
            assert(d.len() >= 2);
            assert(d[0] == path[0]);
            assert(item_at_path(items, d) == item_at_path(c, q.drop_last()));
            assert(item_at_path(after, d) == item_at_path(tree_remove(c, q), q.drop_last()));
            assert(path.last() == q.last());
        }
    } else {
        assert(path.drop_last() =~= Seq::<int>::empty());
    }
}

/// A menu built from a configuration keeps it, with round corners turned
/// off before Windows 11, and starts in the configured theme.
pub proof fn law_built_from_config(
    config: MenuConfig,
    is_win11: bool,
    b: MenuBuilder,
    data: MenuData,
    texts: Seq<TextSize>,
    check_svg_size: i32,
    submenu_svg_size: i32,
)
    requires
        b.theme == config.theme,
        b.config == (MenuConfig { corner: effective_corner(config.corner, is_win11), ..config }),
        built_state(data, b, texts, check_svg_size, submenu_svg_size),
    ensures
        data.config.corner == if !is_win11 && config.corner == Corner::Round {
            Corner::DoNotRound
        } else {
            config.corner
        },
        data.config == (MenuConfig { corner: data.config.corner, ..config }),
        data.current_theme == config.theme,
{
}

/// A theme handed to the submenus of a menu reaches each of them and
/// changes nothing else in their states.
pub proof fn law_submenus_take_theme(before: Seq<MenuData>, after: Seq<MenuData>, theme: Theme, k: int)
    requires
        all_take_theme(before, after, theme),
        0 <= k < before.len(),
    ensures
        after[k].current_theme == theme,
        after[k].items == before[k].items,
        after[k].config == before[k].config,
{
    assert(after[k] == (MenuData { current_theme: theme, ..before[k] }));
}
/// The item at a path is the entry, at the path's last position, of the
/// list that holds it.
proof fn lemma_item_in_holder(items: Seq<MenuItemView>, path: Seq<int>)
    requires
        item_at_path(items, path) is Some,
    ensures
        list_at(items, path.drop_last()) is Some,
        0 <= path.last() < list_at(items, path.drop_last())->0.len(),
        list_at(items, path.drop_last())->0[path.last()] == item_at_path(items, path)->0,
    decreases path.len(),
{
    if path.len() >= 2 {
        let c = items[path[0]].items->0;
        let q = path.drop_first();
        assert(item_at_path(items, path) == item_at_path(c, q));
        lemma_item_in_holder(c, q);
        if q.len() == 1 {
            assert(path.drop_last() =~= seq![path[0]]);
            assert(q.drop_last() =~= Seq::<int>::empty());
        } else {
            let d = path.drop_last();
            assert(d.drop_first() =~= q.drop_last());
            assert(item_at_path(items, d) == item_at_path(c, q.drop_last()));
        }
        assert(path.last() == q.last());
    } else {
        assert(path.drop_last() =~= Seq::<int>::empty());
    }
}

/// Removing an item that sits in a submenu keeps every top-level item, in
/// order, and takes the item out of the submenu that held it, which keeps
/// its other items in order; when the items of that submenu have distinct
/// uuids, none with the removed uuid is left there.
pub proof fn law_remove_from_submenu(
    before: Seq<MenuItemView>,
    uuid: u16,
    r: Option<(MenuItemView, usize)>,
    after: Seq<MenuItemView>,
)
    requires
        removed_from_tree(before, uuid, r, after),
        path_of_uuid_from(before, uuid, 0) is Some,
        path_of_uuid_from(before, uuid, 0)->0.len() >= 2,
    ensures
        ({
            let p = path_of_uuid_from(before, uuid, 0)->0;
            let holder = list_at(before, p.drop_last())->0;
            let kept = holder.remove(p.last());
            &&& after.len() == before.len()
            &&& forall|i: int| 0 <= i < before.len() ==> #[trigger] after[i].uuid == before[i].uuid
            &&& list_at(before, p.drop_last()) is Some
            &&& list_at(after, p.drop_last()) == Some(kept)
            &&& forall|j: int| 0 <= j < holder.len() && holder[j].uuid != uuid ==> kept.contains(#[trigger] holder[j])
            &&& (forall|a: int, b: int| 0 <= a < b < holder.len() ==> holder[a].uuid != holder[b].uuid) ==> forall|
                k: int,
            |
                0 <= k < kept.len() ==> #[trigger] kept[k].uuid != uuid
        }),
{
    let p = path_of_uuid_from(before, uuid, 0)->0;
    law_path_leads_to_uuid(before, uuid, 0);
    law_removed_from_holder(before, p);
    lemma_item_in_holder(before, p);
    let holder = list_at(before, p.drop_last())->0;
    let kept = holder.remove(p.last());
    let c = before[p[0]].items->0;
    assert(item_at_path(before, p) == item_at_path(c, p.drop_first()));
    assert(after == before.update(
        p[0],
        MenuItemView { items: Some(tree_remove(c, p.drop_first())), ..before[p[0]] },
    ));
    assert forall|j: int| 0 <= j < holder.len() && holder[j].uuid != uuid implies kept.contains(#[trigger] holder[j]) by {
        if j < p.last() {
            assert(kept[j] == holder[j]);
        } else {
            assert(j != p.last());
            assert(kept[j - 1] == holder[j]);
        }
    }
    if forall|a: int, b: int| 0 <= a < b < holder.len() ==> holder[a].uuid != holder[b].uuid {
        assert forall|k: int| 0 <= k < kept.len() implies #[trigger] kept[k].uuid != uuid by {
            if k < p.last() {
                assert(kept[k] == holder[k]);
                assert(holder[k].uuid != holder[p.last()].uuid);
            } else {
                assert(kept[k] == holder[k + 1]);
                assert(holder[p.last()].uuid != holder[k + 1].uuid);
            }
        }
    }
}

/// Removing the item at `index` and laying the menu out again keeps the
/// other items in order, and each item's index is then its position.
pub proof fn law_remove_at_keeps_order(
    before: MenuData,
    index: int,
    texts: Seq<TextSize>,
    after: MenuData,
)
    requires
        0 <= index < before.items.len(),
        before.items.len() <= u32::MAX,
        relaid(before, data_items(before).remove(index), texts, after, true),
    ensures
        after.items.len() + 1 == before.items.len(),
        forall|i: int|
            0 <= i < after.items.len() ==> (#[trigger] after.items@[i]).uuid == if i < index {
                before.items@[i].uuid
            } else {
                before.items@[i + 1].uuid
            },
        indexed(after),
{
    let changed = data_items(before).remove(index);
    let mid = choose|mid: Seq<MenuItem>| items_view(mid) == changed && #[trigger] relaid_with(before, mid, texts, after, true);
    let sp = crate::layout::spec_icon_space(mid, before.config.icon.horizontal_margin, before.check_svg_size, before.submenu_svg_size);
    assert(data_items(before).len() == before.items.len());
    assert(items_view(mid).len() == mid.len());
    assert(after.items.len() == mid.len());
    assert forall|i: int| 0 <= i < after.items.len() implies (#[trigger] after.items@[i]).uuid == if i < index {
        before.items@[i].uuid
    } else {
        before.items@[i + 1].uuid
    } && after.items@[i].index == i by {
        assert(after.items@[i]@ == crate::layout::laid_out(mid, texts, before.config, sp, i));
        assert(items_view(mid)[i] == mid[i]@);
        if i < index {
            assert(data_items(before)[i] == before.items@[i]@);
        } else {
            assert(data_items(before)[i + 1] == before.items@[i + 1]@);
        }
    }
}

/// Adding an item at position `p` and laying the menu out again puts it
/// there, keeps the other items in order, and each item's index is then
/// its position; a checked radio item added is the checked one of its group.
pub proof fn law_add_keeps_order(
    before: MenuData,
    item: MenuItemView,
    p: int,
    texts: Seq<TextSize>,
    after: MenuData,
)
    requires
        0 <= p <= before.items.len(),
        before.items.len() < u32::MAX,
        relaid(before, after_add(data_items(before), item, p), texts, after, true),
    ensures
        after.items.len() == before.items.len() + 1,
        after.items@[p].uuid == item.uuid,
        forall|i: int|
            0 <= i < after.items.len() && i != p ==> (#[trigger] after.items@[i]).uuid == if i < p {
                before.items@[i].uuid
            } else {
                before.items@[i - 1].uuid
            },
        indexed(after),
        item.menu_item_type == MenuItemType::Radio && item.checked ==> {
            &&& after.items@[p].checked
            &&& forall|j: int|
                0 <= j < after.items.len() && j != p && (#[trigger] after.items@[j]).menu_item_type
                    == MenuItemType::Radio && after.items@[j].name@ == item.name ==> !after.items@[j].checked
        },
{
    let changed = after_add(data_items(before), item, p);
    let inserted = data_items(before).insert(p, item);
    let mid = choose|mid: Seq<MenuItem>| items_view(mid) == changed && #[trigger] relaid_with(before, mid, texts, after, true);
    let sp = crate::layout::spec_icon_space(mid, before.config.icon.horizontal_margin, before.check_svg_size, before.submenu_svg_size);
    assert(data_items(before).len() == before.items.len());
    assert(inserted.len() == before.items.len() + 1);
    assert(changed.len() == inserted.len());
    assert(items_view(mid).len() == mid.len());
    assert(after.items.len() == mid.len());
    assert forall|i: int| 0 <= i < after.items.len() implies (#[trigger] after.items@[i])@ == MenuItemView {
        index: after.items@[i].index,
        left: after.items@[i].left,
        top: after.items@[i].top,
        right: after.items@[i].right,
        bottom: after.items@[i].bottom,
        ..changed[i]
    } && after.items@[i].index == i by {
        assert(after.items@[i]@ == crate::layout::laid_out(mid, texts, before.config, sp, i));
        assert(items_view(mid)[i] == mid[i]@);
    }
    assert forall|i: int| 0 <= i < after.items.len() implies (#[trigger] changed[i]).uuid == inserted[i].uuid
        && changed[i].menu_item_type == inserted[i].menu_item_type && changed[i].name == inserted[i].name by {
        if item.menu_item_type == MenuItemType::Radio && item.checked {
            assert(changed == after_toggle_radio(inserted, p));
        }
    }
    assert(after.items@[p]@.uuid == changed[p].uuid);
    assert forall|i: int| 0 <= i < after.items.len() && i != p implies (#[trigger] after.items@[i]).uuid == if i < p {
        before.items@[i].uuid
    } else {
        before.items@[i - 1].uuid
    } by {
        assert(after.items@[i]@.uuid == changed[i].uuid);
        if i < p {
            assert(data_items(before)[i] == before.items@[i]@);
        } else {
            assert(data_items(before)[i - 1] == before.items@[i - 1]@);
        }
    }
    if item.menu_item_type == MenuItemType::Radio && item.checked {
        assert(after.items@[p]@.checked == changed[p].checked);
        assert forall|j: int|
            0 <= j < after.items.len() && j != p && (#[trigger] after.items@[j]).menu_item_type == MenuItemType::Radio
                && after.items@[j].name@ == item.name implies !after.items@[j].checked by {
            assert(after.items@[j]@.checked == changed[j].checked);
            assert(after.items@[j]@.name == changed[j].name);
        }
    }
}

/// An item that has an icon, other than a separator, is as wide as its text,
/// its two paddings, the whole check slot, the whole icon slot and the whole
/// arrow slot, with room for its accelerator when it has one; whether icon
/// space is reserved makes no difference to it.
pub proof fn law_icon_item_width(item: MenuItem, text: TextSize, c: MenuConfig, sp: IconSpace)
    requires
        item.icon is Some,
        item.menu_item_type != MenuItemType::Separator,
    ensures
        item_extent(item, text, c, sp).0 == text.width + 2 * c.size.item_horizontal_padding + (sp.left.width
            + sp.left.lmargin + sp.left.rmargin) + (sp.mid.width + sp.mid.lmargin + sp.mid.rmargin) + (sp.right.width
            + sp.right.lmargin + sp.right.rmargin) + (if item.accelerator@.len() > 0 {
            4 + 6
        } else {
            0
        }),
        item_extent(item, text, c, sp).0 == item_extent(
            item,
            text,
            MenuConfig { icon: crate::config::IconSettings { reserve_icon_size: !c.icon.reserve_icon_size, ..c.icon }, ..c },
            sp,
        ).0,
{
}

/// An item without an icon gets the icon slot only when icon space is
/// reserved: reserving it makes the item wider by exactly that slot.
pub proof fn law_reserved_icon_slot(item: MenuItem, text: TextSize, c: MenuConfig, sp: IconSpace)
    requires
        item.icon is None,
        item.menu_item_type != MenuItemType::Separator,
        !c.icon.reserve_icon_size,
    ensures
        item_extent(
            item,
            text,
            MenuConfig { icon: crate::config::IconSettings { reserve_icon_size: true, ..c.icon }, ..c },
            sp,
        ).0 == item_extent(item, text, c, sp).0 + sp.mid.width + sp.mid.lmargin + sp.mid.rmargin,
{
}

/// A submenu opens to the left of its menu when the menu was placed right to
/// left, its right edge `submenu_offset` inside the menu's left edge, and
/// otherwise to the right, `submenu_offset` from the menu's right edge;
/// whether the menu opened upward plays no part in that side.
pub proof fn law_submenu_side(
    menu_rect: Rect,
    item_top: int,
    client_bottom_y: int,
    submenu: (int, int),
    pt: DisplayPoint,
    size: MenuSize,
    corner: Corner,
)
    ensures
        ({
            let p = spec_submenu_position(menu_rect, item_top, client_bottom_y, submenu, pt, size, corner);
            &&& pt.rtl ==> p.0 + submenu.0 + size.submenu_offset == menu_rect.left
            &&& !pt.rtl ==> p.0 == menu_rect.right + size.submenu_offset
            &&& p.0 == spec_submenu_position(
                menu_rect,
                item_top,
                client_bottom_y,
                submenu,
                DisplayPoint { reverse: !pt.reverse, ..pt },
                size,
                corner,
            ).0
            &&& p.1 == spec_submenu_position(
                menu_rect,
                item_top,
                client_bottom_y,
                submenu,
                DisplayPoint { rtl: !pt.rtl, ..pt },
                size,
                corner,
            ).1
        }),
{
}

/// A parsed Windows accelerator always marks its key as a virtual key, and
/// each modifier flag is set exactly when its modifier is one of the pieces
/// of the text, each independently of the others; no other flag is set.
pub proof fn law_accelerator_flags(accel: Seq<char>, upper: Seq<char>)
    ensures
        spec_windows_accel(accel, upper) matches Some(a) ==> {
            let pieces = split_on(upper, '+');
            &&& a.virt & FVIRTKEY != 0
            &&& (a.virt & FCONTROL != 0) == pieces.contains("CTRL"@)
            &&& (a.virt & FALT != 0) == pieces.contains("ALT"@)
            &&& (a.virt & FSHIFT != 0) == pieces.contains("SHIFT"@)
            &&& a.virt & !(FVIRTKEY | FCONTROL | FALT | FSHIFT) == 0
        },
{
    if spec_windows_accel(accel, upper) is Some {
        let pieces = split_on(upper, '+');
        let a = spec_windows_accel(accel, upper)->0;
        let c: u8 = if pieces.contains("CTRL"@) { 8 } else { 0 };
        let al: u8 = if pieces.contains("ALT"@) { 16 } else { 0 };
        let sh: u8 = if pieces.contains("SHIFT"@) { 4 } else { 0 };
        assert(a.virt == 1 + c + al + sh);
        lemma_flag_bits(a.virt, c, al, sh);
        assert(FVIRTKEY == 1 && FCONTROL == 8 && FALT == 16 && FSHIFT == 4);
        assert((1u8 | 8u8 | 16u8 | 4u8) == 29u8) by (bit_vector);
    }
}

proof fn lemma_flag_bits(v: u8, c: u8, al: u8, sh: u8)
    by (bit_vector)
    requires
        c == 8 || c == 0,
        al == 16 || al == 0,
        sh == 4 || sh == 0,
        v == 1 + c + al + sh,
    ensures
        v & 1 != 0,
        (v & 8 != 0) == (c == 8),
        (v & 16 != 0) == (al == 16),
        (v & 4 != 0) == (sh == 4),
        v & !29u8 == 0,
{
}

/// When the application changes its theme and no theme is asked for, a main
/// menu that does not follow the system turns dark exactly when the
/// application is dark, and light otherwise; one that follows the system
/// keeps following it.
pub proof fn law_app_theme_followed(current: Theme, app_dark: bool)
    ensures
        current != Theme::System ==> spec_theme_after_change(
            MenuType::Main,
            current,
            None,
            ThemeChangeFactor::App,
            app_dark,
        ) == Some(if app_dark {
            Theme::Dark
        } else {
            Theme::Light
        }),
        current == Theme::System ==> spec_theme_after_change(
            MenuType::Main,
            current,
            None,
            ThemeChangeFactor::App,
            app_dark,
        ) == Some(Theme::System),
        spec_theme_after_change(MenuType::Main, current, None, ThemeChangeFactor::App, true) != spec_theme_after_change(
            MenuType::Main,
            current,
            None,
            ThemeChangeFactor::App,
            false,
        ) <==> current != Theme::System,
{
}

/// A separator is as high as its stroke with the item padding above and
/// below; any other item is as high as the taller of its text and the check
/// and arrow images, with the same paddings.
pub proof fn law_item_height(item: MenuItem, text: TextSize, c: MenuConfig, sp: IconSpace)
    ensures
        item.menu_item_type == MenuItemType::Separator ==> item_extent(item, text, c, sp).1 == c.size.separator_size
            + 2 * c.size.item_vertical_padding,
        item.menu_item_type != MenuItemType::Separator ==> {
            let h = item_extent(item, text, c, sp).1 - 2 * c.size.item_vertical_padding;
            &&& h >= text.height && h >= -text.height
            &&& h >= sp.left.width && h >= sp.right.width
            &&& (h == text.height || h == -text.height || h == sp.left.width || h == sp.right.width)
        },
        item.menu_item_type == MenuItemType::Separator ==> item_extent(item, text, c, sp).0 == 0,
{
}

/// A submenu that opens downward has its first item level with the item it
/// belongs to, the menu's padding, round corner and border above it; one
/// that opens upward ends level with the bottom of that item, with twice the
/// padding, the corner and the border below.
pub proof fn law_submenu_height(
    menu_rect: Rect,
    item_top: int,
    client_bottom_y: int,
    submenu: (int, int),
    pt: DisplayPoint,
    size: MenuSize,
    corner: Corner,
)
    ensures
        ({
            let y = spec_submenu_position(menu_rect, item_top, client_bottom_y, submenu, pt, size, corner).1;
            let round = if corner == Corner::Round { 8int } else { 0int };
            &&& !pt.reverse ==> y + size.vertical_padding + round + size.border_size == menu_rect.top + item_top
            &&& pt.reverse ==> y + submenu.1 == client_bottom_y + 2 * size.vertical_padding + round
                + size.border_size
        }),
{
}

/// A Windows accelerator is read from the last piece of its text: there is
/// none when that piece is a modifier or names no key, and otherwise its key
/// is the key that piece names.
pub proof fn law_accelerator_key(accel: Seq<char>, upper: Seq<char>)
    ensures
        ({
            let last = split_on(upper, '+').last();
            let key = spec_virtual_key(split_on(accel, '+').last());
            &&& (last == "CTRL"@ || last == "ALT"@ || last == "SHIFT"@) ==> spec_windows_accel(accel, upper) is None
            &&& !(last == "CTRL"@ || last == "ALT"@ || last == "SHIFT"@) ==> (spec_windows_accel(accel, upper) is Some
                <==> key != 0)
            &&& spec_windows_accel(accel, upper) matches Some(a) ==> a.key == key
        }),
{
}

} // verus!
