//! The state of a menu window and the rules that change it: radio groups,
//! check items, selection, submenus, adding and removing items, searching
//! the item tree.
use vstd::prelude::*;
use crate::config::{MenuConfig, Theme};
use crate::layout::{calculate, get_icon_space, IconSpace, Size, TextSize, laid_out, layout_fits, menu_size, spec_icon_space};
use crate::menu_item::{icon_view, items_view, lemma_children_view, Menu, MenuIcon, MenuItem, MenuItemType, MenuItemView, MenuType};
use crate::text::str_to_string;
use std::collections::HashMap;

verus! {

/// The state of a menu window.
#[derive(Debug)]
pub struct MenuData {
    pub menu_type: MenuType,
    pub items: Vec<MenuItem>,
    pub win_subclass_id: Option<u32>,
    /// Position of the item under the pointer, or -1.
    pub selected_index: i32,
    pub size: Size,
    pub icon_space: IconSpace,
    /// Position of the submenu item whose submenu is shown, or -1.
    pub visible_submenu_index: i32,
    pub current_theme: Theme,
    pub config: MenuConfig,
    /// Window of the main menu for a submenu, 0 for a main menu.
    pub parent: isize,
    /// Accelerators of the items of a main menu and of its submenus.
    pub accelerators: HashMap<u16, String>,
    /// Width of the check-mark image.
    pub check_svg_size: i32,
    /// Width of the submenu-arrow image.
    pub submenu_svg_size: i32,
    /// Whether the menu is being shown.
    pub visible: bool,
}

/// The views of the items of a menu.
pub open spec fn data_items(data: MenuData) -> Seq<MenuItemView> {
    items_view(data.items@)
}

/// Whether two menu states agree on everything but their items.
pub open spec fn same_but_items(a: MenuData, b: MenuData) -> bool {
    &&& a.menu_type == b.menu_type
    &&& a.win_subclass_id == b.win_subclass_id
    &&& a.selected_index == b.selected_index
    &&& a.size == b.size
    &&& a.icon_space == b.icon_space
    &&& a.visible_submenu_index == b.visible_submenu_index
    &&& a.current_theme == b.current_theme
    &&& a.config == b.config
    &&& a.parent == b.parent
    &&& a.accelerators == b.accelerators
    &&& a.check_svg_size == b.check_svg_size
    &&& a.submenu_svg_size == b.submenu_svg_size
    &&& a.visible == b.visible
}

/// The items after radio item `index` is checked: it is checked and every
/// other radio item of its group (same name) is unchecked.
pub open spec fn after_toggle_radio(items: Seq<MenuItemView>, index: int) -> Seq<MenuItemView> {
    Seq::new(
        items.len(),
        |j: int|
            if j == index {
                MenuItemView { checked: true, ..items[j] }
            } else if items[j].menu_item_type == MenuItemType::Radio && items[j].name == items[index].name {
                MenuItemView { checked: false, ..items[j] }
            } else {
                items[j]
            },
    )
}

proof fn lemma_items_view_update(v: Seq<MenuItem>, i: int, x: MenuItem)
    requires
        0 <= i < v.len(),
    ensures
        items_view(v.update(i, x)) == items_view(v).update(i, x@),
{
    assert(items_view(v.update(i, x)) =~= items_view(v).update(i, x@));
}

fn set_item_checked(items: &mut Vec<MenuItem>, i: usize, checked: bool)
    requires
        i < old(items).len(),
    ensures
        final(items).len() == old(items).len(),
        final(items)@[i as int]@ == (MenuItemView { checked, ..old(items)@[i as int]@ }),
        items_view(final(items)@) == items_view(old(items)@).update(
            i as int,
            MenuItemView { checked, ..old(items)@[i as int]@ },
        ),
        forall|k: int| 0 <= k < old(items).len() && k != i ==> final(items)@[k] == old(items)@[k],
{
    let ghost before = items@;
    items[i].checked = checked;
    proof {
        lemma_items_view_update(before, i as int, items@[i as int]);
    }
}

/// Checks radio item `index` and unchecks the other radio items of its group.
pub fn toggle_radio(data: &mut MenuData, index: usize)
    requires
        index < old(data).items.len(),
    ensures
        final(data).items.len() == old(data).items.len(),
        data_items(*final(data)) == after_toggle_radio(data_items(*old(data)), index as int),
        same_but_items(*final(data), *old(data)),
{
    let ghost old_items = data_items(*data);
    set_item_checked(&mut data.items, index, true);
    let mut i: usize = 0;
    while i < data.items.len()
        invariant
            data.items.len() == old_items.len(),
            index < old_items.len(),
            i <= data.items.len(),
            same_but_items(*data, *old(data)),
            old_items == data_items(*old(data)),
            forall|k: int|
                0 <= k < i || k == index ==> #[trigger] data_items(*data)[k] == after_toggle_radio(
                    old_items,
                    index as int,
                )[k],
            forall|k: int|
                i <= k < old_items.len() && k != index ==> #[trigger] data_items(*data)[k] == old_items[k],
            data_items(*data)[index as int].name == old_items[index as int].name,
        decreases data.items.len() - i,
    {
        proof {
            assert(data_items(*data)[i as int] == data.items@[i as int]@);
            assert(data_items(*data)[index as int] == data.items@[index as int]@);
        }
        if data.items[i].menu_item_type == MenuItemType::Radio && i != index && crate::text::str_eq(
            data.items[i].name.as_str(),
            data.items[index].name.as_str(),
        ) {
            set_item_checked(&mut data.items, i, false);
        }
        i += 1;
    }
    proof {
        assert(data_items(*data) =~= after_toggle_radio(old_items, index as int));
    }
}

/// Whether a click on item `index` selects it: submenu items, items that are
/// not shown and disabled items are not selected.
pub open spec fn selectable(item: MenuItemView) -> bool {
    item.menu_item_type != MenuItemType::Submenu && item.visible && !item.disabled
}

/// The items after a click on item `index` selected it: a radio item
/// becomes the checked one of its group, a check item flips.
pub open spec fn after_select(items: Seq<MenuItemView>, index: int) -> Seq<MenuItemView> {
    if items[index].menu_item_type == MenuItemType::Radio {
        after_toggle_radio(items, index)
    } else if items[index].menu_item_type == MenuItemType::Checkbox {
        items.update(index, MenuItemView { checked: !items[index].checked, ..items[index] })
    } else {
        items
    }
}

/// Handles a click on item `index`; returns whether the item was selected.
pub fn on_menu_item_selected(data: &mut MenuData, index: usize) -> (selected: bool)
    requires
        index < old(data).items.len(),
    ensures
        selected == selectable(data_items(*old(data))[index as int]),
        selected ==> data_items(*final(data)) == after_select(data_items(*old(data)), index as int),
        !selected ==> data_items(*final(data)) == data_items(*old(data)),
        same_but_items(*final(data), *old(data)),
{
    proof {
        assert(data_items(*data)[index as int] == data.items@[index as int]@);
    }
    if data.items[index].menu_item_type == MenuItemType::Submenu {
        return false;
    }
    if !data.items[index].visible {
        return false;
    }
    if data.items[index].disabled {
        return false;
    }
    if data.items[index].menu_item_type == MenuItemType::Radio {
        toggle_radio(data, index);
    } else if data.items[index].menu_item_type == MenuItemType::Checkbox {
        let checked = !data.items[index].checked;
        set_item_checked(&mut data.items, index, checked);
    }
    true
}

impl MenuData {
    /// Sets whether item `index` is checked: a check item takes the value,
    /// a radio item becomes the checked one of its group whatever the value,
    /// other items are left as they are.
    pub fn set_checked(&mut self, index: usize, checked: bool)
        requires
            index < old(self).items.len(),
        ensures
            same_but_items(*final(self), *old(self)),
            data_items(*final(self)) == if data_items(*old(self))[index as int].menu_item_type
                == MenuItemType::Checkbox {
                data_items(*old(self)).update(
                    index as int,
                    MenuItemView { checked, ..data_items(*old(self))[index as int] },
                )
            } else if data_items(*old(self))[index as int].menu_item_type == MenuItemType::Radio {
                after_toggle_radio(data_items(*old(self)), index as int)
            } else {
                data_items(*old(self))
            },
    {
        if self.items[index].menu_item_type == MenuItemType::Checkbox {
            set_item_checked(&mut self.items, index, checked);
        } else if self.items[index].menu_item_type == MenuItemType::Radio {
            toggle_radio(self, index);
        }
    }

    fn put_label(&mut self, index: usize, label: &str)
        requires
            index < old(self).items.len(),
        ensures
            final(self).items.len() == old(self).items.len(),
            same_but_items(*final(self), *old(self)),
            data_items(*final(self)) == data_items(*old(self)).update(
                index as int,
                MenuItemView { label: label@, ..data_items(*old(self))[index as int] },
            ),
    {
        let ghost before = self.items@;
        self.items[index].label = str_to_string(label);
        proof {
            lemma_items_view_update(before, index as int, self.items@[index as int]);
        }
    }

    /// Sets whether item `index` is disabled.
    pub fn set_disabled(&mut self, index: usize, disabled: bool)
        requires
            index < old(self).items.len(),
        ensures
            same_but_items(*final(self), *old(self)),
            data_items(*final(self)) == data_items(*old(self)).update(
                index as int,
                MenuItemView { disabled, ..data_items(*old(self))[index as int] },
            ),
    {
        let ghost before = self.items@;
        self.items[index].disabled = disabled;
        proof {
            lemma_items_view_update(before, index as int, self.items@[index as int]);
        }
    }

    fn put_visible(&mut self, index: usize, visible: bool)
        requires
            index < old(self).items.len(),
        ensures
            final(self).items.len() == old(self).items.len(),
            same_but_items(*final(self), *old(self)),
            data_items(*final(self)) == data_items(*old(self)).update(
                index as int,
                MenuItemView { visible, ..data_items(*old(self))[index as int] },
            ),
    {
        let ghost before = self.items@;
        self.items[index].visible = visible;
        proof {
            lemma_items_view_update(before, index as int, self.items@[index as int]);
        }
    }

    fn put_icon(&mut self, index: usize, icon: Option<MenuIcon>)
        requires
            index < old(self).items.len(),
        ensures
            final(self).items.len() == old(self).items.len(),
            same_but_items(*final(self), *old(self)),
            data_items(*final(self)) == data_items(*old(self)).update(
                index as int,
                MenuItemView { icon: icon_view(icon), ..data_items(*old(self))[index as int] },
            ),
    {
        let ghost before = self.items@;
        self.items[index].icon = icon;
        proof {
            lemma_items_view_update(before, index as int, self.items@[index as int]);
        }
    }

    /// Computes the icon slots, lays the items out and stores the size of the
    /// menu; `texts` holds the measured text of each item. When the layout
    /// does not fit in `i32` coordinates, returns false and changes nothing.
    pub fn recalculate(&mut self, texts: &Vec<TextSize>) -> (ok: bool)
        requires
            texts.len() == old(self).items.len(),
            old(self).items.len() <= u32::MAX,
        ensures
            ({
                let sp = spec_icon_space(
                    old(self).items@,
                    old(self).config.icon.horizontal_margin,
                    old(self).check_svg_size,
                    old(self).submenu_svg_size,
                );
                &&& ok == layout_fits(old(self).items@, texts@, old(self).config, sp)
                &&& !ok ==> *final(self) == *old(self)
                &&& ok ==> {
                    &&& final(self).icon_space == sp
                    &&& final(self).size == menu_size(old(self).items@, texts@, old(self).config, sp)
                    &&& final(self).items.len() == old(self).items.len()
                    &&& forall|i: int|
                        0 <= i < old(self).items.len() ==> (#[trigger] final(self).items@[i])@ == laid_out(
                            old(self).items@,
                            texts@,
                            old(self).config,
                            sp,
                            i,
                        )
                    &&& same_but_items(
                        *final(self),
                        MenuData { icon_space: final(self).icon_space, size: final(self).size, ..*old(self) },
                    )
                }
            }),
    {
        let sp = get_icon_space(&self.items, &self.config.icon, self.check_svg_size, self.submenu_svg_size);
        match calculate(&mut self.items, &self.config, sp, texts) {
            Some(size) => {
                self.icon_space = sp;
                self.size = size;
                true
            },
            None => false,
        }
    }
}

/// Whether every item's stored index is its position.
pub open spec fn indexed(data: MenuData) -> bool {
    forall|i: int| 0 <= i < data.items.len() ==> (#[trigger] data.items@[i]).index == i
}

/// Whether `after` is `before` with its items replaced by `mid` and laid out
/// again after the measured `texts`. `ok` tells whether that layout fits in
/// `i32` coordinates; when it does not, the items are `mid` as they are.
pub open spec fn relaid_with(
    before: MenuData,
    mid: Seq<MenuItem>,
    texts: Seq<TextSize>,
    after: MenuData,
    ok: bool,
) -> bool {
    let sp = spec_icon_space(mid, before.config.icon.horizontal_margin, before.check_svg_size, before.submenu_svg_size);
    &&& after.items.len() == mid.len()
    &&& ok == layout_fits(mid, texts, before.config, sp)
    &&& ok ==> {
        &&& forall|i: int|
            0 <= i < mid.len() ==> (#[trigger] after.items@[i])@ == laid_out(mid, texts, before.config, sp, i)
        &&& same_but_items(
            after,
            MenuData { icon_space: sp, size: menu_size(mid, texts, before.config, sp), ..before },
        )
    }
    &&& !ok ==> after.items@ == mid && same_but_items(after, before)
}

/// Whether `after` is `before` with its items changed to `changed` and the
/// menu laid out again after the measured `texts`.
pub open spec fn relaid(
    before: MenuData,
    changed: Seq<MenuItemView>,
    texts: Seq<TextSize>,
    after: MenuData,
    ok: bool,
) -> bool {
    exists|mid: Seq<MenuItem>| items_view(mid) == changed && #[trigger] relaid_with(before, mid, texts, after, ok)
}

impl MenuData {
    /// Whether every item's stored index is its position.
    pub fn is_indexed(&self) -> (b: bool)
        ensures
            b == indexed(*self),
    {
        let mut i: usize = 0;
        while i < self.items.len()
            invariant
                i <= self.items.len(),
                forall|k: int| 0 <= k < i ==> (#[trigger] self.items@[k]).index == k,
            decreases self.items.len() - i,
        {
            if self.items[i].index as usize != i {
                return false;
            }
            i += 1;
        }
        true
    }

    fn relayout(&mut self, texts: &Vec<TextSize>, Ghost(before): Ghost<MenuData>) -> (ok: bool)
        requires
            texts.len() == old(self).items.len(),
            old(self).items.len() <= u32::MAX,
            same_but_items(*old(self), before),
        ensures
            relaid_with(before, old(self).items@, texts@, *final(self), ok),
            ok ==> indexed(*final(self)),
    {
        let ok = self.recalculate(texts);
        proof {
            if ok {
                assert forall|i: int| 0 <= i < self.items.len() implies (#[trigger] self.items@[i]).index == i by {
                    assert(self.items@[i]@.index == i as u32);
                }
            }
        }
        ok
    }

    /// Sets the label of item `index` and lays the menu out again; `texts`
    /// holds the measured text of each item with the new label. Returns
    /// whether the layout fits in `i32` coordinates.
    pub fn set_label(&mut self, index: usize, label: &str, texts: &Vec<TextSize>) -> (ok: bool)
        requires
            index < old(self).items.len(),
            texts.len() == old(self).items.len(),
            old(self).items.len() <= u32::MAX,
        ensures
            relaid(
                *old(self),
                data_items(*old(self)).update(
                    index as int,
                    MenuItemView { label: label@, ..data_items(*old(self))[index as int] },
                ),
                texts@,
                *final(self),
                ok,
            ),
            ok ==> indexed(*final(self)),
    {
        let ghost before = *self;
        self.put_label(index, label);
        let ghost mid = self.items@;
        let ok = self.relayout(texts, Ghost(before));
        proof {
            assert(relaid_with(before, mid, texts@, *self, ok));
        }
        ok
    }

    /// Sets whether item `index` is shown and lays the menu out again;
    /// `texts` holds the measured text of each item. Returns whether the
    /// layout fits in `i32` coordinates.
    pub fn set_visible(&mut self, index: usize, visible: bool, texts: &Vec<TextSize>) -> (ok: bool)
        requires
            index < old(self).items.len(),
            texts.len() == old(self).items.len(),
            old(self).items.len() <= u32::MAX,
        ensures
            relaid(
                *old(self),
                data_items(*old(self)).update(
                    index as int,
                    MenuItemView { visible, ..data_items(*old(self))[index as int] },
                ),
                texts@,
                *final(self),
                ok,
            ),
            ok ==> indexed(*final(self)),
    {
        let ghost before = *self;
        self.put_visible(index, visible);
        let ghost mid = self.items@;
        let ok = self.relayout(texts, Ghost(before));
        proof {
            assert(relaid_with(before, mid, texts@, *self, ok));
        }
        ok
    }

    /// Sets the icon of item `index` and lays the menu out again; `texts`
    /// holds the measured text of each item. Returns whether the layout fits
    /// in `i32` coordinates.
    pub fn set_icon(&mut self, index: usize, icon: Option<MenuIcon>, texts: &Vec<TextSize>) -> (ok: bool)
        requires
            index < old(self).items.len(),
            texts.len() == old(self).items.len(),
            old(self).items.len() <= u32::MAX,
        ensures
            relaid(
                *old(self),
                data_items(*old(self)).update(
                    index as int,
                    MenuItemView { icon: icon_view(icon), ..data_items(*old(self))[index as int] },
                ),
                texts@,
                *final(self),
                ok,
            ),
            ok ==> indexed(*final(self)),
    {
        let ghost before = *self;
        self.put_icon(index, icon);
        let ghost mid = self.items@;
        let ok = self.relayout(texts, Ghost(before));
        proof {
            assert(relaid_with(before, mid, texts@, *self, ok));
        }
        ok
    }
}

/// The items after `item` is added at position `p`: a checked radio item
/// becomes the checked one of its group.
pub open spec fn after_add(items: Seq<MenuItemView>, item: MenuItemView, p: int) -> Seq<MenuItemView> {
    let inserted = items.insert(p, item);
    if item.menu_item_type == MenuItemType::Radio && item.checked {
        after_toggle_radio(inserted, p)
    } else {
        inserted
    }
}

/// Position at which an item is added: the given one, or the end.
pub open spec fn add_position(len: int, index: Option<usize>) -> int {
    match index {
        Some(i) => i as int,
        None => len,
    }
}

impl MenuData {
    fn add_item(&mut self, item: MenuItem, index: Option<usize>, window_handle: isize)
        requires
            index is Some ==> index->0 <= old(self).items.len(),
        ensures
            same_but_items(*final(self), *old(self)),
            final(self).items.len() == old(self).items.len() + 1,
            data_items(*final(self)) == after_add(
                data_items(*old(self)),
                MenuItemView { menu_window_handle: window_handle, ..item@ },
                add_position(old(self).items.len() as int, index),
            ),
    {
        let mut item = item;
        item.menu_window_handle = window_handle;
        let ghost before = self.items@;
        let p = match index {
            Some(i) => i,
            None => self.items.len(),
        };
        let radio = item.menu_item_type == MenuItemType::Radio && item.checked;
        let ghost iv = item@;
        self.items.insert(p, item);
        proof {
            assert(items_view(self.items@) =~= items_view(before).insert(p as int, iv));
        }
        if radio {
            toggle_radio(self, p);
        }
    }

    fn take_at(&mut self, index: u32) -> (r: Option<MenuItem>)
        ensures
            same_but_items(*final(self), *old(self)),
            index >= old(self).items.len() ==> r is None && *final(self) == *old(self),
            index < old(self).items.len() ==> {
                &&& r is Some
                &&& r->0@ == data_items(*old(self))[index as int]
                &&& data_items(*final(self)) == data_items(*old(self)).remove(index as int)
                &&& final(self).items.len() + 1 == old(self).items.len()
            },
    {
        if index as usize >= self.items.len() {
            return None;
        }
        let ghost before = self.items@;
        let removed = self.items.remove(index as usize);
        proof {
            assert(items_view(self.items@) =~= items_view(before).remove(index as int));
        }
        Some(removed)
    }
}

impl Menu {
    /// The window whose state holds the theme of this menu: its own for a
    /// main menu, its main menu's for a submenu.
    pub fn theme_handle(&self) -> (h: isize)
        ensures
            h == if self.menu_type == MenuType::Main {
                self.window_handle
            } else {
                self.parent_window_handle
            },
    {
        if self.menu_type == MenuType::Main {
            self.window_handle
        } else {
            self.parent_window_handle
        }
    }

    /// The theme of this menu, read from the state of its theme window.
    pub fn theme(&self, data: &MenuData) -> (t: Theme)
        ensures
            t == data.current_theme,
    {
        data.current_theme
    }

    /// Adds a MenuItem to the end of MenuItems and lays the menu out again;
    /// `texts` holds the measured text of each item, the new one last.
    /// Returns whether the layout fits in `i32` coordinates.
    pub fn append(&mut self, data: &mut MenuData, item: MenuItem, texts: &Vec<TextSize>) -> (ok: bool)
        requires
            texts.len() == old(data).items.len() + 1,
            old(data).items.len() < u32::MAX,
        ensures
            *final(self) == *old(self),
            relaid(
                *old(data),
                after_add(
                    data_items(*old(data)),
                    MenuItemView { menu_window_handle: old(self).window_handle, ..item@ },
                    old(data).items.len() as int,
                ),
                texts@,
                *final(data),
                ok,
            ),
            ok ==> indexed(*final(data)),
    {
        let ghost before = *data;
        data.add_item(item, None, self.window_handle);
        let ghost mid = data.items@;
        let ok = data.relayout(texts, Ghost(before));
        proof {
            assert(relaid_with(before, mid, texts@, *data, ok));
        }
        ok
    }

    /// Adds a MenuItem at the specified index and lays the menu out again;
    /// `texts` holds the measured text of each item, the new one at `index`.
    /// Returns whether the layout fits in `i32` coordinates.
    pub fn insert(
        &mut self,
        data: &mut MenuData,
        item: MenuItem,
        index: u32,
        texts: &Vec<TextSize>,
    ) -> (ok: bool)
        requires
            index <= old(data).items.len(),
            texts.len() == old(data).items.len() + 1,
            old(data).items.len() < u32::MAX,
        ensures
            *final(self) == *old(self),
            relaid(
                *old(data),
                after_add(
                    data_items(*old(data)),
                    MenuItemView { menu_window_handle: old(self).window_handle, ..item@ },
                    index as int,
                ),
                texts@,
                *final(data),
                ok,
            ),
            ok ==> indexed(*final(data)),
    {
        let ghost before = *data;
        data.add_item(item, Some(index as usize), self.window_handle);
        let ghost mid = data.items@;
        let ok = data.relayout(texts, Ghost(before));
        proof {
            assert(relaid_with(before, mid, texts@, *data, ok));
        }
        ok
    }

    /// Removes the MenuItem at the specified index and lays the menu out
    /// again; `texts` holds the measured text of each item left. Returns the
    /// removed item with whether the layout fits in `i32` coordinates;
    /// `None`, with nothing changed, when there is no item there. The menu
    /// must hold an item.
    pub fn remove_at(&mut self, data: &mut MenuData, index: u32, texts: &Vec<TextSize>) -> (r: Option<(MenuItem, bool)>)
        requires
            old(data).items.len() > 0,
            index < old(data).items.len() ==> texts.len() + 1 == old(data).items.len(),
            old(data).items.len() <= u32::MAX,
        ensures
            *final(self) == *old(self),
            index >= old(data).items.len() ==> r is None && *final(data) == *old(data),
            index < old(data).items.len() ==> {
                &&& r is Some
                &&& (r->0).0@ == data_items(*old(data))[index as int]
                &&& relaid(
                    *old(data),
                    data_items(*old(data)).remove(index as int),
                    texts@,
                    *final(data),
                    (r->0).1,
                )
                &&& (r->0).1 ==> indexed(*final(data))
            },
    {
        let ghost before = *data;
        match data.take_at(index) {
            Some(removed) => {
                let ghost mid = data.items@;
                let ok = data.relayout(texts, Ghost(before));
                proof {
                    assert(relaid_with(before, mid, texts@, *data, ok));
                }
                Some((removed, ok))
            },
            None => None,
        }
    }

    /// Shows `data` as open or closed: the state flips.
    pub fn toggle_visible(&self, data: &mut MenuData)
        ensures
            *final(data) == (MenuData { visible: !old(data).visible, ..*old(data) }),
    {
        data.visible = !data.visible;
    }
}

/// Whether a point at height `y` falls on item `item`: a shown item that is
/// not a separator, between its top and bottom.
pub open spec fn hits(item: MenuItemView, y: int) -> bool {
    item.menu_item_type != MenuItemType::Separator && item.visible && item.top <= y <= item.bottom
}

/// Whether a point lies inside the menu.
pub open spec fn inside(size: Size, x: int, y: int) -> bool {
    0 <= x < size.width && 0 <= y < size.height
}

/// The position of the item under the point `(x, y)` of the menu, or -1:
/// the first item hit when the point is inside the menu.
fn position_from_point(data: &MenuData, x: i32, y: i32) -> (r: i32)
    requires
        data.items.len() <= i32::MAX,
    ensures
        -1 <= r < data.items.len(),
        r == -1 <==> !(inside(data.size, x as int, y as int) && exists|k: int|
            0 <= k < data.items.len() && hits(#[trigger] data_items(*data)[k], y as int)),
        r >= 0 ==> inside(data.size, x as int, y as int) && hits(data_items(*data)[r as int], y as int)
            && forall|j: int| 0 <= j < r ==> !hits(#[trigger] data_items(*data)[j], y as int),
{
    if !(x >= 0 && x < data.size.width && y >= 0 && y < data.size.height) {
        return -1;
    }
    let mut i: usize = 0;
    while i < data.items.len()
        invariant
            i <= data.items.len(),
            data.items.len() <= i32::MAX,
            inside(data.size, x as int, y as int),
            forall|j: int| 0 <= j < i ==> !hits(#[trigger] data_items(*data)[j], y as int),
        decreases data.items.len() - i,
    {
        let item = &data.items[i];
        proof {
            assert(data_items(*data)[i as int] == item@);
        }
        if !(item.menu_item_type == MenuItemType::Separator || !item.visible) {
            if y >= item.top && y <= item.bottom {
                return i as i32;
            }
        }
        i += 1;
    }
    -1
}

/// The position of the item whose top and bottom are those of the rectangle
/// to paint; `None` for the whole menu or when no item matches.
fn position_from_rect(data: &MenuData, top: i32, bottom: i32) -> (r: Option<i32>)
    requires
        data.items.len() <= i32::MAX,
    ensures
        top == 0 && bottom == data.size.height ==> r is None,
        !(top == 0 && bottom == data.size.height) ==> match r {
            Some(k) => 0 <= k < data.items.len() && data_items(*data)[k as int].top == top
                && data_items(*data)[k as int].bottom == bottom && forall|j: int|
                0 <= j < k ==> !(data_items(*data)[j].top == top && #[trigger] data_items(*data)[j].bottom
                    == bottom),
            None => forall|j: int|
                0 <= j < data.items.len() ==> !(data_items(*data)[j].top == top
                    && #[trigger] data_items(*data)[j].bottom == bottom),
        },
{
    if top == 0 && bottom == data.size.height {
        return None;
    }
    let mut i: usize = 0;
    while i < data.items.len()
        invariant
            i <= data.items.len(),
            data.items.len() <= i32::MAX,
            !(top == 0 && bottom == data.size.height),
            forall|j: int|
                0 <= j < i ==> !(data_items(*data)[j].top == top && #[trigger] data_items(*data)[j].bottom
                    == bottom),
        decreases data.items.len() - i,
    {
        proof {
            assert(data_items(*data)[i as int] == data.items@[i as int]@);
        }
        if data.items[i].top == top && data.items[i].bottom == bottom {
            return Some(i as i32);
        }
        i += 1;
    }
    None
}

/// The stored index of the item under the point `(x, y)` of the menu (the
/// first item hit when the point is inside the menu), or -1. In a menu laid
/// out, each item's index is its position.
pub fn index_from_point(data: &MenuData, x: i32, y: i32) -> (r: i32)
    requires
        data.items.len() <= i32::MAX,
    ensures
        ({
            let k = index_from_point_spec(*data, x as int, y as int);
            r == if k < 0 {
                -1i32
            } else {
                data.items@[k].index as i32
            }
        }),
        -1 <= index_from_point_spec(*data, x as int, y as int) < data.items.len(),
        indexed(*data) ==> r == index_from_point_spec(*data, x as int, y as int),
{
    let k = position_from_point(data, x, y);
    proof {
        lemma_index_from_point_spec(*data, x as int, y as int, k);
    }
    if k < 0 {
        -1
    } else {
        data.items[k as usize].index as i32
    }
}

/// The first position whose item has the given top and bottom, unless they
/// are those of the whole menu.
pub open spec fn rect_position(data: MenuData, top: int, bottom: int) -> Option<int> {
    if (top == 0 && bottom == data.size.height) || !exists|k: int|
        0 <= k < data.items.len() && data_items(data)[k].top == top && #[trigger] data_items(data)[k].bottom
            == bottom {
        None
    } else {
        Some(
            choose|k: int|
                0 <= k < data.items.len() && data_items(data)[k].top == top && data_items(data)[k].bottom == bottom
                    && forall|j: int|
                    0 <= j < k ==> !(data_items(data)[j].top == top && #[trigger] data_items(data)[j].bottom
                        == bottom),
        )
    }
}

/// The stored index of the first item whose top and bottom are those of the
/// rectangle to paint; `None` for the whole menu or when no item matches.
/// In a menu laid out, each item's index is its position.
pub fn index_from_rect(data: &MenuData, top: i32, bottom: i32) -> (r: Option<i32>)
    requires
        data.items.len() <= i32::MAX,
    ensures
        r == match rect_position(*data, top as int, bottom as int) {
            Some(k) => Some(data.items@[k].index as i32),
            None => None::<i32>,
        },
        indexed(*data) ==> r == match rect_position(*data, top as int, bottom as int) {
            Some(k) => Some(k as i32),
            None => None::<i32>,
        },
{
    let p = position_from_rect(data, top, bottom);
    match p {
        Some(k) => {
            proof {
                let c = choose|c: int|
                    0 <= c < data.items.len() && data_items(*data)[c].top == top && data_items(*data)[c].bottom
                        == bottom && forall|j: int|
                        0 <= j < c ==> !(data_items(*data)[j].top == top && #[trigger] data_items(*data)[j].bottom
                            == bottom);
                assert(data_items(*data)[k as int].bottom == bottom);
                if c < k {
                    assert(!(data_items(*data)[c].top == top && data_items(*data)[c].bottom == bottom));
                }
                if k < c {
                    assert(!(data_items(*data)[k as int].top == top && data_items(*data)[k as int].bottom == bottom));
                }
            }
            Some(data.items[k as usize].index as i32)
        },
        None => None,
    }
}

/// What a change of selection asks of the window: whether the selection
/// changed and the positions of the items to paint again.
pub struct SelectionChange {
    pub changed: bool,
    pub repaint: Vec<usize>,
}

/// The items to paint again when the selection moves from `old_sel` to
/// `sel`: each of the two that is an item and is not disabled.
pub open spec fn repaint_list(items: Seq<MenuItemView>, old_sel: int, sel: int) -> Seq<usize> {
    (if sel >= 0 && !items[sel].disabled {
        seq![sel as usize]
    } else {
        Seq::empty()
    }) + (if old_sel >= 0 && !items[old_sel].disabled {
        seq![old_sel as usize]
    } else {
        Seq::empty()
    })
}

/// Moves the selection to the item under the point `(x, y)`. Nothing
/// changes while the window is not shown, nor when a submenu is shown and
/// the point is on no item.
pub fn change_selection(data: &mut MenuData, window_visible: bool, x: i32, y: i32) -> (c: SelectionChange)
    requires
        old(data).items.len() <= i32::MAX,
        old(data).selected_index < old(data).items.len(),
        indexed(*old(data)),
    ensures
        *final(data) == (MenuData { selected_index: final(data).selected_index, ..*old(data) }),
        ({
            let sel = index_from_point_spec(*old(data), x as int, y as int);
            if !window_visible || (old(data).visible_submenu_index >= 0 && sel < 0) {
                &&& !c.changed
                &&& c.repaint@ == Seq::<usize>::empty()
                &&& final(data).selected_index == old(data).selected_index
            } else {
                &&& c.changed == (old(data).selected_index != sel)
                &&& c.repaint@ == if c.changed {
                    repaint_list(data_items(*old(data)), old(data).selected_index as int, sel)
                } else {
                    Seq::empty()
                }
                &&& final(data).selected_index == sel
            }
        }),
{
    if !window_visible {
        return SelectionChange { changed: false, repaint: Vec::new() };
    }
    let sel = index_from_point(data, x, y);
    assert(sel as int == index_from_point_spec(*data, x as int, y as int));
    assert(-1 <= sel < data.items.len());
    if data.visible_submenu_index >= 0 && sel < 0 {
        return SelectionChange { changed: false, repaint: Vec::new() };
    }
    let changed = data.selected_index != sel;
    let mut repaint: Vec<usize> = Vec::new();
    if changed {
        if sel >= 0 && !data.items[sel as usize].disabled {
            repaint.push(sel as usize);
        }
        let old_sel = data.selected_index;
        if old_sel >= 0 && !data.items[old_sel as usize].disabled {
            repaint.push(old_sel as usize);
        }
        proof {
            if sel >= 0 {
                assert(data_items(*data)[sel as int] == data.items@[sel as int]@);
            }
            if old_sel >= 0 {
                assert(data_items(*data)[old_sel as int] == data.items@[old_sel as int]@);
            }
            assert(repaint@ =~= repaint_list(data_items(*data), old_sel as int, sel as int));
        }
    }
    data.selected_index = sel;
    SelectionChange { changed, repaint }
}

/// The position of the item under a point, or -1, as `index_from_point`
/// finds it.
pub open spec fn index_from_point_spec(data: MenuData, x: int, y: int) -> int {
    if inside(data.size, x, y) && exists|k: int| 0 <= k < data.items.len() && hits(#[trigger] data_items(data)[k], y) {
        choose|k: int|
            0 <= k < data.items.len() && hits(data_items(data)[k], y) && forall|j: int|
                0 <= j < k ==> !hits(#[trigger] data_items(data)[j], y)
    } else {
        -1
    }
}

proof fn lemma_index_from_point_spec(data: MenuData, x: int, y: int, r: i32)
    requires
        -1 <= r < data.items.len(),
        r == -1 <==> !(inside(data.size, x, y) && exists|k: int|
            0 <= k < data.items.len() && hits(#[trigger] data_items(data)[k], y)),
        r >= 0 ==> inside(data.size, x, y) && hits(data_items(data)[r as int], y) && forall|j: int|
            0 <= j < r ==> !hits(#[trigger] data_items(data)[j], y),
    ensures
        index_from_point_spec(data, x, y) == r,
{
    if r >= 0 {
        let k = choose|k: int|
            0 <= k < data.items.len() && hits(data_items(data)[k], y) && forall|j: int|
                0 <= j < k ==> !hits(#[trigger] data_items(data)[j], y);
        assert(0 <= k < data.items.len() && hits(data_items(data)[k], y));
        if k < r {
            assert(!hits(data_items(data)[k], y));
        }
        if r < k {
            assert(!hits(data_items(data)[r as int], y));
        }
    }
}

/// What the window must do after the selection moved: the submenu of item
/// `hide_index` is hidden, and the submenu that is now current is shown when
/// `show` holds.
pub struct SubmenuChange {
    pub hide_index: Option<usize>,
    pub show: bool,
}

/// Opens the submenu of the selected item and closes the one that was open
/// for another item; a disabled submenu item opens nothing.
pub fn toggle_submenu(data: &mut MenuData) -> (c: SubmenuChange)
    requires
        old(data).selected_index < old(data).items.len(),
        old(data).visible_submenu_index < old(data).items.len(),
    ensures
        *final(data) == (MenuData { visible_submenu_index: final(data).visible_submenu_index, ..*old(data) }),
        ({
            let sel = old(data).selected_index as int;
            let vis = old(data).visible_submenu_index as int;
            if sel < 0 {
                c.hide_index is None && !c.show && final(data).visible_submenu_index == vis
            } else {
                let closes = vis >= 0 && vis != sel;
                let after_close = if closes {
                    -1
                } else {
                    vis
                };
                let item = data_items(*old(data))[sel];
                let after_open = if after_close < 0 && item.menu_item_type == MenuItemType::Submenu {
                    if item.disabled {
                        -1
                    } else {
                        sel
                    }
                } else {
                    after_close
                };
                &&& c.hide_index == if closes {
                    Some(vis as usize)
                } else {
                    None::<usize>
                }
                &&& final(data).visible_submenu_index == after_open
                &&& c.show == (after_open >= 0)
            }
        }),
{
    if data.selected_index < 0 {
        return SubmenuChange { hide_index: None, show: false };
    }
    let sel = data.selected_index;
    let mut to_hide: Option<usize> = None;
    if data.visible_submenu_index >= 0 && data.visible_submenu_index != sel {
        to_hide = Some(data.visible_submenu_index as usize);
        data.visible_submenu_index = -1;
    }
    proof {
        assert(data_items(*data)[sel as int] == data.items@[sel as int]@);
    }
    if data.visible_submenu_index < 0 && data.items[sel as usize].menu_item_type == MenuItemType::Submenu {
        if data.items[sel as usize].disabled {
            data.visible_submenu_index = -1;
        } else {
            data.visible_submenu_index = sel;
        }
    }
    SubmenuChange { hide_index: to_hide, show: data.visible_submenu_index >= 0 }
}

/// Clears the selection and closes the open submenu, whose item position is
/// returned so that its window can be hidden.
pub fn init_menu_data(data: &mut MenuData) -> (to_hide: Option<usize>)
    requires
        old(data).visible_submenu_index < old(data).items.len(),
    ensures
        final(data).selected_index == -1,
        final(data).visible_submenu_index == -1,
        to_hide == if old(data).visible_submenu_index >= 0 {
            Some(old(data).visible_submenu_index as usize)
        } else {
            None::<usize>
        },
        *final(data) == (MenuData { selected_index: -1i32, visible_submenu_index: -1i32, ..*old(data) }),
{
    data.selected_index = -1;
    let to_hide = if data.visible_submenu_index >= 0 {
        Some(data.visible_submenu_index as usize)
    } else {
        None
    };
    data.visible_submenu_index = -1;
    to_hide
}

/// Clears the selection of a submenu that is hidden.
pub fn hide_submenu(data: &mut MenuData)
    ensures
        *final(data) == (MenuData { selected_index: -1i32, ..*old(data) }),
{
    data.selected_index = -1;
}

/// The first item with the given id in an item tree, searched in order from
/// item `i`: an item is checked before the items of its submenu, and those
/// before the items that follow it.
pub open spec fn find_by_id_from(items: Seq<MenuItemView>, id: Seq<char>, i: int) -> Option<MenuItemView>
    decreases items, items.len() - i,
{
    if i < 0 || i >= items.len() {
        None
    } else if items[i].id == id {
        Some(items[i])
    } else {
        let inner = if items[i].menu_item_type == MenuItemType::Submenu {
            match items[i].items {
                Some(children) => {
                    proof {
                        assert(decreases_to!(items => items[i]));
                    }
                    find_by_id_from(children, id, 0)
                },
                None => None,
            }
        } else {
            None
        };
        if inner is Some {
            inner
        } else {
            find_by_id_from(items, id, i + 1)
        }
    }
}

/// The path of positions to the first item with the given uuid in an item
/// tree, searched in the same order as `find_by_id_from`.
pub open spec fn path_of_uuid_from(items: Seq<MenuItemView>, uuid: u16, i: int) -> Option<Seq<int>>
    decreases items, items.len() - i,
{
    if i < 0 || i >= items.len() {
        None
    } else if items[i].uuid == uuid {
        Some(seq![i])
    } else {
        let inner = if items[i].menu_item_type == MenuItemType::Submenu {
            match items[i].items {
                Some(children) => {
                    proof {
                        assert(decreases_to!(items => items[i]));
                    }
                    path_of_uuid_from(children, uuid, 0)
                },
                None => None,
            }
        } else {
            None
        };
        match inner {
            Some(p) => Some(seq![i] + p),
            None => path_of_uuid_from(items, uuid, i + 1),
        }
    }
}

/// The first item with the given id in the item tree, with the items below it.
pub fn find_by_id(items: &Vec<MenuItem>, id: &str) -> (r: Option<MenuItem>)
    ensures
        match r {
            Some(item) => find_by_id_from(items_view(items@), id@, 0) == Some(item@),
            None => find_by_id_from(items_view(items@), id@, 0) is None,
        },
    decreases items,
{
    let ghost iv = items_view(items@);
    let mut i: usize = 0;
    while i < items.len()
        invariant
            i <= items.len(),
            iv == items_view(items@),
            find_by_id_from(iv, id@, 0) == find_by_id_from(iv, id@, i as int),
        decreases items.len() - i,
    {
        let item = &items[i];
        proof {
            assert(iv[i as int] == item@);
        }
        if crate::text::str_eq(item.id.as_str(), id) {
            return Some(item.dup());
        }
        if item.menu_item_type == MenuItemType::Submenu {
            match &item.items {
                Some(children) => {
                    proof {
                        lemma_children_view(*item);
                        broadcast use vstd::std_specs::vec::axiom_vec_index_decreases;

                        assert(decreases_to!(items => items[i as int]));
                        assert(decreases_to!(items[i as int] => items[i as int].items));
                    }
                    let found = find_by_id(children, id);
                    if found.is_some() {
                        return found;
                    }
                },
                None => {},
            }
        }
        i += 1;
    }
    None
}

/// Positions as integers.
pub open spec fn positions(p: Seq<usize>) -> Seq<int> {
    p.map_values(|x: usize| x as int)
}

/// The path of positions to the first item with the given uuid in the item
/// tree: the position in `items`, then in the submenu items, and so on.
pub fn index_of_item(items: &Vec<MenuItem>, uuid: u16) -> (r: Option<Vec<usize>>)
    ensures
        match r {
            Some(p) => path_of_uuid_from(items_view(items@), uuid, 0) == Some(positions(p@)),
            None => path_of_uuid_from(items_view(items@), uuid, 0) is None,
        },
    decreases items,
{
    let ghost iv = items_view(items@);
    let mut i: usize = 0;
    while i < items.len()
        invariant
            i <= items.len(),
            iv == items_view(items@),
            path_of_uuid_from(iv, uuid, 0) == path_of_uuid_from(iv, uuid, i as int),
        decreases items.len() - i,
    {
        let item = &items[i];
        proof {
            assert(iv[i as int] == item@);
        }
        if item.uuid == uuid {
            let mut p: Vec<usize> = Vec::new();
            p.push(i);
            proof {
                assert(positions(p@) =~= seq![i as int]);
            }
            return Some(p);
        }
        if item.menu_item_type == MenuItemType::Submenu {
            match &item.items {
                Some(children) => {
                    proof {
                        lemma_children_view(*item);
                        broadcast use vstd::std_specs::vec::axiom_vec_index_decreases;

                        assert(decreases_to!(items => items[i as int]));
                        assert(decreases_to!(items[i as int] => items[i as int].items));
                    }
                    match index_of_item(children, uuid) {
                        Some(inner) => {
                            let mut p: Vec<usize> = Vec::new();
                            p.push(i);
                            let mut k: usize = 0;
                            while k < inner.len()
                                invariant
                                    k <= inner.len(),
                                    p@ == seq![i] + inner@.subrange(0, k as int),
                                decreases inner.len() - k,
                            {
                                p.push(inner[k]);
                                k += 1;
                                proof {
                                    assert(p@ =~= seq![i] + inner@.subrange(0, k as int));
                                }
                            }
                            proof {
                                assert(inner@.subrange(0, inner@.len() as int) =~= inner@);
                                assert(positions(p@) =~= seq![i as int] + positions(inner@));
                            }
                            return Some(p);
                        },
                        None => {},
                    }
                },
                None => {},
            }
        }
        i += 1;
    }
    None
}

/// The item reached by following a sequence of positions through submenus.
pub open spec fn item_at_path(items: Seq<MenuItemView>, path: Seq<int>) -> Option<MenuItemView>
    decreases path.len(),
{
    if path.len() == 0 || path[0] < 0 || path[0] >= items.len() {
        None
    } else if path.len() == 1 {
        Some(items[path[0]])
    } else {
        match items[path[0]].items {
            Some(children) => item_at_path(children, path.drop_first()),
            None => None,
        }
    }
}

/// The item tree with the item at `path` taken out of the list that holds
/// it: the top-level list for a path of one position, else the items of the
/// submenu item on the way.
pub open spec fn tree_remove(items: Seq<MenuItemView>, path: Seq<int>) -> Seq<MenuItemView>
    decreases path.len(),
{
    if path.len() == 0 || path[0] < 0 || path[0] >= items.len() {
        items
    } else if path.len() == 1 {
        items.remove(path[0])
    } else {
        match items[path[0]].items {
            Some(children) => items.update(
                path[0],
                MenuItemView { items: Some(tree_remove(children, path.drop_first())), ..items[path[0]] },
            ),
            None => items,
        }
    }
}

/// What removing the first item with `uuid` from an item tree gives: the
/// removed item and its position in the list that held it, with the tree
/// after the removal; nothing and the same tree when no item has the uuid.
pub open spec fn removed_from_tree(
    before: Seq<MenuItemView>,
    uuid: u16,
    r: Option<(MenuItemView, usize)>,
    after: Seq<MenuItemView>,
) -> bool {
    match path_of_uuid_from(before, uuid, 0) {
        Some(p) => {
            &&& r is Some
            &&& item_at_path(before, p) == Some((r->0).0)
            &&& (r->0).1 == p.last()
            &&& after == tree_remove(before, p)
        },
        None => r is None && after == before,
    }
}

/// The view of a removal result.
pub open spec fn removal_view(r: Option<(MenuItem, usize)>) -> Option<(MenuItemView, usize)> {
    match r {
        Some((item, k)) => Some((item@, k)),
        None => None,
    }
}

/// Removes the first item with `uuid` from the item tree, at any depth.
fn remove_from_tree(items: &mut Vec<MenuItem>, uuid: u16) -> (r: Option<(MenuItem, usize)>)
    ensures
        removed_from_tree(items_view(old(items)@), uuid, removal_view(r), items_view(final(items)@)),
    decreases items_view(old(items)@),
{
    let ghost iv = items_view(items@);
    let ghost orig = items@;
    let mut i: usize = 0;
    while i < items.len()
        invariant
            i <= items.len(),
            iv == items_view(orig),
            items_view(items@) == iv,
            items.len() == orig.len(),
            orig == old(items)@,
            path_of_uuid_from(iv, uuid, 0) == path_of_uuid_from(iv, uuid, i as int),
        decreases items.len() - i,
    {
        proof {
            assert(iv[i as int] == items@[i as int]@);
        }
        if items[i].uuid == uuid {
            let removed = items.remove(i);
            proof {
                assert(items_view(items@) =~= iv.remove(i as int));
                assert(item_at_path(iv, seq![i as int]) == Some(iv[i as int]));
                assert(tree_remove(iv, seq![i as int]) == iv.remove(i as int));
            }
            return Some((removed, i));
        }
        if items[i].menu_item_type == MenuItemType::Submenu && items[i].items.is_some() {
            let mut it = items.remove(i);
            let ghost it0 = it;
            proof {
                lemma_children_view(it0);
                assert(it0@ == iv[i as int]);
                assert(decreases_to!(iv => iv[i as int]));
                assert(decreases_to!(iv[i as int] => iv[i as int].items));
            }
            let mut kids = it.items.take().unwrap();
            let ghost kv = items_view(kids@);
            proof {
                assert(kids == it0.items->0);
                assert(iv[i as int].items == Some(kv));
            }
            let res = remove_from_tree(&mut kids, uuid);
            it.items = Some(kids);
            proof {
                lemma_children_view(it);
                assert(it@ == MenuItemView { items: Some(items_view(kids@)), ..iv[i as int] });
            }
            let ghost it_view = it@;
            items.insert(i, it);
            proof {
                assert(items_view(items@) =~= iv.update(i as int, it_view));
            }
            match res {
                Some(found) => {
                    proof {
                        let q = path_of_uuid_from(kv, uuid, 0)->0;
                        crate::laws::law_path_leads_to_uuid(kv, uuid, 0);
                        let p = seq![i as int] + q;
                        assert(p.drop_first() =~= q);
                        assert(p[0] == i as int);
                        assert(path_of_uuid_from(iv, uuid, i as int) == Some(p));
                        assert(item_at_path(iv, p) == item_at_path(kv, q));
                        assert(tree_remove(iv, p) == iv.update(
                            i as int,
                            MenuItemView { items: Some(tree_remove(kv, q)), ..iv[i as int] },
                        ));
                        assert(p.last() == q.last());
                    }
                    return Some(found);
                },
                None => {
                    proof {
                        assert(items_view(items@) =~= iv);
                        assert(path_of_uuid_from(iv, uuid, i as int) == path_of_uuid_from(iv, uuid, i + 1));
                    }
                },
            }
        }
        i += 1;
    }
    None
}

impl Menu {
    /// Gets the MenuItem with the specified id from the item tree of the
    /// menu's theme window.
    pub fn get_menu_item_by_id(&self, data: &MenuData, id: &str) -> (r: Option<MenuItem>)
        ensures
            match r {
                Some(item) => find_by_id_from(data_items(*data), id@, 0) == Some(item@),
                None => find_by_id_from(data_items(*data), id@, 0) is None,
            },
    {
        find_by_id(&data.items, id)
    }

    /// Removes the first MenuItem with the uuid of `item` from the item tree
    /// `tree` of this menu, at any depth, and returns it with its position
    /// among the items of the window that held it (the removed item's
    /// `menu_window_handle`); `None` when no item has the uuid.
    pub fn remove(&mut self, tree: &mut Vec<MenuItem>, item: &MenuItem) -> (r: Option<(MenuItem, usize)>)
        ensures
            *final(self) == *old(self),
            removed_from_tree(items_view(old(tree)@), item.uuid, removal_view(r), items_view(final(tree)@)),
    {
        remove_from_tree(tree, item.uuid)
    }

    /// Gets all MenuItems of Menu.
    pub fn items(&self, data: &MenuData) -> (r: Vec<MenuItem>)
        ensures
            items_view(r@) == data_items(*data),
    {
        let mut out: Vec<MenuItem> = Vec::new();
        let mut i: usize = 0;
        while i < data.items.len()
            invariant
                i <= data.items.len(),
                items_view(out@) == data_items(*data).subrange(0, i as int),
            decreases data.items.len() - i,
        {
            let ghost before = out@;
            out.push(data.items[i].dup());
            i += 1;
            proof {
                assert(items_view(out@) =~= items_view(before).push(data.items@[i - 1]@));
                assert(items_view(out@) =~= data_items(*data).subrange(0, i as int));
            }
        }
        proof {
            assert(data_items(*data).subrange(0, data.items.len() as int) =~= data_items(*data));
        }
        out
    }
}

/// Handles a click at the point `(x, y)` of the menu: returns the position
/// of the item that was selected, if any (see `on_menu_item_selected`).
pub fn on_mouse_up(data: &mut MenuData, x: i32, y: i32) -> (r: Option<usize>)
    requires
        old(data).items.len() <= i32::MAX,
        indexed(*old(data)),
    ensures
        same_but_items(*final(data), *old(data)),
        ({
            let k = index_from_point_spec(*old(data), x as int, y as int);
            if k < 0 || !selectable(data_items(*old(data))[k]) {
                r is None && data_items(*final(data)) == data_items(*old(data))
            } else {
                r == Some(k as usize) && data_items(*final(data)) == after_select(data_items(*old(data)), k)
            }
        }),
{
    let index = index_from_point(data, x, y);
    if index < 0 {
        return None;
    }
    if on_menu_item_selected(data, index as usize) {
        Some(index as usize)
    } else {
        None
    }
}

/// The menu window a pointer event belongs to: the open submenu's window
/// when the pointer is over it, the menu's own window when over that, and
/// none otherwise.
pub fn target_window(menu_window: isize, window_under_pointer: isize, open_submenu_window: Option<isize>) -> (r:
    Option<isize>)
    ensures
        r == match open_submenu_window {
            Some(s) if s != 0 && window_under_pointer == s => Some(s),
            _ => if menu_window == window_under_pointer {
                Some(menu_window)
            } else {
                None::<isize>
            },
        },
{
    match open_submenu_window {
        Some(s) => {
            if s != 0 && window_under_pointer == s {
                return Some(s);
            }
        },
        None => {},
    }
    if menu_window == window_under_pointer {
        Some(menu_window)
    } else {
        None
    }
}

/// Mouse-input flag: coordinates on the whole virtual desktop.
pub const MOUSEEVENTF_VIRTUALDESK: u32 = 0x4000;

/// Mouse-input flag: absolute coordinates.
pub const MOUSEEVENTF_ABSOLUTE: u32 = 0x8000;

/// Mouse-input flag: left button pressed.
pub const MOUSEEVENTF_LEFTDOWN: u32 = 0x0002;

/// Mouse-input flag: right button pressed.
pub const MOUSEEVENTF_RIGHTDOWN: u32 = 0x0008;

/// The flags of the button press passed on to the window under a menu
/// that closes on a click outside it.
pub fn mouse_down_flags(left_button: bool) -> (flags: u32)
    ensures
        flags == MOUSEEVENTF_VIRTUALDESK + MOUSEEVENTF_ABSOLUTE + if left_button {
            MOUSEEVENTF_LEFTDOWN
        } else {
            MOUSEEVENTF_RIGHTDOWN
        },
{
    MOUSEEVENTF_VIRTUALDESK + MOUSEEVENTF_ABSOLUTE + if left_button {
        MOUSEEVENTF_LEFTDOWN
    } else {
        MOUSEEVENTF_RIGHTDOWN
    }
}

impl Menu {
    /// The configuration of the menu, read from its state.
    pub fn config(&self, data: &MenuData) -> (c: MenuConfig)
        ensures
            c == data.config,
    {
        data.config.dup()
    }
}

} // verus!
