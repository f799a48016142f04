//! Building a menu: the builder collects items and configuration and makes
//! the state of the menu window from them.
use vstd::prelude::*;
use crate::accelerator::{accel_map, collect_accelerators, collect_into};
use crate::config::{Corner, MenuConfig, Theme};
use crate::layout::{spec_icon_space, laid_out, layout_fits, menu_size, TextSize};
use crate::menu::{indexed, MenuData};
use std::collections::HashMap;
use crate::menu_item::{
    accel_view,
    fresh_view,
    icon_view,
    items_view,
    Menu,
    MenuIcon,
    MenuItem,
    MenuItemType,
    MenuItemView,
    MenuType,
};

verus! {

/// Builder to create Menu.
pub struct MenuBuilder {
    pub menu: Menu,
    pub items: Vec<MenuItem>,
    pub theme: Theme,
    pub config: MenuConfig,
    pub menu_type: MenuType,
}

/// The corner a menu gets: round corners need Windows 11.
pub open spec fn effective_corner(corner: Corner, is_win11: bool) -> Corner {
    if !is_win11 && corner == Corner::Round {
        Corner::DoNotRound
    } else {
        corner
    }
}

/// Whether a builder differs from another only in its items.
pub open spec fn same_builder_but_items(a: MenuBuilder, b: MenuBuilder) -> bool {
    a.menu == b.menu && a.theme == b.theme && a.config == b.config && a.menu_type == b.menu_type
}

impl MenuBuilder {
    /// A builder of a main menu shown in the window `menu` with the default
    /// configuration.
    pub fn new(menu: Menu) -> (b: Self)
        ensures
            b.menu == menu,
            b.items@.len() == 0,
            b.theme == Theme::Light,
            b.config.theme == Theme::Light,
            b.menu_type == MenuType::Main,
    {
        let config = MenuConfig::default();
        let theme = config.theme;
        MenuBuilder { menu, items: Vec::new(), theme, config, menu_type: MenuType::Main }
    }

    /// A builder of a main menu with the given theme.
    pub fn new_with_theme(menu: Menu, theme: Theme) -> (b: Self)
        ensures
            b.menu == menu,
            b.items@.len() == 0,
            b.theme == theme,
            b.config.theme == theme,
            b.menu_type == MenuType::Main,
    {
        let mut config = MenuConfig::default();
        config.theme = theme;
        MenuBuilder { menu, items: Vec::new(), theme, config, menu_type: MenuType::Main }
    }

    /// A builder of a main menu with the given configuration; round corners
    /// are kept only on Windows 11.
    pub fn new_from_config(menu: Menu, config: MenuConfig, is_win11: bool) -> (b: Self)
        ensures
            b.menu == menu,
            b.items@.len() == 0,
            b.theme == config.theme,
            b.config == (MenuConfig { corner: effective_corner(config.corner, is_win11), ..config }),
            b.menu_type == MenuType::Main,
    {
        let theme = config.theme;
        let mut config = config;
        if !is_win11 && config.corner == Corner::Round {
            config.corner = Corner::DoNotRound;
        }
        MenuBuilder { menu, items: Vec::new(), theme, config, menu_type: MenuType::Main }
    }

    fn push_item(&mut self, item: MenuItem)
        ensures
            same_builder_but_items(*final(self), *old(self)),
            items_view(final(self).items@) == items_view(old(self).items@).push(
                MenuItemView { menu_window_handle: old(self).menu.window_handle, ..item@ },
            ),
    {
        let mut item = item;
        item.menu_window_handle = self.menu.window_handle;
        let ghost before = self.items@;
        let ghost iv = item@;
        self.items.push(item);
        proof {
            assert(items_view(self.items@) =~= items_view(before).push(iv));
        }
    }

    /// Adds a text MenuItem.
    pub fn text(&mut self, id: &str, label: &str, disabled: bool, uuid: u16)
        ensures
            same_builder_but_items(*final(self), *old(self)),
            items_view(final(self).items@) == items_view(old(self).items@).push(
                fresh_view(
                    old(self).menu.window_handle,
                    id@,
                    label@,
                    Seq::empty(),
                    Seq::empty(),
                    false,
                    disabled,
                    MenuItemType::Text,
                    None,
                    None,
                    uuid,
                    None,
                ),
            ),
    {
        let item = MenuItem::new_text_item(id, label, None, disabled, None, uuid);
        self.push_item(item);
    }

    /// Adds a text MenuItem with an accelerator.
    pub fn text_with_accelerator(&mut self, id: &str, label: &str, disabled: bool, accelerator: &str, uuid: u16)
        ensures
            same_builder_but_items(*final(self), *old(self)),
            items_view(final(self).items@) == items_view(old(self).items@).push(
                fresh_view(
                    old(self).menu.window_handle,
                    id@,
                    label@,
                    accelerator@,
                    Seq::empty(),
                    false,
                    disabled,
                    MenuItemType::Text,
                    None,
                    None,
                    uuid,
                    None,
                ),
            ),
    {
        let item = MenuItem::new_text_item(id, label, Some(accelerator), disabled, None, uuid);
        self.push_item(item);
    }

    /// Adds a text MenuItem with an icon.
    pub fn text_with_icon(&mut self, id: &str, label: &str, disabled: bool, icon: MenuIcon, uuid: u16)
        ensures
            same_builder_but_items(*final(self), *old(self)),
            items_view(final(self).items@) == items_view(old(self).items@).push(
                fresh_view(
                    old(self).menu.window_handle,
                    id@,
                    label@,
                    Seq::empty(),
                    Seq::empty(),
                    false,
                    disabled,
                    MenuItemType::Text,
                    None,
                    Some(icon@),
                    uuid,
                    None,
                ),
            ),
    {
        let item = MenuItem::new_text_item(id, label, None, disabled, Some(icon), uuid);
        self.push_item(item);
    }

    /// Adds a text MenuItem with an accelerator and an icon.
    pub fn text_with_accel_icon(
        &mut self,
        id: &str,
        label: &str,
        disabled: bool,
        accelerator: &str,
        icon: MenuIcon,
        uuid: u16,
    )
        ensures
            same_builder_but_items(*final(self), *old(self)),
            items_view(final(self).items@) == items_view(old(self).items@).push(
                fresh_view(
                    old(self).menu.window_handle,
                    id@,
                    label@,
                    accelerator@,
                    Seq::empty(),
                    false,
                    disabled,
                    MenuItemType::Text,
                    None,
                    Some(icon@),
                    uuid,
                    None,
                ),
            ),
    {
        let item = MenuItem::new_text_item(id, label, Some(accelerator), disabled, Some(icon), uuid);
        self.push_item(item);
    }

    /// Adds a check MenuItem.
    pub fn check(&mut self, id: &str, label: &str, checked: bool, disabled: bool, uuid: u16)
        ensures
            same_builder_but_items(*final(self), *old(self)),
            items_view(final(self).items@) == items_view(old(self).items@).push(
                fresh_view(
                    old(self).menu.window_handle,
                    id@,
                    label@,
                    Seq::empty(),
                    Seq::empty(),
                    checked,
                    disabled,
                    MenuItemType::Checkbox,
                    None,
                    None,
                    uuid,
                    None,
                ),
            ),
    {
        let item = MenuItem::new_check_item(id, label, None, checked, disabled, None, uuid);
        self.push_item(item);
    }

    /// Adds a check MenuItem with an accelerator.
    pub fn check_with_accelerator(
        &mut self,
        id: &str,
        label: &str,
        checked: bool,
        disabled: bool,
        accelerator: &str,
        uuid: u16,
    )
        ensures
            same_builder_but_items(*final(self), *old(self)),
            items_view(final(self).items@) == items_view(old(self).items@).push(
                fresh_view(
                    old(self).menu.window_handle,
                    id@,
                    label@,
                    accelerator@,
                    Seq::empty(),
                    checked,
                    disabled,
                    MenuItemType::Checkbox,
                    None,
                    None,
                    uuid,
                    None,
                ),
            ),
    {
        let item = MenuItem::new_check_item(id, label, Some(accelerator), checked, disabled, None, uuid);
        self.push_item(item);
    }

    /// Adds a check MenuItem with an icon.
    pub fn check_with_icon(
        &mut self,
        id: &str,
        label: &str,
        checked: bool,
        disabled: bool,
        icon: MenuIcon,
        uuid: u16,
    )
        ensures
            same_builder_but_items(*final(self), *old(self)),
            items_view(final(self).items@) == items_view(old(self).items@).push(
                fresh_view(
                    old(self).menu.window_handle,
                    id@,
                    label@,
                    Seq::empty(),
                    Seq::empty(),
                    checked,
                    disabled,
                    MenuItemType::Checkbox,
                    None,
                    Some(icon@),
                    uuid,
                    None,
                ),
            ),
    {
        let item = MenuItem::new_check_item(id, label, None, checked, disabled, Some(icon), uuid);
        self.push_item(item);
    }

    /// Adds a check MenuItem with an accelerator and an icon.
    pub fn check_with_accel_icon(
        &mut self,
        id: &str,
        label: &str,
        checked: bool,
        disabled: bool,
        accelerator: &str,
        icon: MenuIcon,
        uuid: u16,
    )
        ensures
            same_builder_but_items(*final(self), *old(self)),
            items_view(final(self).items@) == items_view(old(self).items@).push(
                fresh_view(
                    old(self).menu.window_handle,
                    id@,
                    label@,
                    accelerator@,
                    Seq::empty(),
                    checked,
                    disabled,
                    MenuItemType::Checkbox,
                    None,
                    Some(icon@),
                    uuid,
                    None,
                ),
            ),
    {
        let item = MenuItem::new_check_item(id, label, Some(accelerator), checked, disabled, Some(icon), uuid);
        self.push_item(item);
    }

    /// Adds a radio MenuItem of the group `name`.
    pub fn radio(&mut self, id: &str, label: &str, name: &str, checked: bool, disabled: bool, uuid: u16)
        ensures
            same_builder_but_items(*final(self), *old(self)),
            items_view(final(self).items@) == items_view(old(self).items@).push(
                fresh_view(
                    old(self).menu.window_handle,
                    id@,
                    label@,
                    Seq::empty(),
                    name@,
                    checked,
                    disabled,
                    MenuItemType::Radio,
                    None,
                    None,
                    uuid,
                    None,
                ),
            ),
    {
        let item = MenuItem::new_radio_item(id, label, name, None, checked, disabled, None, uuid);
        self.push_item(item);
    }

    /// Adds a radio MenuItem with an accelerator.
    pub fn radio_with_accelerator(
        &mut self,
        id: &str,
        label: &str,
        name: &str,
        checked: bool,
        disabled: bool,
        accelerator: &str,
        uuid: u16,
    )
        ensures
            same_builder_but_items(*final(self), *old(self)),
            items_view(final(self).items@) == items_view(old(self).items@).push(
                fresh_view(
                    old(self).menu.window_handle,
                    id@,
                    label@,
                    accelerator@,
                    name@,
                    checked,
                    disabled,
                    MenuItemType::Radio,
                    None,
                    None,
                    uuid,
                    None,
                ),
            ),
    {
        let item = MenuItem::new_radio_item(id, label, name, Some(accelerator), checked, disabled, None, uuid);
        self.push_item(item);
    }

    /// Adds a radio MenuItem with an icon.
    pub fn radio_with_icon(
        &mut self,
        id: &str,
        label: &str,
        name: &str,
        checked: bool,
        disabled: bool,
        icon: MenuIcon,
        uuid: u16,
    )
        ensures
            same_builder_but_items(*final(self), *old(self)),
            items_view(final(self).items@) == items_view(old(self).items@).push(
                fresh_view(
                    old(self).menu.window_handle,
                    id@,
                    label@,
                    Seq::empty(),
                    name@,
                    checked,
                    disabled,
                    MenuItemType::Radio,
                    None,
                    Some(icon@),
                    uuid,
                    None,
                ),
            ),
    {
        let item = MenuItem::new_radio_item(id, label, name, None, checked, disabled, Some(icon), uuid);
        self.push_item(item);
    }

    /// Adds a radio MenuItem with an accelerator and an icon.
    pub fn radio_with_accel_icon(
        &mut self,
        id: &str,
        label: &str,
        name: &str,
        checked: bool,
        disabled: bool,
        accelerator: &str,
        icon: MenuIcon,
        uuid: u16,
    )
        ensures
            same_builder_but_items(*final(self), *old(self)),
            items_view(final(self).items@) == items_view(old(self).items@).push(
                fresh_view(
                    old(self).menu.window_handle,
                    id@,
                    label@,
                    accelerator@,
                    name@,
                    checked,
                    disabled,
                    MenuItemType::Radio,
                    None,
                    Some(icon@),
                    uuid,
                    None,
                ),
            ),
    {
        let item = MenuItem::new_radio_item(id, label, name, Some(accelerator), checked, disabled, Some(icon), uuid);
        self.push_item(item);
    }

    /// Adds a separator.
    pub fn separator(&mut self, uuid: u16)
        ensures
            same_builder_but_items(*final(self), *old(self)),
            items_view(final(self).items@) == items_view(old(self).items@).push(
                fresh_view(
                    old(self).menu.window_handle,
                    Seq::empty(),
                    Seq::empty(),
                    Seq::empty(),
                    Seq::empty(),
                    false,
                    false,
                    MenuItemType::Separator,
                    None,
                    None,
                    uuid,
                    None,
                ),
            ),
    {
        let item = MenuItem::new_separator(uuid);
        self.push_item(item);
    }

    /// Adds a submenu item whose submenu is shown in the window `submenu`,
    /// and returns the builder of that submenu, which has this builder's
    /// configuration.
    pub fn submenu(
        &mut self,
        id: &str,
        label: &str,
        disabled: bool,
        icon: Option<MenuIcon>,
        uuid: u16,
        submenu: Menu,
        is_win11: bool,
    ) -> (b: MenuBuilder)
        ensures
            same_builder_but_items(*final(self), *old(self)),
            items_view(final(self).items@) == items_view(old(self).items@).push(
                fresh_view(
                    old(self).menu.window_handle,
                    id@,
                    label@,
                    Seq::empty(),
                    Seq::empty(),
                    false,
                    disabled,
                    MenuItemType::Submenu,
                    Some(submenu),
                    icon_view(icon),
                    uuid,
                    None,
                ),
            ),
            b.menu == submenu,
            b.items@.len() == 0,
            b.menu_type == MenuType::Submenu,
            b.theme == old(self).config.theme,
            b.config == (MenuConfig {
                corner: effective_corner(old(self).config.corner, is_win11),
                ..old(self).config
            }),
    {
        proof {
            reveal_strlit("");
            assert(""@ =~= Seq::<char>::empty());
        }
        let item = MenuItem::new(
            self.menu.window_handle,
            id,
            label,
            "",
            "",
            false,
            disabled,
            MenuItemType::Submenu,
            Some(submenu),
            icon,
            uuid,
        );
        let config = self.config.dup();
        let mut builder = MenuBuilder::new_from_config(submenu, config, is_win11);
        builder.menu_type = MenuType::Submenu;
        self.push_item(item);
        builder
    }

    /// Adds a MenuItem to this menu.
    pub fn append(&mut self, item: MenuItem)
        ensures
            same_builder_but_items(*final(self), *old(self)),
            items_view(final(self).items@) == items_view(old(self).items@).push(
                MenuItemView { menu_window_handle: old(self).menu.window_handle, ..item@ },
            ),
    {
        self.push_item(item);
    }
}

/// The state of a freshly built menu window: nothing selected, no submenu
/// open, not shown; the items laid out.
pub open spec fn built_state(
    data: MenuData,
    b: MenuBuilder,
    texts: Seq<TextSize>,
    check_svg_size: i32,
    submenu_svg_size: i32,
) -> bool {
    let sp = spec_icon_space(b.items@, b.config.icon.horizontal_margin, check_svg_size, submenu_svg_size);
    &&& data.menu_type == b.menu_type
    &&& data.selected_index == -1
    &&& data.visible_submenu_index == -1
    &&& data.current_theme == b.theme
    &&& data.config == b.config
    &&& data.icon_space == sp
    &&& data.size == menu_size(b.items@, texts, b.config, sp)
    &&& data.items.len() == b.items.len()
    &&& data.check_svg_size == check_svg_size
    &&& data.submenu_svg_size == submenu_svg_size
    &&& !data.visible
    &&& data.parent == if b.menu_type == MenuType::Main {
        0
    } else {
        b.menu.parent_window_handle
    }
}

/// Whether `tree` holds the items `items` in order, each with the items of
/// its submenu below it: the same uuid, kind and accelerator at each place.
pub open spec fn tree_over(tree: Seq<MenuItemView>, items: Seq<MenuItemView>) -> bool {
    &&& tree.len() == items.len()
    &&& forall|i: int|
        0 <= i < items.len() ==> (#[trigger] tree[i]).uuid == items[i].uuid && tree[i].menu_item_type
            == items[i].menu_item_type && tree[i].accelerator == items[i].accelerator
}

/// Whether `tree` holds the items `items` in order (see `tree_over`).
pub fn is_tree_over(tree: &Vec<MenuItem>, items: &Vec<MenuItem>) -> (b: bool)
    ensures
        b == tree_over(items_view(tree@), items_view(items@)),
{
    if tree.len() != items.len() {
        return false;
    }
    let mut i: usize = 0;
    while i < items.len()
        invariant
            i <= items.len(),
            tree.len() == items.len(),
            forall|k: int|
                0 <= k < i ==> (#[trigger] items_view(tree@)[k]).uuid == items_view(items@)[k].uuid
                    && items_view(tree@)[k].menu_item_type == items_view(items@)[k].menu_item_type
                    && items_view(tree@)[k].accelerator == items_view(items@)[k].accelerator,
        decreases items.len() - i,
    {
        proof {
            assert(items_view(tree@)[i as int] == tree@[i as int]@);
            assert(items_view(items@)[i as int] == items@[i as int]@);
        }
        if tree[i].uuid != items[i].uuid || tree[i].menu_item_type != items[i].menu_item_type || !crate::text::str_eq(
            tree[i].accelerator.as_str(),
            items[i].accelerator.as_str(),
        ) {
            return false;
        }
        i += 1;
    }
    true
}

impl MenuBuilder {
    /// The state of the menu window made from this builder, with the
    /// builder's items laid out after the measured `texts`. A main menu gets
    /// the subclass id `subclass_id` and the accelerators found in `item_tree` (its items
    /// with the items of their submenus); a submenu gets neither. `None`
    /// when the layout does not fit in `i32` coordinates.
    pub fn build(
        self,
        texts: &Vec<TextSize>,
        check_svg_size: i32,
        submenu_svg_size: i32,
        subclass_id: u32,
        item_tree: &Vec<MenuItem>,
    ) -> (r: Option<MenuData>)
        requires
            texts.len() == self.items.len(),
            self.items.len() <= u32::MAX,
            self.menu_type == MenuType::Main ==> tree_over(items_view(item_tree@), items_view(self.items@)),
        ensures
            r is Some <==> layout_fits(
                self.items@,
                texts@,
                self.config,
                spec_icon_space(self.items@, self.config.icon.horizontal_margin, check_svg_size, submenu_svg_size),
            ),
            r is Some ==> {
                let data = r->0;
                &&& built_state(data, self, texts@, check_svg_size, submenu_svg_size)
                &&& forall|i: int|
                    0 <= i < self.items.len() ==> (#[trigger] data.items@[i])@ == laid_out(
                        self.items@,
                        texts@,
                        self.config,
                        spec_icon_space(
                            self.items@,
                            self.config.icon.horizontal_margin,
                            check_svg_size,
                            submenu_svg_size,
                        ),
                        i,
                    )
                &&& indexed(data)
                &&& data.win_subclass_id == if self.menu_type == MenuType::Main {
                    Some(subclass_id)
                } else {
                    None::<u32>
                }
                &&& accel_map(data.accelerators@) == if self.menu_type == MenuType::Main {
                    collect_into(Map::empty(), items_view(item_tree@), 0)
                } else {
                    Map::<u16, Seq<char>>::empty()
                }
            },
    {
        let is_main = self.menu_type == MenuType::Main;
        let mut accelerators: HashMap<u16, String> = HashMap::new();
        proof {
            assert(accel_map(accelerators@) =~= Map::<u16, Seq<char>>::empty());
        }
        if is_main {
            collect_accelerators(item_tree, &mut accelerators);
        }
        let parent = if is_main {
            0
        } else {
            self.menu.parent_window_handle
        };
        let mut data = MenuData {
            menu_type: self.menu_type,
            items: self.items,
            win_subclass_id: if is_main {
                Some(subclass_id)
            } else {
                None
            },
            selected_index: -1,
            size: crate::layout::Size { width: 0, height: 0 },
            icon_space: crate::layout::IconSpace::default(),
            visible_submenu_index: -1,
            current_theme: self.theme,
            config: self.config,
            parent,
            accelerators,
            check_svg_size,
            submenu_svg_size,
            visible: false,
        };
        if data.recalculate(texts) {
            proof {
                assert forall|i: int| 0 <= i < data.items.len() implies (#[trigger] data.items@[i]).index == i by {
                    assert(data.items@[i]@.index == i as u32);
                }
            }
            Some(data)
        } else {
            None
        }
    }
}

/// The items moved to the window `window_handle`.
pub open spec fn moved_to(items: Seq<MenuItemView>, window_handle: isize) -> Seq<MenuItemView> {
    Seq::new(items.len(), |k: int| MenuItemView { menu_window_handle: window_handle, ..items[k] })
}

impl MenuBuilder {
    /// A builder of the submenu shown in the window `menu` for a submenu item
    /// added to a menu with configuration `config` and theme `current_theme`:
    /// the items of the submenu item move to the submenu's window, and the
    /// builder gets copies of them.
    pub fn new_for_submenu(
        menu: Menu,
        config: &MenuConfig,
        current_theme: Theme,
        items: &mut Vec<MenuItem>,
        is_win11: bool,
    ) -> (b: Self)
        ensures
            b.menu == menu,
            b.menu_type == MenuType::Submenu,
            b.theme == current_theme,
            b.config == (MenuConfig { corner: effective_corner(config.corner, is_win11), ..*config }),
            items_view(final(items)@) == moved_to(items_view(old(items)@), menu.window_handle),
            items_view(b.items@) == items_view(final(items)@),
    {
        let mut copies: Vec<MenuItem> = Vec::new();
        let ghost old_view = items_view(items@);
        let mut i: usize = 0;
        while i < items.len()
            invariant
                i <= items.len(),
                items.len() == old_view.len(),
                old_view == items_view(old(items)@),
                copies.len() == i,
                forall|k: int|
                    0 <= k < i ==> (#[trigger] items@[k])@ == (MenuItemView {
                        menu_window_handle: menu.window_handle,
                        ..old_view[k]
                    }),
                forall|k: int| i <= k < items.len() ==> (#[trigger] items@[k])@ == old_view[k],
                forall|k: int| 0 <= k < i ==> (#[trigger] copies@[k])@ == items@[k]@,
            decreases items.len() - i,
        {
            items[i].menu_window_handle = menu.window_handle;
            copies.push(items[i].dup());
            i += 1;
        }
        proof {
            assert(items_view(items@) =~= moved_to(old_view, menu.window_handle));
            assert(items_view(copies@) =~= items_view(items@));
        }
        let mut config = config.dup();
        if !is_win11 && config.corner == Corner::Round {
            config.corner = Corner::DoNotRound;
        }
        MenuBuilder { menu, items: copies, theme: current_theme, config, menu_type: MenuType::Submenu }
    }
}

} // verus!
