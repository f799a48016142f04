//! Menu items: their kinds, icons, the abstract view of an item tree,
//! constructors, setters and the item builder.
use vstd::prelude::*;
use crate::text::str_to_string;

verus! {

/// Whether a menu is a main menu or a submenu.
#[derive(Debug, Clone, Copy, PartialEq, Eq, Structural)]
pub enum MenuType {
    Main,
    Submenu,
}

/// The kind of a menu item.
#[derive(Debug, Clone, Copy, PartialEq, Eq, Structural)]
pub enum MenuItemType {
    Text,
    Checkbox,
    Radio,
    Submenu,
    Separator,
}

/// Context menu: its window, its kind and the window it belongs to.
#[derive(Debug, Clone, Copy, PartialEq, Eq, Structural)]
pub struct Menu {
    pub window_handle: isize,
    pub menu_type: MenuType,
    pub parent_window_handle: isize,
}

impl Default for Menu {
    fn default() -> (m: Self)
        ensures
            m.window_handle == 0,
            m.menu_type == MenuType::Main,
            m.parent_window_handle == 0,
    {
        Menu { window_handle: 0, menu_type: MenuType::Main, parent_window_handle: 0 }
    }
}

/// Raw RGBA pixels of an icon.
#[derive(Debug, Clone)]
pub struct RgbaIcon {
    pub rgba: Vec<u8>,
    pub width: u32,
    pub height: u32,
}

/// Where the image of an icon comes from.
#[derive(Debug, Clone)]
pub enum MenuIconKind {
    Path(String),
    Rgba(RgbaIcon),
}

/// Icon of a menu item.
#[derive(Debug, Clone)]
pub struct MenuIcon {
    pub icon: MenuIconKind,
}

/// The abstract value of an icon.
pub enum MenuIconView {
    Path(Seq<char>),
    Rgba { rgba: Seq<u8>, width: u32, height: u32 },
}

impl View for MenuIcon {
    type V = MenuIconView;

    open spec fn view(&self) -> MenuIconView {
        match self.icon {
            MenuIconKind::Path(p) => MenuIconView::Path(p@),
            MenuIconKind::Rgba(r) => MenuIconView::Rgba {
                rgba: r.rgba@,
                width: r.width,
                height: r.height,
            },
        }
    }
}

impl MenuIcon {
    /// An icon read from the file at `path`.
    pub fn new(path: &str) -> (icon: Self)
        ensures
            icon@ == MenuIconView::Path(path@),
    {
        MenuIcon { icon: MenuIconKind::Path(str_to_string(path)) }
    }

    /// An icon made of raw RGBA pixels.
    pub fn from_rgba(rgba: Vec<u8>, width: u32, height: u32) -> (icon: Self)
        ensures
            icon@ == (MenuIconView::Rgba { rgba: rgba@, width, height }),
    {
        MenuIcon { icon: MenuIconKind::Rgba(RgbaIcon { rgba, width, height }) }
    }

    /// A copy of the icon with the same value.
    pub fn dup(&self) -> (r: Self)
        ensures
            r@ == self@,
    {
        match &self.icon {
            MenuIconKind::Path(p) => MenuIcon { icon: MenuIconKind::Path(p.clone()) },
            MenuIconKind::Rgba(r) => {
                let mut pixels: Vec<u8> = Vec::new();
                let mut i: usize = 0;
                while i < r.rgba.len()
                    invariant
                        i <= r.rgba.len(),
                        pixels@ == r.rgba@.subrange(0, i as int),
                    decreases r.rgba.len() - i,
                {
                    pixels.push(r.rgba[i]);
                    i += 1;
                    assert(pixels@ =~= r.rgba@.subrange(0, i as int));
                }
                assert(pixels@ =~= r.rgba@);
                MenuIcon {
                    icon: MenuIconKind::Rgba(RgbaIcon { rgba: pixels, width: r.width, height: r.height }),
                }
            },
        }
    }
}

/// The abstract value of an optional icon.
pub open spec fn icon_view(icon: Option<MenuIcon>) -> Option<MenuIconView> {
    match icon {
        Some(i) => Some(i@),
        None => None,
    }
}

/// Menu item. A submenu item carries the items of its submenu in `items`.
#[derive(Debug)]
pub struct MenuItem {
    pub id: String,
    pub label: String,
    pub accelerator: String,
    pub name: String,
    pub menu_item_type: MenuItemType,
    pub submenu: Option<Menu>,
    pub checked: bool,
    pub disabled: bool,
    pub visible: bool,
    pub icon: Option<MenuIcon>,
    pub uuid: u16,
    pub index: u32,
    pub menu_window_handle: isize,
    pub left: i32,
    pub top: i32,
    pub right: i32,
    pub bottom: i32,
    pub items: Option<Vec<MenuItem>>,
}

/// The abstract value of a menu item and of the items below it.
pub struct MenuItemView {
    pub id: Seq<char>,
    pub label: Seq<char>,
    pub accelerator: Seq<char>,
    pub name: Seq<char>,
    pub menu_item_type: MenuItemType,
    pub submenu: Option<Menu>,
    pub checked: bool,
    pub disabled: bool,
    pub visible: bool,
    pub icon: Option<MenuIconView>,
    pub uuid: u16,
    pub index: u32,
    pub menu_window_handle: isize,
    pub left: i32,
    pub top: i32,
    pub right: i32,
    pub bottom: i32,
    pub items: Option<Seq<MenuItemView>>,
}

impl MenuItem {
    /// The abstract value of this item.
    pub open spec fn item_view(self) -> MenuItemView
        decreases self,
    {
        MenuItemView {
            id: self.id@,
            label: self.label@,
            accelerator: self.accelerator@,
            name: self.name@,
            menu_item_type: self.menu_item_type,
            submenu: self.submenu,
            checked: self.checked,
            disabled: self.disabled,
            visible: self.visible,
            icon: icon_view(self.icon),
            uuid: self.uuid,
            index: self.index,
            menu_window_handle: self.menu_window_handle,
            left: self.left,
            top: self.top,
            right: self.right,
            bottom: self.bottom,
            items: match self.items {
                Some(v) => Some(
                    Seq::new(
                        v.len() as nat,
                        |i: int|
                            if 0 <= i < v.len() {
                                v[i].item_view()
                            } else {
                                arbitrary()
                            },
                    ),
                ),
                None => None,
            },
        }
    }
}

impl View for MenuItem {
    type V = MenuItemView;

    open spec fn view(&self) -> MenuItemView {
        self.item_view()
    }
}

/// The views of a list of items.
pub open spec fn items_view(v: Seq<MenuItem>) -> Seq<MenuItemView> {
    Seq::new(v.len(), |i: int| v[i]@)
}

/// The view of a submenu item's items is the list of their views.
pub proof fn lemma_children_view(item: MenuItem)
    requires
        item.items is Some,
    ensures
        item@.items == Some(items_view(item.items->0@)),
{
    let v = item.items->0;
    let a = Seq::new(
        v.len() as nat,
        |i: int|
            if 0 <= i < v.len() {
                v[i].item_view()
            } else {
                arbitrary()
            },
    );
    assert(a =~= items_view(v@));
}

/// The view of a freshly made item with the given fields and all others at
/// their start values: no submenu, index and geometry zero, visible.
pub open spec fn fresh_view(
    window_handle: isize,
    id: Seq<char>,
    label: Seq<char>,
    accelerator: Seq<char>,
    name: Seq<char>,
    checked: bool,
    disabled: bool,
    menu_item_type: MenuItemType,
    submenu: Option<Menu>,
    icon: Option<MenuIconView>,
    uuid: u16,
    items: Option<Seq<MenuItemView>>,
) -> MenuItemView {
    MenuItemView {
        id,
        label,
        accelerator,
        name,
        menu_item_type,
        submenu,
        checked,
        disabled,
        visible: true,
        icon,
        uuid,
        index: 0,
        menu_window_handle: window_handle,
        left: 0,
        top: 0,
        right: 0,
        bottom: 0,
        items,
    }
}

/// The characters of an optional accelerator; none is empty.
pub open spec fn accel_view(accelerator: Option<&str>) -> Seq<char> {
    match accelerator {
        Some(a) => a@,
        None => Seq::empty(),
    }
}

proof fn empty_literal()
    ensures
        ""@ == Seq::<char>::empty(),
{
    reveal_strlit("");
    assert(""@ =~= Seq::<char>::empty());
}

fn optional_str_to_string(s: Option<&str>) -> (r: String)
    ensures
        r@ == accel_view(s),
{
    match s {
        Some(a) => str_to_string(a),
        None => String::new(),
    }
}

impl MenuItem {
    /// A copy of the item, with copies of the items below it.
    pub fn dup(&self) -> (r: Self)
        ensures
            r@ == self@,
        decreases self,
    {
        let items = match &self.items {
            Some(v) => {
                let mut out: Vec<MenuItem> = Vec::new();
                let mut i: usize = 0;
                while i < v.len()
                    invariant
                        self.items == Some(*v),
                        i <= v.len(),
                        out.len() == i,
                        forall|k: int| 0 <= k < i ==> (#[trigger] out@[k])@ == v@[k]@,
                    decreases v.len() - i,
                {
                    proof {
                        broadcast use vstd::std_specs::vec::axiom_vec_index_decreases;

                        let ghost vv = self.items->0;
                        assert(decreases_to!(self.items => vv));
                        assert(decreases_to!(vv => vv[i as int]));
                    }
                    let c = v[i].dup();
                    out.push(c);
                    i += 1;
                }
                proof {
                    let a = Seq::new(out.len() as nat, |k: int| out[k].item_view());
                    let b = Seq::new(v.len() as nat, |k: int| v[k].item_view());
                    assert(a =~= b);
                    let sa = Seq::new(
                        out.len() as nat,
                        |k: int|
                            if 0 <= k < out.len() {
                                out[k].item_view()
                            } else {
                                arbitrary()
                            },
                    );
                    let sb = Seq::new(
                        v.len() as nat,
                        |k: int|
                            if 0 <= k < v.len() {
                                v[k].item_view()
                            } else {
                                arbitrary()
                            },
                    );
                    assert(sa =~= sb);
                }
                Some(out)
            },
            None => None,
        };
        let icon = match &self.icon {
            Some(i) => Some(i.dup()),
            None => None,
        };
        let r = MenuItem {
            id: self.id.clone(),
            label: self.label.clone(),
            accelerator: self.accelerator.clone(),
            name: self.name.clone(),
            menu_item_type: self.menu_item_type,
            submenu: self.submenu,
            checked: self.checked,
            disabled: self.disabled,
            visible: self.visible,
            icon,
            uuid: self.uuid,
            index: self.index,
            menu_window_handle: self.menu_window_handle,
            left: self.left,
            top: self.top,
            right: self.right,
            bottom: self.bottom,
            items,
        };
        proof {
            assert(r@.items == self@.items);
            assert(r@.icon == self@.icon);
        }
        r
    }

    /// A menu item of the given kind for the window `window_handle`.
    pub fn new(
        window_handle: isize,
        id: &str,
        label: &str,
        accelerator: &str,
        name: &str,
        checked: bool,
        disabled: bool,
        menu_item_type: MenuItemType,
        submenu: Option<Menu>,
        icon: Option<MenuIcon>,
        uuid: u16,
    ) -> (r: Self)
        ensures
            r@ == fresh_view(
                window_handle,
                id@,
                label@,
                accelerator@,
                name@,
                checked,
                disabled,
                menu_item_type,
                submenu,
                icon_view(icon),
                uuid,
                None,
            ),
    {
        MenuItem {
            id: str_to_string(id),
            label: str_to_string(label),
            accelerator: str_to_string(accelerator),
            name: str_to_string(name),
            menu_item_type,
            submenu,
            checked,
            disabled,
            visible: true,
            icon,
            uuid,
            index: 0,
            menu_window_handle: window_handle,
            left: 0,
            top: 0,
            right: 0,
            bottom: 0,
            items: None,
        }
    }

    /// A text item.
    pub fn new_text_item(
        id: &str,
        label: &str,
        accelerator: Option<&str>,
        disabled: bool,
        icon: Option<MenuIcon>,
        uuid: u16,
    ) -> (r: Self)
        ensures
            r@ == fresh_view(
                0,
                id@,
                label@,
                accel_view(accelerator),
                Seq::empty(),
                false,
                disabled,
                MenuItemType::Text,
                None,
                icon_view(icon),
                uuid,
                None,
            ),
    {
        proof { empty_literal(); }
        let accel = optional_str_to_string(accelerator);
        let mut item = MenuItem::new(0, id, label, "", "", false, disabled, MenuItemType::Text, None, icon, uuid);
        item.accelerator = accel;
        item
    }

    /// A check item.
    pub fn new_check_item(
        id: &str,
        label: &str,
        accelerator: Option<&str>,
        checked: bool,
        disabled: bool,
        icon: Option<MenuIcon>,
        uuid: u16,
    ) -> (r: Self)
        ensures
            r@ == fresh_view(
                0,
                id@,
                label@,
                accel_view(accelerator),
                Seq::empty(),
                checked,
                disabled,
                MenuItemType::Checkbox,
                None,
                icon_view(icon),
                uuid,
                None,
            ),
    {
        proof { empty_literal(); }
        let accel = optional_str_to_string(accelerator);
        let mut item = MenuItem::new(0, id, label, "", "", checked, disabled, MenuItemType::Checkbox, None, icon, uuid);
        item.accelerator = accel;
        item
    }

    /// A radio item of the group `name`.
    pub fn new_radio_item(
        id: &str,
        label: &str,
        name: &str,
        accelerator: Option<&str>,
        checked: bool,
        disabled: bool,
        icon: Option<MenuIcon>,
        uuid: u16,
    ) -> (r: Self)
        ensures
            r@ == fresh_view(
                0,
                id@,
                label@,
                accel_view(accelerator),
                name@,
                checked,
                disabled,
                MenuItemType::Radio,
                None,
                icon_view(icon),
                uuid,
                None,
            ),
    {
        let accel = optional_str_to_string(accelerator);
        let mut item = MenuItem::new(0, id, label, "", name, checked, disabled, MenuItemType::Radio, None, icon, uuid);
        item.accelerator = accel;
        item
    }

    /// A submenu item with no items yet.
    pub fn new_submenu_item(id: &str, label: &str, disabled: bool, icon: Option<MenuIcon>, uuid: u16) -> (r: Self)
        ensures
            r@ == fresh_view(
                0,
                id@,
                label@,
                Seq::empty(),
                Seq::empty(),
                false,
                disabled,
                MenuItemType::Submenu,
                None,
                icon_view(icon),
                uuid,
                Some(Seq::empty()),
            ),
    {
        proof { empty_literal(); }
        let mut item = MenuItem::new(0, id, label, "", "", false, disabled, MenuItemType::Submenu, None, icon, uuid);
        item.items = Some(Vec::new());
        proof {
            assert(item@.items->0 =~= Seq::<MenuItemView>::empty());
        }
        item
    }

    /// A separator.
    pub fn new_separator(uuid: u16) -> (r: Self)
        ensures
            r@ == fresh_view(
                0,
                Seq::empty(),
                Seq::empty(),
                Seq::empty(),
                Seq::empty(),
                false,
                false,
                MenuItemType::Separator,
                None,
                None,
                uuid,
                None,
            ),
    {
        proof { empty_literal(); }
        let r = MenuItem::new(0, "", "", "", "", false, false, MenuItemType::Separator, None, None, uuid);
        r
    }

    /// A separator with an id.
    pub fn new_separator_with_id(id: &str, uuid: u16) -> (r: Self)
        ensures
            r@ == fresh_view(
                0,
                id@,
                Seq::empty(),
                Seq::empty(),
                Seq::empty(),
                false,
                false,
                MenuItemType::Separator,
                None,
                None,
                uuid,
                None,
            ),
    {
        proof { empty_literal(); }
        let r = MenuItem::new(0, id, "", "", "", false, false, MenuItemType::Separator, None, None, uuid);
        r
    }
}

impl MenuItem {
    /// Sets the label of this item.
    pub fn set_label(&mut self, label: &str)
        ensures
            final(self)@ == (MenuItemView { label: label@, ..old(self)@ }),
    {
        self.label = str_to_string(label);
    }

    /// Sets whether this item is disabled.
    pub fn set_disabled(&mut self, disabled: bool)
        ensures
            final(self)@ == (MenuItemView { disabled, ..old(self)@ }),
    {
        self.disabled = disabled;
    }

    /// Sets whether this item is shown.
    pub fn set_visible(&mut self, visible: bool)
        ensures
            final(self)@ == (MenuItemView { visible, ..old(self)@ }),
    {
        self.visible = visible;
    }

    /// Sets whether this item is checked.
    pub fn set_checked(&mut self, checked: bool)
        ensures
            final(self)@ == (MenuItemView { checked, ..old(self)@ }),
    {
        self.checked = checked;
    }

    /// Sets the icon of this item; a separator keeps no icon and is left as it is.
    pub fn set_icon(&mut self, icon: Option<MenuIcon>)
        ensures
            old(self).menu_item_type == MenuItemType::Separator ==> final(self)@ == old(self)@,
            old(self).menu_item_type != MenuItemType::Separator ==> final(self)@ == (MenuItemView {
                icon: icon_view(icon),
                ..old(self)@
            }),
    {
        if self.menu_item_type == MenuItemType::Separator {
            return;
        }
        self.icon = icon;
    }

    /// Adds an item to the items of a submenu item; other items are left as they are.
    pub fn add_menu_item(&mut self, item: MenuItem)
        ensures
            old(self)@.items is Some ==> final(self)@ == (MenuItemView {
                items: Some(old(self)@.items->0.push(item@)),
                ..old(self)@
            }),
            old(self)@.items is None ==> final(self)@ == old(self)@,
    {
        let ghost item_view = item@;
        match self.items.take() {
            Some(mut v) => {
                let ghost before = v;
                v.push(item);
                proof {
                    assert(before@ =~= v@.drop_last());
                    let a = Seq::new(
                        v.len() as nat,
                        |k: int|
                            if 0 <= k < v.len() {
                                v[k].item_view()
                            } else {
                                arbitrary()
                            },
                    );
                    let b = Seq::new(
                        before.len() as nat,
                        |k: int|
                            if 0 <= k < before.len() {
                                before[k].item_view()
                            } else {
                                arbitrary()
                            },
                    );
                    assert(a =~= b.push(item_view));
                    assert(old(self).items == Some(before));
                    assert(old(self)@.items == Some(b));
                }
                self.items = Some(v);
                proof {
                    assert(self@.items == Some(Seq::new(
                        v.len() as nat,
                        |k: int|
                            if 0 <= k < v.len() {
                                v[k].item_view()
                            } else {
                                arbitrary()
                            },
                    )));
                }
            },
            None => {},
        }
    }

    /// A builder for an item of the given kind.
    pub fn builder(menu_item_type: MenuItemType, uuid: u16) -> (b: MenuItemBuilder)
        ensures
            b@ == fresh_view(
                0,
                Seq::empty(),
                Seq::empty(),
                Seq::empty(),
                Seq::empty(),
                false,
                false,
                menu_item_type,
                None,
                None,
                uuid,
                None,
            ),
    {
        proof { empty_literal(); }
        MenuItemBuilder {
            menu_item: MenuItem::new(0, "", "", "", "", false, false, menu_item_type, None, None, uuid),
        }
    }
}

/// Builder of a menu item.
pub struct MenuItemBuilder {
    menu_item: MenuItem,
}

impl View for MenuItemBuilder {
    type V = MenuItemView;

    closed spec fn view(&self) -> MenuItemView {
        self.menu_item@
    }
}

impl MenuItemBuilder {
    pub fn id(self, id: &str) -> (b: Self)
        ensures
            b@ == (MenuItemView { id: id@, ..self@ }),
    {
        let mut b = self;
        b.menu_item.id = str_to_string(id);
        b
    }

    pub fn label(self, label: &str) -> (b: Self)
        ensures
            b@ == (MenuItemView { label: label@, ..self@ }),
    {
        let mut b = self;
        b.menu_item.label = str_to_string(label);
        b
    }

    pub fn accelerator(self, accelerator: &str) -> (b: Self)
        ensures
            b@ == (MenuItemView { accelerator: accelerator@, ..self@ }),
    {
        let mut b = self;
        b.menu_item.accelerator = str_to_string(accelerator);
        b
    }

    pub fn name(self, name: &str) -> (b: Self)
        ensures
            b@ == (MenuItemView { name: name@, ..self@ }),
    {
        let mut b = self;
        b.menu_item.name = str_to_string(name);
        b
    }

    /// Sets the items of a submenu item; any other kind keeps its items.
    pub fn submenu(self, items: Vec<MenuItem>) -> (b: Self)
        ensures
            self@.menu_item_type == MenuItemType::Submenu ==> b@ == (MenuItemView {
                items: Some(items_view(items@)),
                ..self@
            }),
            self@.menu_item_type != MenuItemType::Submenu ==> b@ == self@,
    {
        let mut b = self;
        if b.menu_item.menu_item_type == MenuItemType::Submenu {
            let ghost iv = items;
            b.menu_item.items = Some(items);
            proof {
                let a = Seq::new(
                    iv.len() as nat,
                    |k: int|
                        if 0 <= k < iv.len() {
                            iv[k].item_view()
                        } else {
                            arbitrary()
                        },
                );
                assert(a =~= items_view(iv@));
                assert(b.menu_item@.items == Some(a));
            }
        }
        b
    }

    pub fn checked(self, checked: bool) -> (b: Self)
        ensures
            b@ == (MenuItemView { checked, ..self@ }),
    {
        let mut b = self;
        b.menu_item.checked = checked;
        b
    }

    pub fn disabled(self, disabled: bool) -> (b: Self)
        ensures
            b@ == (MenuItemView { disabled, ..self@ }),
    {
        let mut b = self;
        b.menu_item.disabled = disabled;
        b
    }

    pub fn visible(self, visible: bool) -> (b: Self)
        ensures
            b@ == (MenuItemView { visible, ..self@ }),
    {
        let mut b = self;
        b.menu_item.visible = visible;
        b
    }

    pub fn icon(self, icon: MenuIcon) -> (b: Self)
        ensures
            b@ == (MenuItemView { icon: Some(icon@), ..self@ }),
    {
        let mut b = self;
        b.menu_item.icon = Some(icon);
        b
    }

    /// The item that was built.
    pub fn build(self) -> (item: MenuItem)
        ensures
            item@ == self@,
    {
        self.menu_item
    }
}

} // verus!
