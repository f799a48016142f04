//! Layout of a menu: the space reserved for check marks, icons and submenu
//! arrows, the extent of each item, the place of each item and the size of
//! the menu.
use vstd::prelude::*;
use crate::config::{Corner, IconSettings, MenuConfig};
use crate::menu_item::{MenuItem, MenuItemType, MenuItemView, MenuIconKind};

verus! {

/// Corner radius of a round menu window.
pub const CORNER_RADIUS: i32 = 8;

/// Smallest width of a button-like part of an item.
pub const MIN_BUTTON_WIDTH: i32 = 4;

/// Margin put beside an icon when none is configured.
pub const DEFAULT_ICON_MARGIN: i32 = 6;

/// Width and height of a menu window.
#[derive(Debug, Clone, Copy, PartialEq, Eq, Structural)]
pub struct Size {
    pub width: i32,
    pub height: i32,
}

/// Width of an icon slot and the margins on its two sides.
#[derive(Debug, Clone, Copy, PartialEq, Eq, Structural)]
pub struct IconSize {
    pub width: i32,
    pub lmargin: i32,
    pub rmargin: i32,
}

/// The three icon slots of an item: check mark, icon and submenu arrow.
#[derive(Debug, Clone, Copy, PartialEq, Eq, Structural)]
pub struct IconSpace {
    pub left: IconSize,
    pub mid: IconSize,
    pub right: IconSize,
}

/// Size of the text of an item as the platform measured it, in pixels.
#[derive(Debug, Clone, Copy, PartialEq, Eq, Structural)]
pub struct TextSize {
    pub width: i32,
    pub height: i32,
}

/// An empty icon slot.
pub open spec fn no_icon_size() -> IconSize {
    IconSize { width: 0, lmargin: 0, rmargin: 0 }
}

/// No icon slots.
pub open spec fn no_icon_space() -> IconSpace {
    IconSpace { left: no_icon_size(), mid: no_icon_size(), right: no_icon_size() }
}

impl Default for IconSize {
    fn default() -> (s: Self)
        ensures
            s == no_icon_size(),
    {
        IconSize { width: 0, lmargin: 0, rmargin: 0 }
    }
}

impl Default for IconSpace {
    fn default() -> (s: Self)
        ensures
            s == no_icon_space(),
    {
        IconSpace { left: IconSize::default(), mid: IconSize::default(), right: IconSize::default() }
    }
}

/// Margin put on the outer side of a check mark, icon or arrow.
pub open spec fn default_margin() -> int {
    MIN_BUTTON_WIDTH + DEFAULT_ICON_MARGIN
}

/// A check item or a radio item that is shown.
pub open spec fn is_shown_check(item: MenuItem) -> bool {
    (item.menu_item_type == MenuItemType::Checkbox || item.menu_item_type == MenuItemType::Radio)
        && item.visible
}

/// A submenu item that is shown.
pub open spec fn is_shown_submenu(item: MenuItem) -> bool {
    item.menu_item_type == MenuItemType::Submenu && item.visible
}

/// An item with an icon that is shown.
pub open spec fn is_shown_icon(item: MenuItem) -> bool {
    item.icon is Some && item.visible
}

/// The width an icon declares: its pixel width for raw pixels, 0 for a file.
pub open spec fn declared_icon_width(item: MenuItem) -> u32 {
    match item.icon {
        Some(icon) => match icon.icon {
            MenuIconKind::Path(_) => 0,
            MenuIconKind::Rgba(r) => r.width,
        },
        None => 0,
    }
}

/// The largest declared icon width among the first `n` items (0 for none).
pub open spec fn max_icon_width(items: Seq<MenuItem>, n: int) -> u32
    decreases n,
{
    if n <= 0 {
        0
    } else {
        let m = max_icon_width(items, n - 1);
        let w = declared_icon_width(items[n - 1]);
        if w > m {
            w
        } else {
            m
        }
    }
}

/// The icon slots of a menu with these items. A check slot is made when a
/// check or radio item is shown, an icon slot when an item with an icon is
/// shown (as wide as the widest of the check mark and the declared icon
/// widths), and an arrow slot when a submenu item is shown.
pub open spec fn spec_icon_space(
    items: Seq<MenuItem>,
    horizontal_margin: Option<i32>,
    check_svg_size: i32,
    submenu_svg_size: i32,
) -> IconSpace {
    if items.len() == 0 {
        no_icon_space()
    } else {
        let has_check = exists|i: int| 0 <= i < items.len() && is_shown_check(#[trigger] items[i]);
        let has_submenu = exists|i: int| 0 <= i < items.len() && is_shown_submenu(#[trigger] items[i]);
        let has_icon = exists|i: int| 0 <= i < items.len() && is_shown_icon(#[trigger] items[i]);
        let max_icon: u32 = if has_icon {
            max_icon_width(items, items.len() as int)
        } else {
            0
        };
        let icon_width = max_icon as i32;
        IconSpace {
            left: if has_check {
                IconSize { width: check_svg_size, lmargin: 0, rmargin: default_margin() as i32 }
            } else {
                no_icon_size()
            },
            mid: if has_icon {
                IconSize {
                    width: if check_svg_size >= icon_width {
                        check_svg_size
                    } else {
                        icon_width
                    },
                    lmargin: match horizontal_margin {
                        Some(m) => m,
                        None => 0,
                    },
                    rmargin: match horizontal_margin {
                        Some(m) => m,
                        None => default_margin() as i32,
                    },
                }
            } else {
                no_icon_size()
            },
            right: if has_submenu {
                IconSize { width: submenu_svg_size, lmargin: (2 * default_margin()) as i32, rmargin: 0 }
            } else {
                no_icon_size()
            },
        }
    }
}

fn declared_width(item: &MenuItem) -> (w: u32)
    ensures
        w == declared_icon_width(*item),
{
    match &item.icon {
        Some(icon) => match &icon.icon {
            MenuIconKind::Path(_) => 0,
            MenuIconKind::Rgba(r) => r.width,
        },
        None => 0,
    }
}

/// The icon slots of a menu with these items; `check_svg_size` and
/// `submenu_svg_size` are the widths of the check mark and arrow images.
pub fn get_icon_space(
    items: &Vec<MenuItem>,
    icon_settings: &IconSettings,
    check_svg_size: i32,
    submenu_svg_size: i32,
) -> (s: IconSpace)
    ensures
        s == spec_icon_space(items@, icon_settings.horizontal_margin, check_svg_size, submenu_svg_size),
{
    if items.len() == 0 {
        return IconSpace::default();
    }
    let mut has_check = false;
    let mut has_submenu = false;
    let mut has_icon = false;
    let mut max_icon: u32 = 0;
    let mut i: usize = 0;
    while i < items.len()
        invariant
            i <= items.len(),
            has_check == exists|k: int| 0 <= k < i && is_shown_check(#[trigger] items@[k]),
            has_submenu == exists|k: int| 0 <= k < i && is_shown_submenu(#[trigger] items@[k]),
            has_icon == exists|k: int| 0 <= k < i && is_shown_icon(#[trigger] items@[k]),
            max_icon == max_icon_width(items@, i as int),
        decreases items.len() - i,
    {
        let item = &items[i];
        if (item.menu_item_type == MenuItemType::Checkbox || item.menu_item_type == MenuItemType::Radio)
            && item.visible {
            has_check = true;
        }
        if item.menu_item_type == MenuItemType::Submenu && item.visible {
            has_submenu = true;
        }
        if item.icon.is_some() && item.visible {
            has_icon = true;
        }
        let w = declared_width(item);
        if w > max_icon {
            max_icon = w;
        }
        i += 1;
        proof {
            assert(is_shown_check(items@[i - 1]) ==> has_check);
            assert(is_shown_submenu(items@[i - 1]) ==> has_submenu);
            assert(is_shown_icon(items@[i - 1]) ==> has_icon);
        }
    }
    let default_margin: i32 = MIN_BUTTON_WIDTH + DEFAULT_ICON_MARGIN;
    let icon_width: i32 = if has_icon {
        max_icon as i32
    } else {
        0
    };
    let left = if has_check {
        IconSize { width: check_svg_size, lmargin: 0, rmargin: default_margin }
    } else {
        IconSize::default()
    };
    let mid = if has_icon {
        IconSize {
            width: if check_svg_size >= icon_width {
                check_svg_size
            } else {
                icon_width
            },
            lmargin: match icon_settings.horizontal_margin {
                Some(m) => m,
                None => 0,
            },
            rmargin: match icon_settings.horizontal_margin {
                Some(m) => m,
                None => default_margin,
            },
        }
    } else {
        IconSize::default()
    };
    let right = if has_submenu {
        IconSize { width: submenu_svg_size, lmargin: default_margin * 2, rmargin: 0 }
    } else {
        IconSize::default()
    };
    IconSpace { left, mid, right }
}

/// Whether a value fits in an `i32`.
pub open spec fn in_i32(x: int) -> bool {
    i32::MIN <= x <= i32::MAX
}

/// Total width of an icon slot with its margins.
pub open spec fn icon_sum(s: IconSize) -> int {
    s.width + s.lmargin + s.rmargin
}

/// Absolute value.
pub open spec fn abs(x: int) -> int {
    if x < 0 {
        -x
    } else {
        x
    }
}

/// Width and height of an item. A separator is as high as its stroke and
/// the item paddings. Any other item is as high as its text (or the taller
/// icon slot) and the paddings, and as wide as its text, its paddings, the
/// check and arrow slots, the icon slot when it has an icon or icon space is
/// reserved, and room for the accelerator when it has one.
pub open spec fn item_extent(item: MenuItem, text: TextSize, c: MenuConfig, sp: IconSpace) -> (int, int) {
    if item.menu_item_type == MenuItemType::Separator {
        (0, c.size.separator_size + 2 * c.size.item_vertical_padding)
    } else {
        let text_height = abs(text.height as int);
        let icon_height: int = if sp.left.width >= sp.right.width {
            sp.left.width as int
        } else {
            sp.right.width as int
        };
        let height = (if text_height < icon_height {
            icon_height
        } else {
            text_height
        }) + 2 * c.size.item_vertical_padding;
        let width = text.width + 2 * c.size.item_horizontal_padding + icon_sum(sp.left) + (if item.icon is Some
            || c.icon.reserve_icon_size {
            icon_sum(sp.mid)
        } else {
            0
        }) + icon_sum(sp.right) + (if item.accelerator@.len() > 0 {
            default_margin()
        } else {
            0
        });
        (width, height)
    }
}

/// Width and height of an item, as `item_extent` states.
pub fn measure_item(item: &MenuItem, config: &MenuConfig, icon_space: IconSpace, text: TextSize) -> (r: (i64, i64))
    ensures
        r.0 == item_extent(*item, text, *config, icon_space).0,
        r.1 == item_extent(*item, text, *config, icon_space).1,
        -0x8_0000_0000 <= r.0 <= 0x8_0000_0000,
        -0x8_0000_0000 <= r.1 <= 0x8_0000_0000,
{
    let s = config.size;
    if item.menu_item_type == MenuItemType::Separator {
        return (0, s.separator_size as i64 + 2 * (s.item_vertical_padding as i64));
    }
    let mut height: i64 = text.height as i64;
    if height < 0 {
        height = -height;
    }
    let icon_height: i64 = if icon_space.left.width >= icon_space.right.width {
        icon_space.left.width as i64
    } else {
        icon_space.right.width as i64
    };
    if height < icon_height {
        height = icon_height;
    }
    height = height + 2 * (s.item_vertical_padding as i64);
    let left = icon_space.left;
    let mid = icon_space.mid;
    let right = icon_space.right;
    let mut width: i64 = text.width as i64;
    width = width + 2 * (s.item_horizontal_padding as i64);
    width = width + left.width as i64 + left.lmargin as i64 + left.rmargin as i64;
    if item.icon.is_some() || config.icon.reserve_icon_size {
        width = width + mid.width as i64 + mid.lmargin as i64 + mid.rmargin as i64;
    }
    width = width + right.width as i64 + right.lmargin as i64 + right.rmargin as i64;
    if item.accelerator.as_str().unicode_len() > 0 {
        width = width + (MIN_BUTTON_WIDTH + DEFAULT_ICON_MARGIN) as i64;
    }
    (width, height)
}

/// Extra height a round menu keeps at its top and at its bottom.
pub open spec fn round_extra(c: MenuConfig) -> int {
    if c.corner == Corner::Round {
        CORNER_RADIUS as int
    } else {
        0
    }
}

/// Top of the first item.
pub open spec fn first_top(c: MenuConfig) -> int {
    c.size.vertical_padding + c.size.border_size + round_extra(c)
}

/// Left of every shown item.
pub open spec fn items_left(c: MenuConfig) -> int {
    c.size.border_size + c.size.horizontal_padding
}

/// Total height of the shown items among the first `n`.
pub open spec fn heights_before(
    items: Seq<MenuItem>,
    texts: Seq<TextSize>,
    c: MenuConfig,
    sp: IconSpace,
    n: int,
) -> int
    decreases n,
{
    if n <= 0 {
        0
    } else {
        heights_before(items, texts, c, sp, n - 1) + if items[n - 1].visible {
            item_extent(items[n - 1], texts[n - 1], c, sp).1
        } else {
            0
        }
    }
}

/// Largest width of the shown items among the first `n` (0 for none).
pub open spec fn widest(items: Seq<MenuItem>, texts: Seq<TextSize>, c: MenuConfig, sp: IconSpace, n: int) -> int
    decreases n,
{
    if n <= 0 {
        0
    } else {
        let m = widest(items, texts, c, sp, n - 1);
        let w = item_extent(items[n - 1], texts[n - 1], c, sp).0;
        if items[n - 1].visible && w > m {
            w
        } else {
            m
        }
    }
}

/// Top of item `i`.
pub open spec fn item_top(items: Seq<MenuItem>, texts: Seq<TextSize>, c: MenuConfig, sp: IconSpace, i: int) -> int {
    first_top(c) + heights_before(items, texts, c, sp, i)
}

/// Bottom of item `i`.
pub open spec fn item_bottom(items: Seq<MenuItem>, texts: Seq<TextSize>, c: MenuConfig, sp: IconSpace, i: int) -> int {
    item_top(items, texts, c, sp, i) + item_extent(items[i], texts[i], c, sp).1
}

/// Right of every shown item: the left plus the widest shown item.
pub open spec fn items_right(items: Seq<MenuItem>, texts: Seq<TextSize>, c: MenuConfig, sp: IconSpace) -> int {
    items_left(c) + widest(items, texts, c, sp, items.len() as int)
}

/// Width of the menu: the widest item, the paddings and the borders.
pub open spec fn menu_width(items: Seq<MenuItem>, texts: Seq<TextSize>, c: MenuConfig, sp: IconSpace) -> int {
    widest(items, texts, c, sp, items.len() as int) + 2 * c.size.horizontal_padding + 2 * c.size.border_size
}

/// Height of the menu: the items, the paddings, the round corners and the borders.
pub open spec fn menu_height(items: Seq<MenuItem>, texts: Seq<TextSize>, c: MenuConfig, sp: IconSpace) -> int {
    first_top(c) + heights_before(items, texts, c, sp, items.len() as int) + c.size.vertical_padding
        + round_extra(c) + c.size.border_size
}

/// Whether every place and size the layout stores fits in an `i32`.
pub open spec fn layout_fits(items: Seq<MenuItem>, texts: Seq<TextSize>, c: MenuConfig, sp: IconSpace) -> bool {
    &&& in_i32(items_left(c))
    &&& in_i32(items_right(items, texts, c, sp))
    &&& in_i32(menu_width(items, texts, c, sp))
    &&& in_i32(menu_height(items, texts, c, sp))
    &&& forall|i: int|
        0 <= i < items.len() && (#[trigger] items[i]).visible ==> in_i32(item_top(items, texts, c, sp, i))
            && in_i32(item_bottom(items, texts, c, sp, i))
}

/// The view of item `i` once laid out: its index is `i`; a shown item gets
/// its place, an item that is not shown gets -1 on every side.
pub open spec fn laid_out(
    items: Seq<MenuItem>,
    texts: Seq<TextSize>,
    c: MenuConfig,
    sp: IconSpace,
    i: int,
) -> MenuItemView {
    let v = items[i]@;
    if v.visible {
        MenuItemView {
            index: i as u32,
            left: items_left(c) as i32,
            top: item_top(items, texts, c, sp, i) as i32,
            right: items_right(items, texts, c, sp) as i32,
            bottom: item_bottom(items, texts, c, sp, i) as i32,
            ..v
        }
    } else {
        MenuItemView { index: i as u32, left: -1i32, top: -1i32, right: -1i32, bottom: -1i32, ..v }
    }
}

/// The size of the menu.
pub open spec fn menu_size(items: Seq<MenuItem>, texts: Seq<TextSize>, c: MenuConfig, sp: IconSpace) -> Size {
    Size { width: menu_width(items, texts, c, sp) as i32, height: menu_height(items, texts, c, sp) as i32 }
}

fn set_geometry(item: &mut MenuItem, index: u32, left: i32, top: i32, right: i32, bottom: i32)
    ensures
        final(item)@ == (MenuItemView { index, left, top, right, bottom, ..old(item)@ }),
        final(item).visible == old(item).visible,
{
    item.index = index;
    item.left = left;
    item.top = top;
    item.right = right;
    item.bottom = bottom;
}

proof fn lemma_heights_step(items: Seq<MenuItem>, texts: Seq<TextSize>, c: MenuConfig, sp: IconSpace, n: int)
    requires
        n >= 0,
    ensures
        heights_before(items, texts, c, sp, n + 1) == heights_before(items, texts, c, sp, n) + if items[n].visible {
            item_extent(items[n], texts[n], c, sp).1
        } else {
            0
        },
{
}

/// Lays out the items: each item gets its index, and each shown item its
/// place, one below the other; returns the size of the menu. When a place or
/// the size does not fit in an `i32`, returns `None` and changes nothing.
pub fn calculate(items: &mut Vec<MenuItem>, config: &MenuConfig, icon_space: IconSpace, texts: &Vec<TextSize>) -> (r:
    Option<Size>)
    requires
        old(items).len() == texts.len(),
        old(items).len() <= u32::MAX,
    ensures
        r is Some <==> layout_fits(old(items)@, texts@, *config, icon_space),
        r is None ==> *final(items) == *old(items),
        r is Some ==> {
            &&& final(items).len() == old(items).len()
            &&& forall|i: int|
                0 <= i < old(items).len() ==> (#[trigger] final(items)@[i])@ == laid_out(
                    old(items)@,
                    texts@,
                    *config,
                    icon_space,
                    i,
                )
            &&& r->0 == menu_size(old(items)@, texts@, *config, icon_space)
        },
{
    let ghost old_items = items@;
    let ghost c = *config;
    let s = config.size;
    let round: i64 = if config.corner == Corner::Round {
        CORNER_RADIUS as i64
    } else {
        0
    };
    let first: i64 = s.vertical_padding as i64 + s.border_size as i64 + round;
    let mut height: i64 = first;
    let mut width: i64 = 0;
    let mut i: usize = 0;
    while i < items.len()
        invariant
            items@ == old_items,
            items.len() == texts.len(),
            i <= items.len(),
            c == *config,
            first == first_top(c),
            height == first_top(c) + heights_before(old_items, texts@, c, icon_space, i as int),
            width == widest(old_items, texts@, c, icon_space, i as int),
            -0x4_0000_0000 <= height <= 0x4_0000_0000,
            0 <= width <= 0x8_0000_0000,
            forall|k: int|
                0 <= k < i && (#[trigger] old_items[k]).visible ==> in_i32(
                    item_top(old_items, texts@, c, icon_space, k),
                ) && in_i32(item_bottom(old_items, texts@, c, icon_space, k)),
        decreases items.len() - i,
    {
        proof {
            lemma_heights_step(old_items, texts@, c, icon_space, i as int);
        }
        if items[i].visible {
            let (w, h) = measure_item(&items[i], config, icon_space, texts[i]);
            let top = height;
            let bottom = height + h;
            if top < i32::MIN as i64 || top > i32::MAX as i64 || bottom < i32::MIN as i64 || bottom
                > i32::MAX as i64 {
                proof {
                    assert(old_items[i as int].visible);
                    assert(!layout_fits(old_items, texts@, c, icon_space));
                }
                return None;
            }
            if w > width {
                width = w;
            }
            height = bottom;
        }
        i += 1;
    }
    let left: i64 = s.border_size as i64 + s.horizontal_padding as i64;
    let right: i64 = left + width;
    let total_width: i64 = width + 2 * (s.horizontal_padding as i64) + 2 * (s.border_size as i64);
    let total_height: i64 = height + s.vertical_padding as i64 + round + s.border_size as i64;
    if left < i32::MIN as i64 || left > i32::MAX as i64 || right < i32::MIN as i64 || right > i32::MAX as i64
        || total_width < i32::MIN as i64 || total_width > i32::MAX as i64 || total_height < i32::MIN as i64
        || total_height > i32::MAX as i64 {
        return None;
    }
    proof {
        assert(layout_fits(old_items, texts@, c, icon_space));
    }
    let left32 = left as i32;
    let right32 = right as i32;
    let mut top: i64 = first;
    let mut j: usize = 0;
    while j < items.len()
        invariant
            items.len() == old_items.len(),
            old_items.len() == texts.len(),
            old_items.len() <= u32::MAX,
            j <= items.len(),
            c == *config,
            layout_fits(old_items, texts@, c, icon_space),
            left32 == items_left(c),
            right32 == items_right(old_items, texts@, c, icon_space),
            top == first_top(c) + heights_before(old_items, texts@, c, icon_space, j as int),
            forall|k: int| 0 <= k < j ==> (#[trigger] items@[k])@ == laid_out(old_items, texts@, c, icon_space, k),
            forall|k: int| j <= k < items.len() ==> #[trigger] items@[k] == old_items[k],
        decreases items.len() - j,
    {
        proof {
            lemma_heights_step(old_items, texts@, c, icon_space, j as int);
        }
        if items[j].visible {
            let (_w, h) = measure_item(&items[j], config, icon_space, texts[j]);
            let bottom = top + h;
            proof {
                assert(old_items[j as int].visible);
                assert(in_i32(item_top(old_items, texts@, c, icon_space, j as int)));
                assert(in_i32(item_bottom(old_items, texts@, c, icon_space, j as int)));
            }
            set_geometry(&mut items[j], j as u32, left32, top as i32, right32, bottom as i32);
            top = bottom;
        } else {
            set_geometry(&mut items[j], j as u32, -1, -1, -1, -1);
        }
        proof {
            assert(items@[j as int]@ == laid_out(old_items, texts@, c, icon_space, j as int));
        }
        j += 1;
    }
    Some(Size { width: total_width as i32, height: total_height as i32 })
}

} // verus!
