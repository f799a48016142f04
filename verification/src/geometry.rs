//! Placement of a menu on the screen and of the parts of an item inside the
//! menu: the point a menu opens at, where a submenu opens, and the
//! rectangles of check marks, icons, texts, arrows and separators.
use vstd::prelude::*;
use crate::config::{ColorScheme, Corner, MenuSize};
use crate::layout::{icon_sum, in_i32, IconSpace, CORNER_RADIUS};
use crate::menu::MenuData;
use crate::menu_item::{Menu, MenuItem, MenuItemType};

verus! {

/// A rectangle in pixels.
#[derive(Debug, Clone, Copy, PartialEq, Eq, Structural)]
pub struct Rect {
    pub left: i32,
    pub top: i32,
    pub right: i32,
    pub bottom: i32,
}

/// Where a menu opens: its top-left corner, and whether it was moved to the
/// left of the point (`rtl`) or above it (`reverse`) to stay on the screen.
#[derive(Debug, Clone, Copy, PartialEq, Eq, Structural)]
pub struct DisplayPoint {
    pub x: i32,
    pub y: i32,
    pub rtl: bool,
    pub reverse: bool,
}

/// The start coordinate on one axis: a point before the work area moves to
/// the monitor's edge.
pub open spec fn clamp_start(p: int, work_start: int, monitor_start: int) -> int {
    if p < work_start {
        monitor_start
    } else {
        p
    }
}

/// Where a menu of size `cx` by `cy` opens for the point `(x, y)` on a
/// monitor with work area `work`: it is moved to the monitor's edge when the
/// point lies before the work area, and it opens to the left of or above the
/// point when it would reach the end of the work area.
pub open spec fn spec_display_point(x: int, y: int, cx: int, cy: int, work: Rect, monitor: Rect) -> (int, int, bool, bool) {
    let px = clamp_start(x, work.left as int, monitor.left as int);
    let py = clamp_start(y, work.top as int, monitor.top as int);
    let reverse = py + cy >= work.bottom;
    let rtl = px + cx >= work.right;
    (if rtl {
        px - cx
    } else {
        px
    }, if reverse {
        py - cy
    } else {
        py
    }, rtl, reverse)
}

/// Whether the sums and differences the placement computes fit in `i32`.
pub open spec fn display_point_fits(x: int, y: int, cx: int, cy: int, work: Rect, monitor: Rect) -> bool {
    let px = clamp_start(x, work.left as int, monitor.left as int);
    let py = clamp_start(y, work.top as int, monitor.top as int);
    &&& in_i32(px + cx)
    &&& in_i32(py + cy)
    &&& in_i32(px - cx)
    &&& in_i32(py - cy)
}

/// Where a menu of size `cx` by `cy` opens for the point `(x, y)`; `None`
/// when a coordinate it computes leaves `i32`.
pub fn get_display_point(x: i32, y: i32, cx: i32, cy: i32, work: Rect, monitor: Rect) -> (r: Option<DisplayPoint>)
    ensures
        r is Some <==> display_point_fits(x as int, y as int, cx as int, cy as int, work, monitor),
        r is Some ==> (r->0.x as int, r->0.y as int, r->0.rtl, r->0.reverse) == spec_display_point(
            x as int,
            y as int,
            cx as int,
            cy as int,
            work,
            monitor,
        ),
{
    let px: i64 = if x < work.left {
        monitor.left as i64
    } else {
        x as i64
    };
    let py: i64 = if y < work.top {
        monitor.top as i64
    } else {
        y as i64
    };
    let (cx, cy) = (cx as i64, cy as i64);
    let min = i32::MIN as i64;
    let max = i32::MAX as i64;
    if px + cx < min || px + cx > max || py + cy < min || py + cy > max || px - cx < min || px - cx > max || py
        - cy < min || py - cy > max {
        return None;
    }
    let reverse = py + cy >= work.bottom as i64;
    let rtl = px + cx >= work.right as i64;
    let x2 = if rtl {
        px - cx
    } else {
        px
    };
    let y2 = if reverse {
        py - cy
    } else {
        py
    };
    Some(DisplayPoint { x: x2 as i32, y: y2 as i32, rtl, reverse })
}

impl Menu {
    /// Where the menu opens for the point `(x, y)`, given its state and the
    /// work area and bounds of the monitor under the point.
    pub fn popup_at(&self, data: &MenuData, x: i32, y: i32, work: Rect, monitor: Rect) -> (r: Option<DisplayPoint>)
        ensures
            r is Some <==> display_point_fits(x as int, y as int, data.size.width as int, data.size.height as int, work, monitor),
            r is Some ==> (r->0.x as int, r->0.y as int, r->0.rtl, r->0.reverse) == spec_display_point(
                x as int,
                y as int,
                data.size.width as int,
                data.size.height as int,
                work,
                monitor,
            ),
    {
        get_display_point(x, y, data.size.width, data.size.height, work, monitor)
    }
}

/// Extra height of a round corner.
pub open spec fn corner_size(corner: Corner) -> int {
    if corner == Corner::Round {
        CORNER_RADIUS as int
    } else {
        0
    }
}

/// Where a submenu opens beside its item. Horizontally it opens at the
/// right edge of the menu, shifted by the submenu offset, or at its left
/// edge when `pt` says it must open to the left. Vertically its first item
/// lines up with the submenu item, or, when `pt` says it must open above,
/// its last item lines up with the submenu item, whose bottom is
/// `client_bottom_y` on the screen.
pub open spec fn spec_submenu_position(
    menu_rect: Rect,
    item_top: int,
    client_bottom_y: int,
    submenu: (int, int),
    pt: DisplayPoint,
    size: MenuSize,
    corner: Corner,
) -> (int, int) {
    let x = if pt.rtl {
        menu_rect.left - submenu.0 - size.submenu_offset
    } else {
        menu_rect.right + size.submenu_offset
    };
    let y = if pt.reverse {
        client_bottom_y - submenu.1 + 2 * size.vertical_padding + corner_size(corner) + size.border_size
    } else {
        menu_rect.top + item_top - size.vertical_padding - corner_size(corner) - size.border_size
    };
    (x, y)
}

/// Where a submenu of width `submenu_width` and height `submenu_height`
/// opens beside the item whose top is `item_top` inside the menu window
/// `menu_rect`; `client_bottom_y` is the screen height of the item's bottom.
/// `None` when a coordinate leaves `i32`.
pub fn submenu_position(
    menu_rect: Rect,
    item_top: i32,
    client_bottom_y: i32,
    submenu_width: i32,
    submenu_height: i32,
    pt: DisplayPoint,
    size: MenuSize,
    corner: Corner,
) -> (r: Option<(i32, i32)>)
    ensures
        ({
            let p = spec_submenu_position(
                menu_rect,
                item_top as int,
                client_bottom_y as int,
                (submenu_width as int, submenu_height as int),
                pt,
                size,
                corner,
            );
            &&& r is Some <==> in_i32(p.0) && in_i32(p.1)
            &&& r matches Some(q) ==> q.0 == p.0 && q.1 == p.1
        }),
{
    let x: i64 = if pt.rtl {
        menu_rect.left as i64 - submenu_width as i64 - size.submenu_offset as i64
    } else {
        menu_rect.right as i64 + size.submenu_offset as i64
    };
    let round: i64 = if corner == Corner::Round {
        CORNER_RADIUS as i64
    } else {
        0
    };
    let y: i64 = if pt.reverse {
        client_bottom_y as i64 - submenu_height as i64 + 2 * (size.vertical_padding as i64) + round
            + size.border_size as i64
    } else {
        menu_rect.top as i64 + item_top as i64 - size.vertical_padding as i64 - round - size.border_size as i64
    };
    if x < i32::MIN as i64 || x > i32::MAX as i64 || y < i32::MIN as i64 || y > i32::MAX as i64 {
        return None;
    }
    Some((x as i32, y as i32))
}

/// Half of `d`, rounded up.
pub open spec fn ceil_half(d: int) -> int {
    if d >= 0 {
        (d + 1) / 2
    } else {
        -((-d) / 2)
    }
}

/// Half of `d`, rounded toward zero, as integer division does.
pub open spec fn trunc_half(d: int) -> int {
    if d >= 0 {
        d / 2
    } else {
        -((-d) / 2)
    }
}

/// The top at which something `target_height` high sits centered in a space
/// `item_height` high starting at `top`, half of the leftover rounded up.
/// The heights are at most 2^23 in size, where single-precision arithmetic
/// computes this exactly.
pub fn to_vertical_middle(top: i32, item_height: i32, target_height: i32) -> (r: i32)
    requires
        -0x80_0000 <= item_height <= 0x80_0000,
        -0x80_0000 <= target_height <= 0x80_0000,
        in_i32(top + ceil_half(item_height - target_height)),
    ensures
        r == top + ceil_half(item_height - target_height),
{
    let d: i64 = item_height as i64 - target_height as i64;
    let half: i64 = if d >= 0 {
        (d + 1) / 2
    } else {
        -((-d) / 2)
    };
    (top as i64 + half) as i32
}

/// The rectangle of an item.
pub fn get_item_rect(item: &MenuItem) -> (r: Rect)
    ensures
        r == (Rect { left: item.left, top: item.top, right: item.right, bottom: item.bottom }),
{
    Rect { left: item.left, top: item.top, right: item.right, bottom: item.bottom }
}

/// The rectangle inside an item's paddings.
pub open spec fn spec_content_rect(r: Rect, size: MenuSize) -> (int, int, int, int) {
    (
        r.left + size.item_horizontal_padding,
        r.top + size.item_vertical_padding,
        r.right - size.item_horizontal_padding,
        r.bottom - size.item_vertical_padding,
    )
}

/// Whether each side of a rectangle given by four values fits in `i32`.
pub open spec fn rect_fits(r: (int, int, int, int)) -> bool {
    in_i32(r.0) && in_i32(r.1) && in_i32(r.2) && in_i32(r.3)
}

/// Whether a rectangle has the four given sides.
pub open spec fn rect_is(r: Rect, s: (int, int, int, int)) -> bool {
    r.left == s.0 && r.top == s.1 && r.right == s.2 && r.bottom == s.3
}

/// The rectangle inside an item's paddings, where its parts are drawn;
/// `None` when a side leaves `i32`.
pub fn content_rect(r: Rect, size: MenuSize) -> (c: Option<Rect>)
    ensures
        c is Some <==> rect_fits(spec_content_rect(r, size)),
        c is Some ==> rect_is(c->0, spec_content_rect(r, size)),
{
    let left = r.left as i64 + size.item_horizontal_padding as i64;
    let top = r.top as i64 + size.item_vertical_padding as i64;
    let right = r.right as i64 - size.item_horizontal_padding as i64;
    let bottom = r.bottom as i64 - size.item_vertical_padding as i64;
    make_rect(left, top, right, bottom)
}

/// The rectangle with these sides, when each fits in `i32`.
fn make_rect(left: i64, top: i64, right: i64, bottom: i64) -> (r: Option<Rect>)
    ensures
        r is Some <==> rect_fits((left as int, top as int, right as int, bottom as int)),
        r is Some ==> rect_is(r->0, (left as int, top as int, right as int, bottom as int)),
{
    let min = i32::MIN as i64;
    let max = i32::MAX as i64;
    if left < min || left > max || top < min || top > max || right < min || right > max || bottom < min || bottom
        > max {
        None
    } else {
        Some(Rect { left: left as i32, top: top as i32, right: right as i32, bottom: bottom as i32 })
    }
}

/// The rectangle inside the borders of a menu window.
pub open spec fn spec_inner_rect(client: Rect, border_size: int) -> (int, int, int, int) {
    (client.left + border_size, client.top + border_size, client.right - border_size, client.bottom - border_size)
}

/// The rectangle inside the borders of a menu window, filled with the
/// background color; `None` when a side leaves `i32`.
pub fn background_rect(client: Rect, border_size: i32) -> (c: Option<Rect>)
    ensures
        c is Some <==> rect_fits(spec_inner_rect(client, border_size as int)),
        c is Some ==> rect_is(c->0, spec_inner_rect(client, border_size as int)),
{
    let b = border_size as i64;
    make_rect(client.left as i64 + b, client.top as i64 + b, client.right as i64 - b, client.bottom as i64 - b)
}

/// Where the check mark of an item is drawn: at the left of the content,
/// after its margin, centered in height.
pub open spec fn spec_checkmark_origin(content: Rect, sp: IconSpace) -> (int, int) {
    (content.left + sp.left.lmargin, content.top + ceil_half((content.bottom - content.top) - sp.left.width))
}

/// Whether a height and a width lie where single-precision arithmetic
/// centers exactly: at most 2^23 in size.
pub open spec fn centering_exact(height: int, width: int) -> bool {
    -0x80_0000 <= height <= 0x80_0000 && -0x80_0000 <= width <= 0x80_0000
}

/// Where the check mark of an item is drawn; `None` when the content height
/// or the slot width is beyond 2^23 in size, or a coordinate leaves `i32`.
pub fn checkmark_origin(content: Rect, icon_space: IconSpace) -> (r: Option<(i32, i32)>)
    ensures
        ({
            let o = spec_checkmark_origin(content, icon_space);
            &&& r is Some <==> centering_exact(content.bottom - content.top, icon_space.left.width as int)
                && in_i32(o.0) && in_i32(o.1)
            &&& r matches Some(q) ==> q.0 == o.0 && q.1 == o.1
        }),
{
    let h: i64 = content.bottom as i64 - content.top as i64;
    let w = icon_space.left.width;
    if h < -0x80_0000 || h > 0x80_0000 || w < -0x80_0000 || w > 0x80_0000 {
        return None;
    }
    let left: i64 = content.left as i64 + icon_space.left.lmargin as i64;
    let top: i64 = content.top as i64 + half_up(h - w as i64);
    if left < i32::MIN as i64 || left > i32::MAX as i64 || top < i32::MIN as i64 || top > i32::MAX as i64 {
        return None;
    }
    Some((left as i32, to_vertical_middle(content.top, h as i32, w)))
}

/// Half of `d`, rounded up.
fn half_up(d: i64) -> (r: i64)
    requires
        -0x100_0000 <= d <= 0x100_0000,
    ensures
        r == ceil_half(d as int),
{
    if d >= 0 {
        (d + 1) / 2
    } else {
        -((-d) / 2)
    }
}

/// Where the icon of an item is drawn: after the check slot and the icon's
/// left margin, as wide and high as the icon slot, centered in height.
pub open spec fn spec_icon_rect(content: Rect, sp: IconSpace) -> (int, int, int, int) {
    let left = content.left + icon_sum(sp.left) + sp.mid.lmargin;
    let top = content.top + ceil_half((content.bottom - content.top) - sp.mid.width);
    (left, top, left + sp.mid.width, top + sp.mid.width)
}

/// Where the icon of an item is drawn; an SVG icon is drawn from the
/// rectangle's top-left corner. `None` when the content height or the slot
/// width is beyond 2^23 in size, or a side leaves `i32`.
pub fn icon_rect(content: Rect, icon_space: IconSpace) -> (r: Option<Rect>)
    ensures
        r is Some <==> centering_exact(content.bottom - content.top, icon_space.mid.width as int) && rect_fits(
            spec_icon_rect(content, icon_space),
        ),
        r is Some ==> rect_is(r->0, spec_icon_rect(content, icon_space)),
{
    let h: i64 = content.bottom as i64 - content.top as i64;
    let w = icon_space.mid.width;
    if h < -0x80_0000 || h > 0x80_0000 || w < -0x80_0000 || w > 0x80_0000 {
        return None;
    }
    let l = icon_space.left;
    let left: i64 = content.left as i64 + l.width as i64 + l.lmargin as i64 + l.rmargin as i64
        + icon_space.mid.lmargin as i64;
    let top: i64 = content.top as i64 + half_up(h - w as i64);
    make_rect(left, top, left + w as i64, top + w as i64)
}

/// Where the text of an item is drawn: after the check slot, and after the
/// icon slot when the menu has icons but no check slot, when icon space is
/// reserved or when the item has an icon; it ends before the arrow slot of
/// a submenu item, or before the arrow slot's right margin otherwise.
pub open spec fn spec_text_rect(
    content: Rect,
    sp: IconSpace,
    is_submenu: bool,
    has_icon: bool,
    menu_has_icons: bool,
    reserve_icon_size: bool,
) -> (int, int, int, int) {
    let check_margin = icon_sum(sp.left);
    let icon_margin = if (check_margin == 0 && menu_has_icons) || reserve_icon_size || has_icon {
        icon_sum(sp.mid)
    } else {
        0
    };
    let arrow_margin = if is_submenu {
        icon_sum(sp.right)
    } else {
        sp.right.rmargin as int
    };
    (content.left + check_margin + icon_margin, content.top as int, content.right - arrow_margin, content.bottom as int)
}

/// Where the text of an item is drawn; `menu_has_icons` tells whether any
/// item of the menu has an icon. `None` when a side leaves `i32`.
pub fn text_rect(
    content: Rect,
    icon_space: IconSpace,
    item: &MenuItem,
    menu_has_icons: bool,
    reserve_icon_size: bool,
) -> (r: Option<Rect>)
    ensures
        ({
            let t = spec_text_rect(
                content,
                icon_space,
                item.menu_item_type == MenuItemType::Submenu,
                item.icon is Some,
                menu_has_icons,
                reserve_icon_size,
            );
            &&& r is Some <==> rect_fits(t)
            &&& r is Some ==> rect_is(r->0, t)
        }),
{
    let l = icon_space.left;
    let m = icon_space.mid;
    let a = icon_space.right;
    let check_margin: i64 = l.lmargin as i64 + l.width as i64 + l.rmargin as i64;
    let icon_margin: i64 = if (check_margin == 0 && menu_has_icons) || reserve_icon_size || item.icon.is_some() {
        m.width as i64 + m.lmargin as i64 + m.rmargin as i64
    } else {
        0
    };
    let arrow_margin: i64 = if item.menu_item_type == MenuItemType::Submenu {
        a.lmargin as i64 + a.width as i64 + a.rmargin as i64
    } else {
        a.rmargin as i64
    };
    make_rect(
        content.left as i64 + check_margin + icon_margin,
        content.top as i64,
        content.right as i64 - arrow_margin,
        content.bottom as i64,
    )
}

/// Where the arrow of a submenu item is drawn: at the right of the content,
/// before the arrow slot's left margin, centered in height.
pub open spec fn spec_arrow_origin(content: Rect, sp: IconSpace) -> (int, int) {
    (content.right - (sp.right.lmargin + sp.right.width), content.top + ceil_half(
        (content.bottom - content.top) - sp.right.width,
    ))
}

/// Where the arrow of a submenu item is drawn; `None` when the content
/// height or the slot width is beyond 2^23 in size, or a coordinate leaves
/// `i32`.
pub fn arrow_origin(content: Rect, icon_space: IconSpace) -> (r: Option<(i32, i32)>)
    ensures
        ({
            let o = spec_arrow_origin(content, icon_space);
            &&& r is Some <==> centering_exact(content.bottom - content.top, icon_space.right.width as int)
                && in_i32(o.0) && in_i32(o.1)
            &&& r matches Some(q) ==> q.0 == o.0 && q.1 == o.1
        }),
{
    let h: i64 = content.bottom as i64 - content.top as i64;
    let w = icon_space.right.width;
    if h < -0x80_0000 || h > 0x80_0000 || w < -0x80_0000 || w > 0x80_0000 {
        return None;
    }
    let left: i64 = content.right as i64 - (icon_space.right.lmargin as i64 + w as i64);
    let top: i64 = content.top as i64 + half_up(h - w as i64);
    if left < i32::MIN as i64 || left > i32::MAX as i64 || top < i32::MIN as i64 || top > i32::MAX as i64 {
        return None;
    }
    Some((left as i32, top as i32))
}

/// The rectangle whose top edge is the line of a separator: from the middle
/// of the item down to its bottom.
pub open spec fn spec_separator_rect(r: Rect) -> (int, int, int, int) {
    (r.left as int, r.top + trunc_half(r.bottom - r.top), r.right as int, r.bottom as int)
}

/// The rectangle whose top edge is the line of a separator; `None` when the
/// height of `r` leaves `i32`.
pub fn separator_rect(r: Rect) -> (s: Option<Rect>)
    ensures
        s is Some <==> in_i32(r.bottom - r.top),
        s is Some ==> rect_is(s->0, spec_separator_rect(r)),
{
    let h = r.bottom as i64 - r.top as i64;
    if h < i32::MIN as i64 || h > i32::MAX as i64 {
        return None;
    }
    let h32 = h as i32;
    Some(Rect { left: r.left, top: r.top + h32 / 2, right: r.right, bottom: r.bottom })
}

/// Whether item `index` is drawn as selected: it is the selected item and
/// it is not disabled.
pub fn is_selected_item(data: &MenuData, index: usize) -> (selected: bool)
    requires
        index < data.items.len(),
    ensures
        selected == (index as int == data.selected_index && !data.items@[index as int].disabled),
{
    data.selected_index >= 0 && index == data.selected_index as usize && !data.items[index].disabled
}

/// Corner radius of a menu's window and frame.
pub fn corner_radius(corner: Corner) -> (r: i32)
    ensures
        r == corner_size(corner),
{
    if corner == Corner::Round {
        CORNER_RADIUS
    } else {
        0
    }
}

/// Top and bottom padding of a Gtk menu: at least the corner radius when
/// the corners are round.
pub fn menu_vertical_padding(size: MenuSize, corner: Corner) -> (p: i32)
    ensures
        p == if corner == Corner::Round && size.vertical_padding < CORNER_RADIUS {
            CORNER_RADIUS
        } else {
            size.vertical_padding
        },
{
    if corner == Corner::Round && size.vertical_padding < CORNER_RADIUS {
        CORNER_RADIUS
    } else {
        size.vertical_padding
    }
}

/// Border width of a Gtk menu: the border size, or 0 when it is not positive.
pub fn menu_border_width(size: MenuSize) -> (w: i32)
    ensures
        w == if size.border_size > 0 {
            size.border_size
        } else {
            0
        },
{
    if size.border_size > 0 {
        size.border_size
    } else {
        0
    }
}

/// Border color of a Gtk menu: the border color when there is a border,
/// otherwise the background color, so that no border shows.
pub fn menu_border_color(size: MenuSize, scheme: &ColorScheme) -> (c: u32)
    ensures
        c == if size.border_size > 0 {
            scheme.border
        } else {
            scheme.background_color
        },
{
    if size.border_size > 0 {
        scheme.border
    } else {
        scheme.background_color
    }
}

} // verus!
