//! Rules of the Gtk menus: whether an activation is reported, and which
//! item images are shown.
use vstd::prelude::*;
use crate::config::{append_decimal, append_str, spec_decimal};
use crate::menu_item::{items_view, MenuItem, MenuItemType, MenuItemView};

verus! {

/// Whether the activation of an item is reported, and the item's new state.
/// A check item takes the widget's state and is reported unless its event
/// was suppressed; a radio item likewise, but only when it became active; a
/// submenu item is never reported; other items always are. A suppressed
/// event clears the suppression.
pub fn should_send(menu_item_type: MenuItemType, is_active: bool, checked: &mut bool, suppress_event: &mut bool) -> (send: bool)
    ensures
        menu_item_type == MenuItemType::Checkbox || menu_item_type == MenuItemType::Radio ==> {
            &&& *final(checked) == is_active
            &&& *final(suppress_event) == false
            &&& send == (!*old(suppress_event) && (menu_item_type == MenuItemType::Checkbox || is_active))
        },
        !(menu_item_type == MenuItemType::Checkbox || menu_item_type == MenuItemType::Radio) ==> {
            &&& *final(checked) == *old(checked)
            &&& *final(suppress_event) == *old(suppress_event)
            &&& send == (menu_item_type != MenuItemType::Submenu)
        },
{
    match menu_item_type {
        MenuItemType::Checkbox => {
            *checked = is_active;
            if *suppress_event {
                *suppress_event = false;
                false
            } else {
                true
            }
        },
        MenuItemType::Radio => {
            *checked = is_active;
            if *suppress_event {
                *suppress_event = false;
                false
            } else {
                *checked
            }
        },
        MenuItemType::Submenu => false,
        _ => true,
    }
}

/// What happens to the image of an item.
#[derive(Debug, Clone, Copy, PartialEq, Eq, Structural)]
pub enum IconVisibility {
    Keep,
    Show,
    Hide,
}

/// What happens to the image of each item: when no item of the menu has an
/// icon every image is hidden; otherwise the image of an item with an icon,
/// or of every item when icon space is reserved, is shown. Separators have
/// no image.
pub open spec fn spec_icon_visibility(items: Seq<MenuItemView>, reserve_icon_size: bool, k: int) -> IconVisibility {
    let has_icon = exists|j: int| 0 <= j < items.len() && (#[trigger] items[j]).icon is Some;
    if items[k].menu_item_type == MenuItemType::Separator {
        IconVisibility::Keep
    } else if !has_icon {
        IconVisibility::Hide
    } else if reserve_icon_size || items[k].icon is Some {
        IconVisibility::Show
    } else {
        IconVisibility::Keep
    }
}

/// What happens to the image of each item of a menu.
pub fn toggle_icon(items: &Vec<MenuItem>, reserve_icon_size: bool) -> (r: Vec<IconVisibility>)
    ensures
        r.len() == items.len(),
        forall|k: int| 0 <= k < items.len() ==> r@[k] == spec_icon_visibility(items_view(items@), reserve_icon_size, k),
{
    let ghost iv = items_view(items@);
    let mut has_icon = false;
    let mut i: usize = 0;
    while i < items.len()
        invariant
            i <= items.len(),
            iv == items_view(items@),
            has_icon == exists|j: int| 0 <= j < i && (#[trigger] iv[j]).icon is Some,
        decreases items.len() - i,
    {
        proof {
            assert(iv[i as int] == items@[i as int]@);
        }
        if items[i].icon.is_some() {
            has_icon = true;
        }
        i += 1;
    }
    let mut r: Vec<IconVisibility> = Vec::new();
    let mut k: usize = 0;
    while k < items.len()
        invariant
            k <= items.len(),
            r.len() == k,
            iv == items_view(items@),
            has_icon == exists|j: int| 0 <= j < items.len() && (#[trigger] iv[j]).icon is Some,
            forall|m: int| 0 <= m < k ==> r@[m] == spec_icon_visibility(iv, reserve_icon_size, m),
        decreases items.len() - k,
    {
        proof {
            assert(iv[k as int] == items@[k as int]@);
        }
        let v = if items[k].menu_item_type == MenuItemType::Separator {
            IconVisibility::Keep
        } else if !has_icon {
            IconVisibility::Hide
        } else if reserve_icon_size || items[k].icon.is_some() {
            IconVisibility::Show
        } else {
            IconVisibility::Keep
        };
        r.push(v);
        k += 1;
    }
    r
}

/// The first item of the radio group `name`, whose group a new radio item
/// joins; `None` when the group has no item yet.
pub fn radio_group_item(items: &Vec<MenuItem>, name: &str) -> (r: Option<usize>)
    ensures
        match r {
            Some(k) => k < items.len() && items@[k as int].name@ == name@ && forall|j: int|
                0 <= j < k ==> (#[trigger] items@[j]).name@ != name@,
            None => forall|j: int| 0 <= j < items.len() ==> (#[trigger] items@[j]).name@ != name@,
        },
{
    let mut i: usize = 0;
    while i < items.len()
        invariant
            i <= items.len(),
            forall|j: int| 0 <= j < i ==> (#[trigger] items@[j]).name@ != name@,
        decreases items.len() - i,
    {
        if crate::text::str_eq(items[i].name.as_str(), name) {
            return Some(i);
        }
        i += 1;
    }
    None
}

/// The decimal notation of an integer, with a minus sign when negative.
pub open spec fn spec_signed_decimal(v: int) -> Seq<char> {
    if v < 0 {
        seq!['-'] + spec_decimal((-v) as nat)
    } else {
        spec_decimal(v as nat)
    }
}

pub(crate) fn append_signed(out: &mut String, v: i32)
    ensures
        final(out)@ == old(out)@ + spec_signed_decimal(v as int),
{
    if v < 0 {
        crate::text::push_char(out, '-');
        let m: i64 = -(v as i64);
        append_decimal(out, m as u32);
        assert(final(out)@ =~= old(out)@ + spec_signed_decimal(v as int));
    } else {
        append_decimal(out, v as u32);
    }
}

/// The style of an item's left and right padding: none unless it is
/// above zero.
pub open spec fn spec_item_padding_css(padding: i32) -> Seq<char> {
    if padding > 0 {
        "padding-right: "@ + spec_decimal(padding as nat) + "px; padding-left: "@ + spec_decimal(padding as nat)
            + "px;"@
    } else {
        Seq::empty()
    }
}

/// The style of an item's left and right padding: none unless it is
/// above zero.
pub fn item_padding_css(padding: i32) -> (css: String)
    ensures
        css@ == spec_item_padding_css(padding),
{
    let mut css = String::new();
    if padding > 0 {
        append_str(&mut css, "padding-right: ");
        append_decimal(&mut css, padding as u32);
        append_str(&mut css, "px; padding-left: ");
        append_decimal(&mut css, padding as u32);
        append_str(&mut css, "px;");
    } else {
        proof {
            assert(css@ =~= Seq::<char>::empty());
        }
    }
    css
}

/// The style of the check-mark or arrow image: the configured image file
/// (recolored when it is an SVG file) at its size, or, with no file, a
/// square as large as the font, whose size `font_size` is given as text.
pub open spec fn spec_icon_source_css(
    file: Option<Seq<char>>,
    is_svg: bool,
    width: i32,
    height: i32,
    font_size: Seq<char>,
) -> Seq<char> {
    match file {
        Some(path) => (if is_svg {
            "-gtk-icon-source: -gtk-recolor(url(\""@ + path + "\"));"@
        } else {
            "-gtk-icon-source: url(\""@ + path + "\");"@
        }) + " min-width: "@ + spec_signed_decimal(width as int) + "px; min-height: "@ + spec_signed_decimal(
            height as int,
        ) + "px;"@,
        None => "min-width: "@ + font_size + "px; min-height: "@ + font_size + "px;"@,
    }
}

/// The style of the check-mark or arrow image: the configured image file
/// (recolored when it is an SVG file) at its size, or, with no file, a
/// square as large as the font, whose size `font_size` is given as text.
pub fn icon_source_css(file: Option<&str>, is_svg: bool, width: i32, height: i32, font_size: &str) -> (css: String)
    ensures
        css@ == spec_icon_source_css(
            match file {
                Some(p) => Some(p@),
                None => None,
            },
            is_svg,
            width,
            height,
            font_size@,
        ),
{
    let mut css = String::new();
    match file {
        Some(path) => {
            if is_svg {
                append_str(&mut css, "-gtk-icon-source: -gtk-recolor(url(\"");
                append_str(&mut css, path);
                append_str(&mut css, "\"));");
            } else {
                append_str(&mut css, "-gtk-icon-source: url(\"");
                append_str(&mut css, path);
                append_str(&mut css, "\");");
            }
            append_str(&mut css, " min-width: ");
            append_signed(&mut css, width);
            append_str(&mut css, "px; min-height: ");
            append_signed(&mut css, height);
            append_str(&mut css, "px;");
        },
        None => {
            append_str(&mut css, "min-width: ");
            append_str(&mut css, font_size);
            append_str(&mut css, "px; min-height: ");
            append_str(&mut css, font_size);
            append_str(&mut css, "px;");
        },
    }
    css
}

} // verus!
