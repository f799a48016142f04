//! Themes: which theme a menu shows, how it answers a change of theme, and
//! the colors and style names that follow from the theme.
use vstd::prelude::*;
use crate::config::{ColorScheme, Theme, hex_from_rgb, rgba_bytes_from_hex, spec_rgba_bytes};
use crate::menu::{same_but_items, MenuData};
use crate::menu_item::{Menu, MenuType};
use crate::text::{chars_contain, str_to_chars};

verus! {

/// What caused a change of theme.
#[derive(Debug, Clone, Copy, PartialEq, Eq, Structural)]
pub enum ThemeChangeFactor {
    /// The system color setting changed.
    SystemSetting,
    /// The user asked for a theme.
    User,
    /// The application's theme changed.
    App,
}

/// Whether the theme shown is dark: `System` follows the system setting.
pub open spec fn spec_is_dark(theme: Theme, sys_dark: bool) -> bool {
    if theme == Theme::System {
        sys_dark
    } else {
        theme == Theme::Dark
    }
}

/// The theme shown for `theme`, `System` resolved with the system setting
/// `sys_dark`.
pub fn get_current_theme(theme: Theme, sys_dark: bool) -> (t: Theme)
    ensures
        t == if spec_is_dark(theme, sys_dark) {
            Theme::Dark
        } else {
            Theme::Light
        },
        t != Theme::System,
{
    let is_dark = if theme == Theme::System {
        sys_dark
    } else {
        theme == Theme::Dark
    };
    if is_dark {
        Theme::Dark
    } else {
        Theme::Light
    }
}

/// Whether a background color reads as dark: `5 G + 2 R + B` is at most 1024.
pub open spec fn spec_is_dark_color(r: u8, g: u8, b: u8) -> bool {
    5 * g + 2 * r + b <= 8 * 128
}

/// Whether a background color reads as dark.
pub fn is_dark_color(r: u8, g: u8, b: u8) -> (dark: bool)
    ensures
        dark == spec_is_dark_color(r, g, b),
{
    let sum: u32 = 5 * (g as u32) + 2 * (r as u32) + (b as u32);
    sum <= 8 * 128
}

/// The colors shown for a menu state: dark or light after its theme.
pub fn get_color_scheme(data: &MenuData, sys_dark: bool) -> (c: ColorScheme)
    ensures
        c == if spec_is_dark(data.current_theme, sys_dark) {
            data.config.color.dark
        } else {
            data.config.color.light
        },
{
    let is_dark = if data.current_theme == Theme::System {
        sys_dark
    } else {
        data.current_theme == Theme::Dark
    };
    if is_dark {
        data.config.color.dark
    } else {
        data.config.color.light
    }
}

/// The theme a menu takes after a change of theme, or `None` when it keeps
/// its state. A submenu follows its main menu and is left alone. A change
/// of the system setting matters only to a menu that follows the system. A
/// requested theme is taken as it is; otherwise a menu that follows the
/// system keeps doing so, and any other menu turns dark or light after
/// `app_dark`, what the platform reports for the application.
pub open spec fn spec_theme_after_change(
    menu_type: MenuType,
    current: Theme,
    preferred: Option<Theme>,
    factor: ThemeChangeFactor,
    app_dark: bool,
) -> Option<Theme> {
    if menu_type == MenuType::Submenu {
        None
    } else if current != Theme::System && factor == ThemeChangeFactor::SystemSetting {
        None
    } else {
        match preferred {
            Some(p) => Some(p),
            None => if current == Theme::System {
                Some(current)
            } else if app_dark {
                Some(Theme::Dark)
            } else {
                Some(Theme::Light)
            },
        }
    }
}

/// Whether each state of `after` is that of `before` with the theme `theme`.
pub open spec fn all_take_theme(before: Seq<MenuData>, after: Seq<MenuData>, theme: Theme) -> bool {
    &&& after.len() == before.len()
    &&& forall|k: int| 0 <= k < before.len() ==> #[trigger] after[k] == (MenuData { current_theme: theme, ..before[k] })
}

/// Gives every submenu state the theme `theme`.
fn pass_theme(submenus: &mut Vec<MenuData>, theme: Theme)
    ensures
        all_take_theme(old(submenus)@, final(submenus)@, theme),
{
    let mut k: usize = 0;
    while k < submenus.len()
        invariant
            k <= submenus.len(),
            submenus.len() == old(submenus).len(),
            forall|j: int| 0 <= j < k ==> #[trigger] submenus@[j] == (MenuData { current_theme: theme, ..old(submenus)@[j] }),
            forall|j: int| k <= j < submenus.len() ==> #[trigger] submenus@[j] == old(submenus)@[j],
        decreases submenus.len() - k,
    {
        submenus[k].current_theme = theme;
        k += 1;
    }
}

/// Answers a change of theme on the state of a main menu and hands the new
/// theme on to `submenus`, the states of its submenus at any depth; returns
/// the new theme, or `None` when nothing changed.
pub fn on_theme_change(
    data: &mut MenuData,
    submenus: &mut Vec<MenuData>,
    preferred: Option<Theme>,
    factor: ThemeChangeFactor,
    app_dark: bool,
) -> (r: Option<Theme>)
    requires
        factor == ThemeChangeFactor::User ==> preferred is Some,
    ensures
        r == spec_theme_after_change(old(data).menu_type, old(data).current_theme, preferred, factor, app_dark),
        final(data).current_theme == match r {
            Some(t) => t,
            None => old(data).current_theme,
        },
        final(data).items == old(data).items,
        same_but_items(*final(data), MenuData { current_theme: final(data).current_theme, ..*old(data) }),
        match r {
            Some(t) => all_take_theme(old(submenus)@, final(submenus)@, t),
            None => final(submenus)@ == old(submenus)@,
        },
{
    if data.menu_type == MenuType::Submenu {
        return None;
    }
    let current = data.current_theme;
    if current != Theme::System && factor == ThemeChangeFactor::SystemSetting {
        return None;
    }
    let new_theme = match preferred {
        Some(p) => p,
        None => {
            if current == Theme::System {
                current
            } else if app_dark {
                Theme::Dark
            } else {
                Theme::Light
            }
        },
    };
    data.current_theme = new_theme;
    pass_theme(submenus, new_theme);
    Some(new_theme)
}

impl Menu {
    /// Sets the theme for Menu: `data` is the state of the menu's theme
    /// window (see `theme_handle`), which takes the theme unless it is a
    /// submenu's, and `submenus` the states of the submenus below it at any
    /// depth, which take it with it.
    pub fn set_theme(&self, data: &mut MenuData, submenus: &mut Vec<MenuData>, theme: Theme)
        ensures
            final(data).current_theme == if old(data).menu_type == MenuType::Submenu {
                old(data).current_theme
            } else {
                theme
            },
            same_but_items(*final(data), MenuData { current_theme: final(data).current_theme, ..*old(data) }),
            final(data).items == old(data).items,
            old(data).menu_type == MenuType::Submenu ==> final(submenus)@ == old(submenus)@,
            old(data).menu_type != MenuType::Submenu ==> all_take_theme(old(submenus)@, final(submenus)@, theme),
    {
        let _ = on_theme_change(data, submenus, Some(theme), ThemeChangeFactor::User, false);
    }
}

/// Style name of the Gtk widgets of a menu for a theme.
pub open spec fn spec_widget_name(theme: Theme) -> Seq<char> {
    match theme {
        Theme::Dark => "wcpopup-dark"@,
        Theme::Light => "wcpopup-light"@,
        Theme::System => "wcpopup"@,
    }
}

/// Style name of the Gtk widgets of a menu for a theme.
pub fn get_widget_name(theme: Theme) -> (name: &'static str)
    ensures
        name@ == spec_widget_name(theme),
{
    match theme {
        Theme::Dark => "wcpopup-dark",
        Theme::Light => "wcpopup-light",
        Theme::System => "wcpopup",
    }
}

/// The lowercase form of a string, as `str::to_lowercase` gives it.
pub uninterp spec fn lowercase(s: Seq<char>) -> Seq<char>;

/// Calls `str::to_lowercase`. Its result is named `lowercase` and nothing
/// more is stated of it here: the Unicode case tables are not written out.
#[verifier::external_body]
fn to_lowercase(s: &str) -> (r: String)
    ensures
        r@ == lowercase(s@),
{
    s.to_lowercase()
}

/// Whether the name of a Gtk theme, in lowercase, contains "dark".
pub fn is_dark_theme_name(theme_name: &str) -> (dark: bool)
    ensures
        dark == crate::text::spec_contains(lowercase(theme_name@), "dark"@),
{
    let lower = to_lowercase(theme_name);
    let hay = str_to_chars(lower.as_str());
    let needle = str_to_chars("dark");
    chars_contain(&hay, &needle)
}

/// Whether a Windows version is Windows 11: major version 10, build 22000
/// or later.
pub fn is_win11_version(major: u32, build: u32) -> (r: bool)
    ensures
        r == (major == 10 && build >= 22000),
{
    major == 10 && build >= 22000
}

/// The border color a Windows 11 menu window gets, as a `COLORREF` (red in
/// the low byte): the border color of its colors when it has a border,
/// `None` (no border color) otherwise.
pub open spec fn spec_border_colorref(data: MenuData, sys_dark: bool) -> Option<u32> {
    if data.config.size.border_size > 0 {
        let scheme = if spec_is_dark(data.current_theme, sys_dark) {
            data.config.color.dark
        } else {
            data.config.color.light
        };
        let c = spec_rgba_bytes(scheme.border);
        Some((c.b * 0x10000 + c.g * 0x100 + c.r) as u32)
    } else {
        None
    }
}

/// The border color a Windows 11 menu window gets.
pub fn border_colorref(data: &MenuData, sys_dark: bool) -> (r: Option<u32>)
    ensures
        r == spec_border_colorref(*data, sys_dark),
{
    if data.config.size.border_size > 0 {
        let scheme = get_color_scheme(data, sys_dark);
        let c = rgba_bytes_from_hex(scheme.border);
        Some(hex_from_rgb(c.b, c.g, c.r))
    } else {
        None
    }
}

} // verus!
