//! Menu configuration: theme, corner, sizes, colors, icon settings, and the
//! conversions between packed color values and their components.
use vstd::prelude::*;

verus! {

/// Color theme of a menu.
#[derive(Debug, Clone, Copy, PartialEq, Eq, Structural)]
pub enum Theme {
    Dark,
    Light,
    System,
}

/// Corner preference of the menu window.
#[derive(Debug, Clone, Copy, PartialEq, Eq, Structural)]
pub enum Corner {
    Round,
    DoNotRound,
}

/// Size settings of Menu.
#[derive(Debug, Clone, Copy, PartialEq, Eq, Structural)]
pub struct MenuSize {
    /// Border width and height.
    pub border_size: i32,
    /// Top and bottom paddings of Menu.
    pub vertical_padding: i32,
    /// Left and right paddings of Menu.
    pub horizontal_padding: i32,
    /// Top and bottom paddings of MenuItem.
    pub item_vertical_padding: i32,
    /// Left and right paddings of MenuItem.
    pub item_horizontal_padding: i32,
    /// Submenu position relative to Menu.
    pub submenu_offset: i32,
    /// Separator height (stroke width).
    pub separator_size: i32,
}

impl Default for MenuSize {
    /// border 0, paddings 0, item vertical padding 8, item horizontal padding 0,
    /// submenu offset -3, separator 1.
    fn default() -> (s: Self)
        ensures
            s.border_size == 0,
            s.vertical_padding == 0,
            s.horizontal_padding == 0,
            s.item_vertical_padding == 8,
            s.item_horizontal_padding == 0,
            s.submenu_offset == -3,
            s.separator_size == 1,
    {
        MenuSize {
            border_size: 0,
            vertical_padding: 0,
            horizontal_padding: 0,
            item_vertical_padding: 8,
            item_horizontal_padding: 0,
            submenu_offset: -3,
            separator_size: 1,
        }
    }
}

/// Menu color settings for text, accelerator, border and background.
#[derive(Debug, Clone, Copy, PartialEq, Eq, Structural)]
pub struct ColorScheme {
    /// MenuItem text color.
    pub color: u32,
    /// MenuItem accelerator text color.
    pub accelerator: u32,
    /// Menu border color.
    pub border: u32,
    /// Menu separator color.
    pub separator: u32,
    /// Disabled MenuItem color.
    pub disabled: u32,
    /// Menu background color.
    pub background_color: u32,
    /// MenuItem hover color.
    pub hover_background_color: u32,
}

/// The default colors of the dark theme.
pub open spec fn spec_default_dark_color_scheme() -> ColorScheme {
    ColorScheme {
        color: 0xe7e0e0,
        accelerator: 0xe7e0e08c,
        border: 0x454545,
        separator: 0x454545,
        disabled: 0x565659,
        background_color: 0x252526,
        hover_background_color: 0x3b3a3a,
    }
}

/// The default colors of the light theme.
pub open spec fn spec_default_light_color_scheme() -> ColorScheme {
    ColorScheme {
        color: 0x494747,
        accelerator: 0x635e5e,
        border: 0xe9e2e2,
        separator: 0xe9e2e2,
        disabled: 0xc5c1c1,
        background_color: 0xFFFFFF,
        hover_background_color: 0xefefef,
    }
}

/// Default colors for the dark theme.
pub fn default_dark_color_scheme() -> (s: ColorScheme)
    ensures
        s == spec_default_dark_color_scheme(),
{
    ColorScheme {
        color: 0xe7e0e0,
        accelerator: 0xe7e0e08c,
        border: 0x454545,
        separator: 0x454545,
        disabled: 0x565659,
        background_color: 0x252526,
        hover_background_color: 0x3b3a3a,
    }
}

/// Default colors for the light theme.
pub fn default_light_color_scheme() -> (s: ColorScheme)
    ensures
        s == spec_default_light_color_scheme(),
{
    ColorScheme {
        color: 0x494747,
        accelerator: 0x635e5e,
        border: 0xe9e2e2,
        separator: 0xe9e2e2,
        disabled: 0xc5c1c1,
        background_color: 0xFFFFFF,
        hover_background_color: 0xefefef,
    }
}

/// Color settings for Dark and Light Theme.
#[derive(Debug, Clone, Copy, PartialEq, Eq, Structural)]
pub struct ThemeColor {
    pub dark: ColorScheme,
    pub light: ColorScheme,
}

impl Default for ThemeColor {
    fn default() -> (c: Self)
        ensures
            c.dark == spec_default_dark_color_scheme(),
            c.light == spec_default_light_color_scheme(),
    {
        ThemeColor { dark: default_dark_color_scheme(), light: default_light_color_scheme() }
    }
}

/// Font weight: Thin 100, Light 300, Normal 400, Medium 500, Bold 700.
#[derive(Debug, Clone, Copy, PartialEq, Eq, Structural)]
pub enum FontWeight {
    Thin,
    Light,
    Normal,
    Medium,
    Bold,
}

/// The numeric weight of a font weight.
pub open spec fn spec_font_weight(weight: FontWeight) -> u32 {
    match weight {
        FontWeight::Thin => 100,
        FontWeight::Light => 300,
        FontWeight::Normal => 400,
        FontWeight::Medium => 500,
        FontWeight::Bold => 700,
    }
}

/// The numeric weight of a font weight.
pub fn to_font_weight(weight: FontWeight) -> (w: u32)
    ensures
        w == spec_font_weight(weight),
{
    match weight {
        FontWeight::Thin => 100,
        FontWeight::Light => 300,
        FontWeight::Normal => 400,
        FontWeight::Medium => 500,
        FontWeight::Bold => 700,
    }
}

/// The style name of a numeric weight; unknown weights are "Regular".
pub open spec fn spec_font_weight_string(weight: u32) -> Seq<char> {
    if weight == 100 {
        "Thin"@
    } else if weight == 300 {
        "Light"@
    } else if weight == 500 {
        "Medium"@
    } else if weight == 700 {
        "Bold"@
    } else {
        "Regular"@
    }
}

/// The style name of a numeric weight; unknown weights are "Regular".
pub fn to_font_weight_string(weight: u32) -> (s: &'static str)
    ensures
        s@ == spec_font_weight_string(weight),
{
    if weight == 100 {
        "Thin"
    } else if weight == 300 {
        "Light"
    } else if weight == 500 {
        "Medium"
    } else if weight == 700 {
        "Bold"
    } else {
        "Regular"
    }
}

/// An SVG file used for the check mark or the submenu arrow.
#[derive(Debug, Clone, PartialEq, Eq)]
pub struct MenuSVG {
    pub path: String,
    pub width: i32,
    pub height: i32,
}

/// Icon settings.
#[derive(Debug, Clone)]
pub struct IconSettings {
    /// SVG to override the default check-mark SVG for check/radio menu item.
    pub check_svg: Option<MenuSVG>,
    /// SVG to override the default arrow SVG for submenu item.
    pub arrow_svg: Option<MenuSVG>,
    /// Whether to reserve space for icons regardless of their actual presence.
    pub reserve_icon_size: bool,
    /// Left and right margins of the icons set to menu items.
    pub horizontal_margin: Option<i32>,
}

impl Default for IconSettings {
    fn default() -> (s: Self)
        ensures
            s.check_svg.is_none(),
            s.arrow_svg.is_none(),
            !s.reserve_icon_size,
            s.horizontal_margin.is_none(),
    {
        IconSettings { check_svg: None, arrow_svg: None, reserve_icon_size: false, horizontal_margin: None }
    }
}

/// A color value carries alpha when it is larger than 24 bits.
pub open spec fn spec_has_alpha(value: u32) -> bool {
    value > 0xFFFFFF
}

/// Whether a packed color value carries an alpha byte.
pub fn has_alpha(value: u32) -> (b: bool)
    ensures
        b == spec_has_alpha(value),
{
    value > 0xFFFFFF
}

/// Color components, each a byte; `a` is the alpha byte (255 is opaque).
#[derive(Debug, Clone, Copy, PartialEq, Eq, Structural)]
pub struct RgbaBytes {
    pub r: u32,
    pub g: u32,
    pub b: u32,
    pub a: u32,
}

/// The components of a packed color: `0xRRGGBBAA` when the value is larger
/// than 24 bits, otherwise `0xRRGGBB` with an opaque alpha.
pub open spec fn spec_rgba_bytes(color: u32) -> RgbaBytes {
    if spec_has_alpha(color) {
        RgbaBytes {
            r: color / 0x1000000,
            g: (color / 0x10000) % 256,
            b: (color / 0x100) % 256,
            a: color % 256,
        }
    } else {
        RgbaBytes { r: color / 0x10000, g: (color / 0x100) % 256, b: color % 256, a: 255 }
    }
}

/// The components of a packed color value.
pub fn rgba_bytes_from_hex(color: u32) -> (c: RgbaBytes)
    ensures
        c == spec_rgba_bytes(color),
        c.r < 256 && c.g < 256 && c.b < 256 && c.a < 256,
{
    if has_alpha(color) {
        let r = (color >> 24u32) & 0xFF;
        let g = (color >> 16u32) & 0xFF;
        let b = (color >> 8u32) & 0xFF;
        let a = color & 0xFF;
        assert(r == color / 0x1000000 && g == (color / 0x10000) % 256 && b == (color / 0x100) % 256
            && a == color % 256) by (bit_vector)
            requires
                r == (color >> 24u32) & 0xFF,
                g == (color >> 16u32) & 0xFF,
                b == (color >> 8u32) & 0xFF,
                a == color & 0xFF,
        ;
        RgbaBytes { r, g, b, a }
    } else {
        let r = (color >> 16u32) & 0xFF;
        let g = (color >> 8u32) & 0xFF;
        let b = color & 0xFF;
        assert(r == color / 0x10000 && g == (color / 0x100) % 256 && b == color % 256) by (bit_vector)
            requires
                r == (color >> 16u32) & 0xFF,
                g == (color >> 8u32) & 0xFF,
                b == color & 0xFF,
                color <= 0xFFFFFF,
        ;
        RgbaBytes { r, g, b, a: 255 }
    }
}

/// Hex value from RGB: `r << 16 | g << 8 | b`.
pub fn hex_from_rgb(r: u32, g: u32, b: u32) -> (hex: u32)
    ensures
        hex == ((r << 16u32) | (g << 8u32) | b),
        r < 256 && g < 256 && b < 256 ==> hex == r * 0x10000 + g * 0x100 + b,
{
    let hex = (r << 16u32) | (g << 8u32) | b;
    assert(r < 256 && g < 256 && b < 256 ==> hex == r * 0x10000 + g * 0x100 + b) by (bit_vector)
        requires
            hex == (r << 16u32) | (g << 8u32) | b,
    ;
    hex
}

/// Hex value from RGB and an alpha byte: `r << 24 | g << 16 | b << 8 | alpha`.
pub fn hex_from_rgba_byte(r: u32, g: u32, b: u32, alpha: u32) -> (hex: u32)
    ensures
        hex == ((r << 24u32) | (g << 16u32) | (b << 8u32) | alpha),
        r < 256 && g < 256 && b < 256 && alpha < 256 ==> hex == r * 0x1000000 + g * 0x10000 + b
            * 0x100 + alpha,
{
    let hex = (r << 24u32) | (g << 16u32) | (b << 8u32) | alpha;
    assert(r < 256 && g < 256 && b < 256 && alpha < 256 ==> hex == r * 0x1000000 + g * 0x10000 + b
        * 0x100 + alpha) by (bit_vector)
        requires
            hex == (r << 24u32) | (g << 16u32) | (b << 8u32) | alpha,
    ;
    hex
}

} // verus!

verus! {

/// `#` followed by eight lowercase hex digits when the color carries alpha,
/// otherwise by the six digits of its low 24 bits.
pub open spec fn spec_to_hex_string(color: u32) -> Seq<char> {
    seq!['#'] + if spec_has_alpha(color) {
        crate::text::spec_hex_digits(color as nat, 8)
    } else {
        crate::text::spec_hex_digits((color % 0x1000000) as nat, 6)
    }
}

/// The CSS-style hex notation of a packed color (`#rrggbbaa` or `#rrggbb`).
pub fn to_hex_string(color: u32) -> (s: String)
    ensures
        s@ == spec_to_hex_string(color),
{
    let mut s = String::new();
    crate::text::push_char(&mut s, '#');
    if has_alpha(color) {
        crate::text::append_hex_digits(&mut s, color, 8);
    } else {
        crate::text::append_hex_digits(&mut s, color % 0x1000000, 6);
    }
    s
}

} // verus!

verus! {

/// Menu configuration for theme, size, colors, corner and icons; the font
/// settings are kept by the platform side, which measures and draws text.
#[derive(Debug, Clone)]
pub struct MenuConfig {
    pub theme: Theme,
    pub size: MenuSize,
    pub color: ThemeColor,
    /// On Windows, effective starting with Windows 11 Build 22000.
    pub corner: Corner,
    pub icon: IconSettings,
}

impl Default for MenuConfig {
    /// Light theme, default sizes and colors, round corners, default icons.
    fn default() -> (c: Self)
        ensures
            c.theme == Theme::Light,
            c.size.border_size == 0,
            c.size.vertical_padding == 0,
            c.size.horizontal_padding == 0,
            c.size.item_vertical_padding == 8,
            c.size.item_horizontal_padding == 0,
            c.size.submenu_offset == -3,
            c.size.separator_size == 1,
            c.color.dark == spec_default_dark_color_scheme(),
            c.color.light == spec_default_light_color_scheme(),
            c.corner == Corner::Round,
            c.icon.check_svg.is_none(),
            c.icon.arrow_svg.is_none(),
            !c.icon.reserve_icon_size,
            c.icon.horizontal_margin.is_none(),
    {
        MenuConfig {
            theme: Theme::Light,
            size: MenuSize::default(),
            color: ThemeColor::default(),
            corner: Corner::Round,
            icon: IconSettings::default(),
        }
    }
}

} // verus!

verus! {

impl MenuSVG {
    /// A copy with the same path and size.
    pub fn dup(&self) -> (r: Self)
        ensures
            r == *self,
    {
        MenuSVG { path: self.path.clone(), width: self.width, height: self.height }
    }
}

impl IconSettings {
    /// A copy with the same settings.
    pub fn dup(&self) -> (r: Self)
        ensures
            r == *self,
    {
        IconSettings {
            check_svg: match &self.check_svg {
                Some(s) => Some(s.dup()),
                None => None,
            },
            arrow_svg: match &self.arrow_svg {
                Some(s) => Some(s.dup()),
                None => None,
            },
            reserve_icon_size: self.reserve_icon_size,
            horizontal_margin: self.horizontal_margin,
        }
    }
}

impl MenuConfig {
    /// A copy with the same configuration.
    pub fn dup(&self) -> (r: Self)
        ensures
            r == *self,
    {
        MenuConfig {
            theme: self.theme,
            size: self.size,
            color: self.color,
            corner: self.corner,
            icon: self.icon.dup(),
        }
    }
}

} // verus!

verus! {

/// The decimal digits of `n`, most significant first ("0" for zero).
pub open spec fn spec_decimal(n: nat) -> Seq<char>
    decreases n,
{
    if n < 10 {
        seq![crate::text::spec_hex_digit(n)]
    } else {
        spec_decimal(n / 10).push(crate::text::spec_hex_digit(n % 10))
    }
}

/// Appends the decimal digits of `n`.
pub fn append_decimal(out: &mut String, n: u32)
    ensures
        final(out)@ == old(out)@ + spec_decimal(n as nat),
    decreases n,
{
    if n < 10 {
        crate::text::push_char(out, crate::text::hex_digit(n));
        assert(final(out)@ =~= old(out)@ + spec_decimal(n as nat));
    } else {
        append_decimal(out, n / 10);
        crate::text::push_char(out, crate::text::hex_digit(n % 10));
        assert(final(out)@ =~= old(out)@ + spec_decimal(n as nat));
    }
}

/// Hundredths of the opacity of an alpha byte, rounded to the nearest:
/// `100 a / 255` rounded.
pub open spec fn alpha_hundredths(a: nat) -> nat {
    (200 * a + 255) / 510
}

/// The opacity of an alpha byte with two decimals, such as "0.55" or "1.00".
pub open spec fn spec_alpha_text(a: nat) -> Seq<char> {
    let h = alpha_hundredths(a);
    spec_decimal(h / 100) + seq![
        '.',
        crate::text::spec_hex_digit((h % 100) / 10),
        crate::text::spec_hex_digit(h % 10),
    ]
}

/// The CSS `rgba(r, g, b, alpha)` notation of a packed color, the opacity
/// written with two decimals.
pub open spec fn spec_to_rgba_string(color: u32) -> Seq<char> {
    let c = spec_rgba_bytes(color);
    "rgba("@ + spec_decimal(c.r as nat) + ", "@ + spec_decimal(c.g as nat) + ", "@ + spec_decimal(c.b as nat)
        + ", "@ + spec_alpha_text(c.a as nat) + ")"@
}

pub(crate) fn append_str(out: &mut String, s: &str)
    ensures
        final(out)@ == old(out)@ + s@,
{
    let chars = crate::text::str_to_chars(s);
    let mut i: usize = 0;
    while i < chars.len()
        invariant
            i <= chars.len(),
            chars@ == s@,
            out@ == old(out)@ + s@.subrange(0, i as int),
        decreases chars.len() - i,
    {
        crate::text::push_char(out, chars[i]);
        i += 1;
        assert(out@ =~= old(out)@ + s@.subrange(0, i as int));
    }
    assert(s@.subrange(0, s@.len() as int) =~= s@);
}

/// The CSS `rgba(r, g, b, alpha)` notation of a packed color.
pub fn to_rgba_string(color: u32) -> (s: String)
    ensures
        s@ == spec_to_rgba_string(color),
{
    let c = rgba_bytes_from_hex(color);
    let mut s = String::new();
    append_str(&mut s, "rgba(");
    append_decimal(&mut s, c.r);
    append_str(&mut s, ", ");
    append_decimal(&mut s, c.g);
    append_str(&mut s, ", ");
    append_decimal(&mut s, c.b);
    append_str(&mut s, ", ");
    let h = (200 * c.a + 255) / 510;
    append_decimal(&mut s, h / 100);
    crate::text::push_char(&mut s, '.');
    crate::text::push_char(&mut s, crate::text::hex_digit((h % 100) / 10));
    crate::text::push_char(&mut s, crate::text::hex_digit(h % 10));
    append_str(&mut s, ")");
    proof {
        assert(h == alpha_hundredths(c.a as nat));
        assert(s@ =~= spec_to_rgba_string(color));
    }
    s
}

} // verus!
