//! The style sheet of the items of a Gtk menu: which configured color,
//! padding and size goes to which part of an item.
use vstd::prelude::*;
use crate::config::{
    append_decimal, append_str, spec_decimal, spec_font_weight, spec_to_rgba_string, to_font_weight, to_rgba_string,
    FontWeight, MenuConfig, MenuSVG,
};
use crate::gtk_rules::{
    append_signed, icon_source_css, item_padding_css, spec_icon_source_css, spec_item_padding_css, spec_signed_decimal,
};

verus! {

/// A rule giving one property a color: `sel { prop: color; }`.
pub open spec fn color_rule(sel: Seq<char>, prop: Seq<char>, color: u32) -> Seq<char> {
    sel + " { "@ + prop + ": "@ + spec_to_rgba_string(color) + "; }\n"@
}

/// A rule giving the text and background colors: `sel { color: c; background-color: b; }`.
pub open spec fn colors_rule(sel: Seq<char>, color: u32, background: u32) -> Seq<char> {
    sel + " { color: "@ + spec_to_rgba_string(color) + "; background-color: "@ + spec_to_rgba_string(background)
        + "; }\n"@
}

/// A rule made of an opening `head`, a `body` and the closing brace.
pub open spec fn block_rule(head: Seq<char>, body: Seq<char>) -> Seq<char> {
    head + body + " }\n"@
}

/// The accelerator font rule.
pub open spec fn accelerator_font_rule(font_size: Seq<char>, font_family: Seq<char>, weight: FontWeight) -> Seq<char> {
    "#wcpopup accelerator, #wcpopup-dark accelerator, #wcpopup-light accelerator { font: "@ + font_size + "px \""@
        + font_family + "\"; font-weight: "@ + spec_decimal(spec_font_weight(weight) as nat) + "; }\n"@
}

/// The rule of the items' paddings.
pub open spec fn item_padding_rule(horizontal: i32, vertical: i32) -> Seq<char> {
    "menuitem#wcpopup, menuitem#wcpopup-dark, menuitem#wcpopup-light { "@ + spec_item_padding_css(horizontal)
        + " padding-top: "@ + spec_signed_decimal(vertical as int) + "px; padding-bottom: "@ + spec_signed_decimal(
        vertical as int,
    ) + "px; border: none; }\n"@
}

/// The rule of the separators' paddings, margins and height.
pub open spec fn separator_rule(horizontal: i32, vertical: i32, height: i32) -> Seq<char> {
    "separator#wcpopup, separator#wcpopup-dark, separator#wcpopup-light { padding-left: "@ + spec_signed_decimal(
        horizontal as int,
    ) + "px; padding-right: "@ + spec_signed_decimal(horizontal as int) + "px; margin-top: "@ + spec_signed_decimal(
        vertical as int,
    ) + "px; margin-bottom: "@ + spec_signed_decimal(vertical as int) + "px; min-height: "@ + spec_signed_decimal(
        height as int,
    ) + "px; }\n"@
}

/// The style of a configured check-mark or arrow image.
pub open spec fn svg_source(svg: Option<MenuSVG>, is_svg: bool, font_size: Seq<char>) -> Seq<char> {
    match svg {
        Some(s) => spec_icon_source_css(Some(s.path@), is_svg, s.width, s.height, font_size),
        None => spec_icon_source_css(None, is_svg, 0, 0, font_size),
    }
}

/// The accelerator rules: their font, then their color in each theme.
pub open spec fn accelerator_rules(
    c: MenuConfig,
    font_size: Seq<char>,
    font_family: Seq<char>,
    weight: FontWeight,
) -> Seq<char> {
    accelerator_font_rule(font_size, font_family, weight) + color_rule(
        "#wcpopup-dark accelerator"@,
        "color"@,
        c.color.dark.accelerator,
    ) + color_rule("#wcpopup-light accelerator"@, "color"@, c.color.light.accelerator)
}

/// The check-mark rules: its image, its colors in each theme, and its
/// background when hovered.
pub open spec fn check_rules(c: MenuConfig, icon_size: Seq<char>, check_is_svg: bool) -> Seq<char> {
    let d = c.color.dark;
    let l = c.color.light;
    block_rule(
        "#wcpopup check, #wcpopup-dark check, #wcpopup-light check { border-width: 0px; outline-width: 0px; "@,
        svg_source(c.icon.check_svg, check_is_svg, icon_size),
    ) + colors_rule("#wcpopup-dark check, #wcpopup-dark check:checked"@, d.color, d.background_color) + colors_rule(
        "#wcpopup-light check, #wcpopup-light check:checked"@,
        l.color,
        l.background_color,
    ) + color_rule(
        "#wcpopup-dark check:hover, #wcpopup-dark check:checked:hover"@,
        "background-color"@,
        d.hover_background_color,
    ) + color_rule(
        "#wcpopup-light check:hover, #wcpopup-light check:checked:hover"@,
        "background-color"@,
        l.hover_background_color,
    )
}

/// The submenu-arrow rules: its image, its colors in each theme, and its
/// background when its item is hovered.
pub open spec fn arrow_rules(c: MenuConfig, icon_size: Seq<char>, arrow_is_svg: bool) -> Seq<char> {
    let d = c.color.dark;
    let l = c.color.light;
    block_rule("#wcpopup-dark arrow, #wcpopup-light arrow { "@, svg_source(c.icon.arrow_svg, arrow_is_svg, icon_size))
        + colors_rule("#wcpopup-dark arrow"@, d.color, d.background_color) + colors_rule(
        "#wcpopup-light arrow"@,
        l.color,
        l.background_color,
    ) + color_rule("#wcpopup-dark:hover arrow"@, "background-color"@, d.hover_background_color) + color_rule(
        "#wcpopup-light:hover arrow"@,
        "background-color"@,
        l.hover_background_color,
    )
}

/// The item rules: their paddings, their text color in each theme, and
/// their background when hovered.
pub open spec fn item_rules(c: MenuConfig) -> Seq<char> {
    let d = c.color.dark;
    let l = c.color.light;
    item_padding_rule(c.size.item_horizontal_padding, c.size.item_vertical_padding) + color_rule(
        "menuitem#wcpopup-dark"@,
        "color"@,
        d.color,
    ) + color_rule("menuitem#wcpopup-light"@, "color"@, l.color) + color_rule(
        "menuitem#wcpopup-dark:hover"@,
        "background-color"@,
        d.hover_background_color,
    ) + color_rule("menuitem#wcpopup-light:hover"@, "background-color"@, l.hover_background_color)
}

/// The selector of the disabled items, and their check marks and arrows,
/// of the dark theme.
pub open spec fn dark_disabled_selector() -> Seq<char> {
    "menuitem#wcpopup-dark:disabled, menu#wcpopup-dark menuitem#wcpopup-dark:disabled check, menu#wcpopup-dark menuitem#wcpopup-dark:disabled arrow"@
}

/// The selector of the disabled items, and their check marks and arrows,
/// of the light theme.
pub open spec fn light_disabled_selector() -> Seq<char> {
    "menuitem#wcpopup-light:disabled, menu#wcpopup-light menuitem#wcpopup-light:disabled check, menu#wcpopup-light menuitem#wcpopup-light:disabled arrow"@
}

/// The rules of the disabled items: their color in each theme.
pub open spec fn disabled_rules(c: MenuConfig) -> Seq<char> {
    color_rule(dark_disabled_selector(), "color"@, c.color.dark.disabled) + color_rule(
        light_disabled_selector(),
        "color"@,
        c.color.light.disabled,
    )
}

/// The separator rules: their paddings, margins and height, and their
/// color in each theme.
pub open spec fn separator_rules(c: MenuConfig) -> Seq<char> {
    separator_rule(c.size.item_horizontal_padding, c.size.item_vertical_padding, c.size.separator_size)
        + color_rule("separator#wcpopup-dark"@, "background-color"@, c.color.dark.separator) + color_rule(
        "separator#wcpopup-light"@,
        "background-color"@,
        c.color.light.separator,
    )
}

/// The style sheet of the items of a menu: the accelerator font and colors,
/// the check-mark and arrow images and colors, the item colors for plain,
/// hovered and disabled items, the item paddings, and the separators. The
/// font size of the accelerators and the size of the images when none is
/// configured come as text; `check_is_svg` and `arrow_is_svg` tell whether
/// the configured images are SVG files.
pub open spec fn spec_menu_item_css(
    c: MenuConfig,
    font_size: Seq<char>,
    icon_size: Seq<char>,
    font_family: Seq<char>,
    weight: FontWeight,
    check_is_svg: bool,
    arrow_is_svg: bool,
) -> Seq<char> {
    accelerator_rules(c, font_size, font_family, weight) + check_rules(c, icon_size, check_is_svg) + arrow_rules(
        c,
        icon_size,
        arrow_is_svg,
    ) + item_rules(c) + disabled_rules(c) + separator_rules(c)
}

fn push_color_rule(out: &mut String, sel: &str, prop: &str, color: u32)
    ensures
        final(out)@ == old(out)@ + color_rule(sel@, prop@, color),
{
    append_str(out, sel);
    append_str(out, " { ");
    append_str(out, prop);
    append_str(out, ": ");
    let text = to_rgba_string(color);
    append_str(out, text.as_str());
    append_str(out, "; }\n");
    assert(final(out)@ =~= old(out)@ + color_rule(sel@, prop@, color));
}

fn push_colors_rule(out: &mut String, sel: &str, color: u32, background: u32)
    ensures
        final(out)@ == old(out)@ + colors_rule(sel@, color, background),
{
    append_str(out, sel);
    append_str(out, " { color: ");
    let text = to_rgba_string(color);
    append_str(out, text.as_str());
    append_str(out, "; background-color: ");
    let back = to_rgba_string(background);
    append_str(out, back.as_str());
    append_str(out, "; }\n");
    assert(final(out)@ =~= old(out)@ + colors_rule(sel@, color, background));
}

fn push_block_rule(out: &mut String, head: &str, body: &str)
    ensures
        final(out)@ == old(out)@ + block_rule(head@, body@),
{
    append_str(out, head);
    append_str(out, body);
    append_str(out, " }\n");
    assert(final(out)@ =~= old(out)@ + block_rule(head@, body@));
}

fn push_accelerator_font_rule(out: &mut String, font_size: &str, font_family: &str, weight: FontWeight)
    ensures
        final(out)@ == old(out)@ + accelerator_font_rule(font_size@, font_family@, weight),
{
    append_str(out, "#wcpopup accelerator, #wcpopup-dark accelerator, #wcpopup-light accelerator { font: ");
    append_str(out, font_size);
    append_str(out, "px \"");
    append_str(out, font_family);
    append_str(out, "\"; font-weight: ");
    append_decimal(out, to_font_weight(weight));
    append_str(out, "; }\n");
    assert(final(out)@ =~= old(out)@ + accelerator_font_rule(font_size@, font_family@, weight));
}

fn push_item_padding_rule(out: &mut String, horizontal: i32, vertical: i32)
    ensures
        final(out)@ == old(out)@ + item_padding_rule(horizontal, vertical),
{
    append_str(out, "menuitem#wcpopup, menuitem#wcpopup-dark, menuitem#wcpopup-light { ");
    let padding = item_padding_css(horizontal);
    append_str(out, padding.as_str());
    append_str(out, " padding-top: ");
    append_signed(out, vertical);
    append_str(out, "px; padding-bottom: ");
    append_signed(out, vertical);
    append_str(out, "px; border: none; }\n");
    assert(final(out)@ =~= old(out)@ + item_padding_rule(horizontal, vertical));
}

fn push_separator_rule(out: &mut String, horizontal: i32, vertical: i32, height: i32)
    ensures
        final(out)@ == old(out)@ + separator_rule(horizontal, vertical, height),
{
    append_str(out, "separator#wcpopup, separator#wcpopup-dark, separator#wcpopup-light { padding-left: ");
    append_signed(out, horizontal);
    append_str(out, "px; padding-right: ");
    append_signed(out, horizontal);
    append_str(out, "px; margin-top: ");
    append_signed(out, vertical);
    append_str(out, "px; margin-bottom: ");
    append_signed(out, vertical);
    append_str(out, "px; min-height: ");
    append_signed(out, height);
    append_str(out, "px; }\n");
    assert(final(out)@ =~= old(out)@ + separator_rule(horizontal, vertical, height));
}

fn svg_source_css(svg: &Option<MenuSVG>, is_svg: bool, icon_size: &str) -> (css: String)
    ensures
        css@ == svg_source(*svg, is_svg, icon_size@),
{
    match svg {
        Some(s) => icon_source_css(Some(s.path.as_str()), is_svg, s.width, s.height, icon_size),
        None => icon_source_css(None, is_svg, 0, 0, icon_size),
    }
}

fn push_accelerator_rules(out: &mut String, config: &MenuConfig, font_size: &str, font_family: &str, weight: FontWeight)
    ensures
        final(out)@ == old(out)@ + accelerator_rules(*config, font_size@, font_family@, weight),
{
    push_accelerator_font_rule(out, font_size, font_family, weight);
    push_color_rule(out, "#wcpopup-dark accelerator", "color", config.color.dark.accelerator);
    push_color_rule(out, "#wcpopup-light accelerator", "color", config.color.light.accelerator);
    assert(final(out)@ =~= old(out)@ + accelerator_rules(*config, font_size@, font_family@, weight));
}

fn push_check_rules(out: &mut String, config: &MenuConfig, icon_size: &str, check_is_svg: bool)
    ensures
        final(out)@ == old(out)@ + check_rules(*config, icon_size@, check_is_svg),
{
    let d = &config.color.dark;
    let l = &config.color.light;
    let check = svg_source_css(&config.icon.check_svg, check_is_svg, icon_size);
    push_block_rule(
        out,
        "#wcpopup check, #wcpopup-dark check, #wcpopup-light check { border-width: 0px; outline-width: 0px; ",
        check.as_str(),
    );
    push_colors_rule(out, "#wcpopup-dark check, #wcpopup-dark check:checked", d.color, d.background_color);
    push_colors_rule(out, "#wcpopup-light check, #wcpopup-light check:checked", l.color, l.background_color);
    push_color_rule(
        out,
        "#wcpopup-dark check:hover, #wcpopup-dark check:checked:hover",
        "background-color",
        d.hover_background_color,
    );
    push_color_rule(
        out,
        "#wcpopup-light check:hover, #wcpopup-light check:checked:hover",
        "background-color",
        l.hover_background_color,
    );
    assert(final(out)@ =~= old(out)@ + check_rules(*config, icon_size@, check_is_svg));
}

fn push_arrow_rules(out: &mut String, config: &MenuConfig, icon_size: &str, arrow_is_svg: bool)
    ensures
        final(out)@ == old(out)@ + arrow_rules(*config, icon_size@, arrow_is_svg),
{
    let d = &config.color.dark;
    let l = &config.color.light;
    let arrow = svg_source_css(&config.icon.arrow_svg, arrow_is_svg, icon_size);
    push_block_rule(out, "#wcpopup-dark arrow, #wcpopup-light arrow { ", arrow.as_str());
    push_colors_rule(out, "#wcpopup-dark arrow", d.color, d.background_color);
    push_colors_rule(out, "#wcpopup-light arrow", l.color, l.background_color);
    push_color_rule(out, "#wcpopup-dark:hover arrow", "background-color", d.hover_background_color);
    push_color_rule(out, "#wcpopup-light:hover arrow", "background-color", l.hover_background_color);
    assert(final(out)@ =~= old(out)@ + arrow_rules(*config, icon_size@, arrow_is_svg));
}

fn push_item_rules(out: &mut String, config: &MenuConfig)
    ensures
        final(out)@ == old(out)@ + item_rules(*config),
{
    let d = &config.color.dark;
    let l = &config.color.light;
    push_item_padding_rule(out, config.size.item_horizontal_padding, config.size.item_vertical_padding);
    push_color_rule(out, "menuitem#wcpopup-dark", "color", d.color);
    push_color_rule(out, "menuitem#wcpopup-light", "color", l.color);
    push_color_rule(out, "menuitem#wcpopup-dark:hover", "background-color", d.hover_background_color);
    push_color_rule(out, "menuitem#wcpopup-light:hover", "background-color", l.hover_background_color);
    assert(final(out)@ =~= old(out)@ + item_rules(*config));
}

fn push_disabled_rules(out: &mut String, config: &MenuConfig)
    ensures
        final(out)@ == old(out)@ + disabled_rules(*config),
{
    push_color_rule(
        out,
        "menuitem#wcpopup-dark:disabled, menu#wcpopup-dark menuitem#wcpopup-dark:disabled check, menu#wcpopup-dark menuitem#wcpopup-dark:disabled arrow",
        "color",
        config.color.dark.disabled,
    );
    push_color_rule(
        out,
        "menuitem#wcpopup-light:disabled, menu#wcpopup-light menuitem#wcpopup-light:disabled check, menu#wcpopup-light menuitem#wcpopup-light:disabled arrow",
        "color",
        config.color.light.disabled,
    );
    assert(final(out)@ =~= old(out)@ + disabled_rules(*config));
}

fn push_separator_rules(out: &mut String, config: &MenuConfig)
    ensures
        final(out)@ == old(out)@ + separator_rules(*config),
{
    push_separator_rule(
        out,
        config.size.item_horizontal_padding,
        config.size.item_vertical_padding,
        config.size.separator_size,
    );
    push_color_rule(out, "separator#wcpopup-dark", "background-color", config.color.dark.separator);
    push_color_rule(out, "separator#wcpopup-light", "background-color", config.color.light.separator);
    assert(final(out)@ =~= old(out)@ + separator_rules(*config));
}

/// The style sheet of the items of a menu (see `spec_menu_item_css`).
pub fn menu_item_css(
    config: &MenuConfig,
    font_size: &str,
    icon_size: &str,
    font_family: &str,
    weight: FontWeight,
    check_is_svg: bool,
    arrow_is_svg: bool,
) -> (css: String)
    ensures
        css@ == spec_menu_item_css(*config, font_size@, icon_size@, font_family@, weight, check_is_svg, arrow_is_svg),
{
    let mut css = String::new();
    push_accelerator_rules(&mut css, config, font_size, font_family, weight);
    proof {
        assert(css@ =~= accelerator_rules(*config, font_size@, font_family@, weight));
    }
    push_check_rules(&mut css, config, icon_size, check_is_svg);
    push_arrow_rules(&mut css, config, icon_size, arrow_is_svg);
    push_item_rules(&mut css, config);
    push_disabled_rules(&mut css, config);
    push_separator_rules(&mut css, config);
    css
}

/// Whether `r` occurs in `s`.
pub open spec fn contains_text(s: Seq<char>, r: Seq<char>) -> bool {
    exists|a: Seq<char>, b: Seq<char>| #[trigger] (a + r + b) == s
}

proof fn lemma_contains_left(x: Seq<char>, y: Seq<char>, r: Seq<char>)
    requires
        contains_text(y, r),
    ensures
        contains_text(x + y, r),
{
    let (a, b) = choose|a: Seq<char>, b: Seq<char>| #[trigger] (a + r + b) == y;
    assert((x + a) + r + b =~= x + y);
}

proof fn lemma_contains_right(y: Seq<char>, z: Seq<char>, r: Seq<char>)
    requires
        contains_text(y, r),
    ensures
        contains_text(y + z, r),
{
    let (a, b) = choose|a: Seq<char>, b: Seq<char>| #[trigger] (a + r + b) == y;
    assert(a + r + (b + z) =~= y + z);
}

/// What occurs in one of six parts occurs in the six put together.
proof fn lemma_contains_part(
    g0: Seq<char>,
    g1: Seq<char>,
    g2: Seq<char>,
    g3: Seq<char>,
    g4: Seq<char>,
    g5: Seq<char>,
    k: int,
    r: Seq<char>,
)
    requires
        0 <= k < 6,
        contains_text(seq![g0, g1, g2, g3, g4, g5][k], r),
    ensures
        contains_text(g0 + g1 + g2 + g3 + g4 + g5, r),
{
    if k == 0 {
        assert(contains_text(g0, r));
    } else if k == 1 {
        assert(contains_text(g1, r));
        lemma_contains_left(g0, g1, r);
    } else if k == 2 {
        assert(contains_text(g2, r));
        lemma_contains_left(g0 + g1, g2, r);
    } else if k == 3 {
        assert(contains_text(g3, r));
        lemma_contains_left(g0 + g1 + g2, g3, r);
    } else if k == 4 {
        assert(contains_text(g4, r));
        lemma_contains_left(g0 + g1 + g2 + g3, g4, r);
    } else {
        assert(contains_text(g5, r));
        lemma_contains_left(g0 + g1 + g2 + g3 + g4, g5, r);
    }
    if k <= 0 {
        lemma_contains_right(g0, g1, r);
    }
    if k <= 1 {
        lemma_contains_right(g0 + g1, g2, r);
    }
    if k <= 2 {
        lemma_contains_right(g0 + g1 + g2, g3, r);
    }
    if k <= 3 {
        lemma_contains_right(g0 + g1 + g2 + g3, g4, r);
    }
    if k <= 4 {
        lemma_contains_right(g0 + g1 + g2 + g3 + g4, g5, r);
    }
}

proof fn lemma_accelerator_rules_in_sheet(
    c: MenuConfig,
    font_size: Seq<char>,
    icon_size: Seq<char>,
    font_family: Seq<char>,
    weight: FontWeight,
    check_is_svg: bool,
    arrow_is_svg: bool,
)
    ensures
        contains_text(
            spec_menu_item_css(c, font_size, icon_size, font_family, weight, check_is_svg, arrow_is_svg),
            accelerator_font_rule(font_size, font_family, weight),
        ),
        contains_text(
            spec_menu_item_css(c, font_size, icon_size, font_family, weight, check_is_svg, arrow_is_svg),
            color_rule("#wcpopup-dark accelerator"@, "color"@, c.color.dark.accelerator),
        ),
        contains_text(
            spec_menu_item_css(c, font_size, icon_size, font_family, weight, check_is_svg, arrow_is_svg),
            color_rule("#wcpopup-light accelerator"@, "color"@, c.color.light.accelerator),
        ),
{
    let g0 = accelerator_rules(c, font_size, font_family, weight);
    let g1 = check_rules(c, icon_size, check_is_svg);
    let g2 = arrow_rules(c, icon_size, arrow_is_svg);
    let g3 = item_rules(c);
    let g4 = disabled_rules(c);
    let g5 = separator_rules(c);
    let p0 = accelerator_font_rule(font_size, font_family, weight);
    let p1 = color_rule("#wcpopup-dark accelerator"@, "color"@, c.color.dark.accelerator);
    let p2 = color_rule("#wcpopup-light accelerator"@, "color"@, c.color.light.accelerator);
    assert(seq![g0, g1, g2, g3, g4, g5][0] == accelerator_rules(c, font_size, font_family, weight));
    assert((Seq::<char>::empty()) + p0 + (p1 + p2) =~= accelerator_rules(c, font_size, font_family, weight));
    lemma_contains_part(g0, g1, g2, g3, g4, g5, 0, p0);
    assert((p0) + p1 + (p2) =~= accelerator_rules(c, font_size, font_family, weight));
    lemma_contains_part(g0, g1, g2, g3, g4, g5, 0, p1);
    assert((p0 + p1) + p2 + (Seq::<char>::empty()) =~= accelerator_rules(c, font_size, font_family, weight));
    lemma_contains_part(g0, g1, g2, g3, g4, g5, 0, p2);
}

#[verifier::rlimit(60)]
#[verifier::spinoff_prover]
proof fn lemma_check_rules_in_sheet(
    c: MenuConfig,
    font_size: Seq<char>,
    icon_size: Seq<char>,
    font_family: Seq<char>,
    weight: FontWeight,
    check_is_svg: bool,
    arrow_is_svg: bool,
)
    ensures
        contains_text(
            spec_menu_item_css(c, font_size, icon_size, font_family, weight, check_is_svg, arrow_is_svg),
            colors_rule("#wcpopup-dark check, #wcpopup-dark check:checked"@, c.color.dark.color, c.color.dark.background_color),
        ),
        contains_text(
            spec_menu_item_css(c, font_size, icon_size, font_family, weight, check_is_svg, arrow_is_svg),
            colors_rule("#wcpopup-light check, #wcpopup-light check:checked"@, c.color.light.color, c.color.light.background_color),
        ),
        contains_text(
            spec_menu_item_css(c, font_size, icon_size, font_family, weight, check_is_svg, arrow_is_svg),
            color_rule("#wcpopup-dark check:hover, #wcpopup-dark check:checked:hover"@, "background-color"@,
            c.color.dark.hover_background_color),
        ),
        contains_text(
            spec_menu_item_css(c, font_size, icon_size, font_family, weight, check_is_svg, arrow_is_svg),
            color_rule("#wcpopup-light check:hover, #wcpopup-light check:checked:hover"@, "background-color"@,
            c.color.light.hover_background_color),
        ),
{
    let g0 = accelerator_rules(c, font_size, font_family, weight);
    let g1 = check_rules(c, icon_size, check_is_svg);
    let g2 = arrow_rules(c, icon_size, arrow_is_svg);
    let g3 = item_rules(c);
    let g4 = disabled_rules(c);
    let g5 = separator_rules(c);
    let p0 = block_rule("#wcpopup check, #wcpopup-dark check, #wcpopup-light check { border-width: 0px; outline-width: 0px; "@,
            svg_source(c.icon.check_svg, check_is_svg, icon_size));
    let p1 = colors_rule("#wcpopup-dark check, #wcpopup-dark check:checked"@, c.color.dark.color, c.color.dark.background_color);
    let p2 = colors_rule("#wcpopup-light check, #wcpopup-light check:checked"@, c.color.light.color, c.color.light.background_color);
    let p3 = color_rule("#wcpopup-dark check:hover, #wcpopup-dark check:checked:hover"@, "background-color"@,
            c.color.dark.hover_background_color);
    let p4 = color_rule("#wcpopup-light check:hover, #wcpopup-light check:checked:hover"@, "background-color"@,
            c.color.light.hover_background_color);
    assert(seq![g0, g1, g2, g3, g4, g5][1] == check_rules(c, icon_size, check_is_svg));
    assert((p0) + p1 + (p2 + p3 + p4) =~= check_rules(c, icon_size, check_is_svg));
    lemma_contains_part(g0, g1, g2, g3, g4, g5, 1, p1);
    assert((p0 + p1) + p2 + (p3 + p4) =~= check_rules(c, icon_size, check_is_svg));
    lemma_contains_part(g0, g1, g2, g3, g4, g5, 1, p2);
    assert((p0 + p1 + p2) + p3 + (p4) =~= check_rules(c, icon_size, check_is_svg));
    lemma_contains_part(g0, g1, g2, g3, g4, g5, 1, p3);
    assert((p0 + p1 + p2 + p3) + p4 + (Seq::<char>::empty()) =~= check_rules(c, icon_size, check_is_svg));
    lemma_contains_part(g0, g1, g2, g3, g4, g5, 1, p4);
}

#[verifier::rlimit(60)]
#[verifier::spinoff_prover]
proof fn lemma_arrow_rules_in_sheet(
    c: MenuConfig,
    font_size: Seq<char>,
    icon_size: Seq<char>,
    font_family: Seq<char>,
    weight: FontWeight,
    check_is_svg: bool,
    arrow_is_svg: bool,
)
    ensures
        contains_text(
            spec_menu_item_css(c, font_size, icon_size, font_family, weight, check_is_svg, arrow_is_svg),
            colors_rule("#wcpopup-dark arrow"@, c.color.dark.color, c.color.dark.background_color),
        ),
        contains_text(
            spec_menu_item_css(c, font_size, icon_size, font_family, weight, check_is_svg, arrow_is_svg),
            colors_rule("#wcpopup-light arrow"@, c.color.light.color, c.color.light.background_color),
        ),
        contains_text(
            spec_menu_item_css(c, font_size, icon_size, font_family, weight, check_is_svg, arrow_is_svg),
            color_rule("#wcpopup-dark:hover arrow"@, "background-color"@, c.color.dark.hover_background_color),
        ),
        contains_text(
            spec_menu_item_css(c, font_size, icon_size, font_family, weight, check_is_svg, arrow_is_svg),
            color_rule("#wcpopup-light:hover arrow"@, "background-color"@, c.color.light.hover_background_color),
        ),
{
    let g0 = accelerator_rules(c, font_size, font_family, weight);
    let g1 = check_rules(c, icon_size, check_is_svg);
    let g2 = arrow_rules(c, icon_size, arrow_is_svg);
    let g3 = item_rules(c);
    let g4 = disabled_rules(c);
    let g5 = separator_rules(c);
    let p0 = block_rule("#wcpopup-dark arrow, #wcpopup-light arrow { "@, svg_source(c.icon.arrow_svg, arrow_is_svg, icon_size));
    let p1 = colors_rule("#wcpopup-dark arrow"@, c.color.dark.color, c.color.dark.background_color);
    let p2 = colors_rule("#wcpopup-light arrow"@, c.color.light.color, c.color.light.background_color);
    let p3 = color_rule("#wcpopup-dark:hover arrow"@, "background-color"@, c.color.dark.hover_background_color);
    let p4 = color_rule("#wcpopup-light:hover arrow"@, "background-color"@, c.color.light.hover_background_color);
    assert(seq![g0, g1, g2, g3, g4, g5][2] == arrow_rules(c, icon_size, arrow_is_svg));
    assert((p0) + p1 + (p2 + p3 + p4) =~= arrow_rules(c, icon_size, arrow_is_svg));
    lemma_contains_part(g0, g1, g2, g3, g4, g5, 2, p1);
    assert((p0 + p1) + p2 + (p3 + p4) =~= arrow_rules(c, icon_size, arrow_is_svg));
    lemma_contains_part(g0, g1, g2, g3, g4, g5, 2, p2);
    assert((p0 + p1 + p2) + p3 + (p4) =~= arrow_rules(c, icon_size, arrow_is_svg));
    lemma_contains_part(g0, g1, g2, g3, g4, g5, 2, p3);
    assert((p0 + p1 + p2 + p3) + p4 + (Seq::<char>::empty()) =~= arrow_rules(c, icon_size, arrow_is_svg));
    lemma_contains_part(g0, g1, g2, g3, g4, g5, 2, p4);
}

#[verifier::rlimit(60)]
#[verifier::spinoff_prover]
proof fn lemma_item_rules_in_sheet(
    c: MenuConfig,
    font_size: Seq<char>,
    icon_size: Seq<char>,
    font_family: Seq<char>,
    weight: FontWeight,
    check_is_svg: bool,
    arrow_is_svg: bool,
)
    ensures
        contains_text(
            spec_menu_item_css(c, font_size, icon_size, font_family, weight, check_is_svg, arrow_is_svg),
            item_padding_rule(c.size.item_horizontal_padding, c.size.item_vertical_padding),
        ),
        contains_text(
            spec_menu_item_css(c, font_size, icon_size, font_family, weight, check_is_svg, arrow_is_svg),
            color_rule("menuitem#wcpopup-dark"@, "color"@, c.color.dark.color),
        ),
        contains_text(
            spec_menu_item_css(c, font_size, icon_size, font_family, weight, check_is_svg, arrow_is_svg),
            color_rule("menuitem#wcpopup-light"@, "color"@, c.color.light.color),
        ),
        contains_text(
            spec_menu_item_css(c, font_size, icon_size, font_family, weight, check_is_svg, arrow_is_svg),
            color_rule("menuitem#wcpopup-dark:hover"@, "background-color"@, c.color.dark.hover_background_color),
        ),
        contains_text(
            spec_menu_item_css(c, font_size, icon_size, font_family, weight, check_is_svg, arrow_is_svg),
            color_rule("menuitem#wcpopup-light:hover"@, "background-color"@, c.color.light.hover_background_color),
        ),
{
    let g0 = accelerator_rules(c, font_size, font_family, weight);
    let g1 = check_rules(c, icon_size, check_is_svg);
    let g2 = arrow_rules(c, icon_size, arrow_is_svg);
    let g3 = item_rules(c);
    let g4 = disabled_rules(c);
    let g5 = separator_rules(c);
    let p0 = item_padding_rule(c.size.item_horizontal_padding, c.size.item_vertical_padding);
    let p1 = color_rule("menuitem#wcpopup-dark"@, "color"@, c.color.dark.color);
    let p2 = color_rule("menuitem#wcpopup-light"@, "color"@, c.color.light.color);
    let p3 = color_rule("menuitem#wcpopup-dark:hover"@, "background-color"@, c.color.dark.hover_background_color);
    let p4 = color_rule("menuitem#wcpopup-light:hover"@, "background-color"@, c.color.light.hover_background_color);
    assert(seq![g0, g1, g2, g3, g4, g5][3] == item_rules(c));
    assert((Seq::<char>::empty()) + p0 + (p1 + p2 + p3 + p4) =~= item_rules(c));
    lemma_contains_part(g0, g1, g2, g3, g4, g5, 3, p0);
    assert((p0) + p1 + (p2 + p3 + p4) =~= item_rules(c));
    lemma_contains_part(g0, g1, g2, g3, g4, g5, 3, p1);
    assert((p0 + p1) + p2 + (p3 + p4) =~= item_rules(c));
    lemma_contains_part(g0, g1, g2, g3, g4, g5, 3, p2);
    assert((p0 + p1 + p2) + p3 + (p4) =~= item_rules(c));
    lemma_contains_part(g0, g1, g2, g3, g4, g5, 3, p3);
    assert((p0 + p1 + p2 + p3) + p4 + (Seq::<char>::empty()) =~= item_rules(c));
    lemma_contains_part(g0, g1, g2, g3, g4, g5, 3, p4);
}

proof fn lemma_disabled_rules_in_sheet(
    c: MenuConfig,
    font_size: Seq<char>,
    icon_size: Seq<char>,
    font_family: Seq<char>,
    weight: FontWeight,
    check_is_svg: bool,
    arrow_is_svg: bool,
)
    ensures
        contains_text(
            spec_menu_item_css(c, font_size, icon_size, font_family, weight, check_is_svg, arrow_is_svg),
            color_rule(dark_disabled_selector(), "color"@, c.color.dark.disabled),
        ),
        contains_text(
            spec_menu_item_css(c, font_size, icon_size, font_family, weight, check_is_svg, arrow_is_svg),
            color_rule(light_disabled_selector(), "color"@, c.color.light.disabled),
        ),
{
    let g0 = accelerator_rules(c, font_size, font_family, weight);
    let g1 = check_rules(c, icon_size, check_is_svg);
    let g2 = arrow_rules(c, icon_size, arrow_is_svg);
    let g3 = item_rules(c);
    let g4 = disabled_rules(c);
    let g5 = separator_rules(c);
    let p0 = color_rule(dark_disabled_selector(), "color"@, c.color.dark.disabled);
    let p1 = color_rule(light_disabled_selector(), "color"@, c.color.light.disabled);
    assert(seq![g0, g1, g2, g3, g4, g5][4] == disabled_rules(c));
    assert((Seq::<char>::empty()) + p0 + (p1) =~= disabled_rules(c));
    lemma_contains_part(g0, g1, g2, g3, g4, g5, 4, p0);
    assert((p0) + p1 + (Seq::<char>::empty()) =~= disabled_rules(c));
    lemma_contains_part(g0, g1, g2, g3, g4, g5, 4, p1);
}

proof fn lemma_separator_rules_in_sheet(
    c: MenuConfig,
    font_size: Seq<char>,
    icon_size: Seq<char>,
    font_family: Seq<char>,
    weight: FontWeight,
    check_is_svg: bool,
    arrow_is_svg: bool,
)
    ensures
        contains_text(
            spec_menu_item_css(c, font_size, icon_size, font_family, weight, check_is_svg, arrow_is_svg),
            separator_rule(c.size.item_horizontal_padding, c.size.item_vertical_padding, c.size.separator_size),
        ),
        contains_text(
            spec_menu_item_css(c, font_size, icon_size, font_family, weight, check_is_svg, arrow_is_svg),
            color_rule("separator#wcpopup-dark"@, "background-color"@, c.color.dark.separator),
        ),
        contains_text(
            spec_menu_item_css(c, font_size, icon_size, font_family, weight, check_is_svg, arrow_is_svg),
            color_rule("separator#wcpopup-light"@, "background-color"@, c.color.light.separator),
        ),
{
    let g0 = accelerator_rules(c, font_size, font_family, weight);
    let g1 = check_rules(c, icon_size, check_is_svg);
    let g2 = arrow_rules(c, icon_size, arrow_is_svg);
    let g3 = item_rules(c);
    let g4 = disabled_rules(c);
    let g5 = separator_rules(c);
    let p0 = separator_rule(c.size.item_horizontal_padding, c.size.item_vertical_padding, c.size.separator_size);
    let p1 = color_rule("separator#wcpopup-dark"@, "background-color"@, c.color.dark.separator);
    let p2 = color_rule("separator#wcpopup-light"@, "background-color"@, c.color.light.separator);
    assert(seq![g0, g1, g2, g3, g4, g5][5] == separator_rules(c));
    assert((Seq::<char>::empty()) + p0 + (p1 + p2) =~= separator_rules(c));
    lemma_contains_part(g0, g1, g2, g3, g4, g5, 5, p0);
    assert((p0) + p1 + (p2) =~= separator_rules(c));
    lemma_contains_part(g0, g1, g2, g3, g4, g5, 5, p1);
    assert((p0 + p1) + p2 + (Seq::<char>::empty()) =~= separator_rules(c));
    lemma_contains_part(g0, g1, g2, g3, g4, g5, 5, p2);
}

/// The item style sheet gives every part of an item, in each theme, the
/// color configured for that part in that theme: the accelerators their
/// accelerator color, the check marks, arrows and item texts the text and
/// background colors, hovered parts the hover color, disabled items the
/// disabled color and separators the separator color. It also carries the
/// accelerator font, the configured item paddings and the separator size.
pub proof fn law_item_style_colors(
    c: MenuConfig,
    font_size: Seq<char>,
    icon_size: Seq<char>,
    font_family: Seq<char>,
    weight: FontWeight,
    check_is_svg: bool,
    arrow_is_svg: bool,
)
    ensures
        contains_text(
            spec_menu_item_css(c, font_size, icon_size, font_family, weight, check_is_svg, arrow_is_svg),
            accelerator_font_rule(font_size, font_family, weight),
        ),
        contains_text(
            spec_menu_item_css(c, font_size, icon_size, font_family, weight, check_is_svg, arrow_is_svg),
            color_rule("#wcpopup-dark accelerator"@, "color"@, c.color.dark.accelerator),
        ),
        contains_text(
            spec_menu_item_css(c, font_size, icon_size, font_family, weight, check_is_svg, arrow_is_svg),
            color_rule("#wcpopup-light accelerator"@, "color"@, c.color.light.accelerator),
        ),
        contains_text(
            spec_menu_item_css(c, font_size, icon_size, font_family, weight, check_is_svg, arrow_is_svg),
            colors_rule("#wcpopup-dark check, #wcpopup-dark check:checked"@, c.color.dark.color, c.color.dark.background_color),
        ),
        contains_text(
            spec_menu_item_css(c, font_size, icon_size, font_family, weight, check_is_svg, arrow_is_svg),
            colors_rule("#wcpopup-light check, #wcpopup-light check:checked"@, c.color.light.color, c.color.light.background_color),
        ),
        contains_text(
            spec_menu_item_css(c, font_size, icon_size, font_family, weight, check_is_svg, arrow_is_svg),
            color_rule("#wcpopup-dark check:hover, #wcpopup-dark check:checked:hover"@, "background-color"@,
            c.color.dark.hover_background_color),
        ),
        contains_text(
            spec_menu_item_css(c, font_size, icon_size, font_family, weight, check_is_svg, arrow_is_svg),
            color_rule("#wcpopup-light check:hover, #wcpopup-light check:checked:hover"@, "background-color"@,
            c.color.light.hover_background_color),
        ),
        contains_text(
            spec_menu_item_css(c, font_size, icon_size, font_family, weight, check_is_svg, arrow_is_svg),
            colors_rule("#wcpopup-dark arrow"@, c.color.dark.color, c.color.dark.background_color),
        ),
        contains_text(
            spec_menu_item_css(c, font_size, icon_size, font_family, weight, check_is_svg, arrow_is_svg),
            colors_rule("#wcpopup-light arrow"@, c.color.light.color, c.color.light.background_color),
        ),
        contains_text(
            spec_menu_item_css(c, font_size, icon_size, font_family, weight, check_is_svg, arrow_is_svg),
            color_rule("#wcpopup-dark:hover arrow"@, "background-color"@, c.color.dark.hover_background_color),
        ),
        contains_text(
            spec_menu_item_css(c, font_size, icon_size, font_family, weight, check_is_svg, arrow_is_svg),
            color_rule("#wcpopup-light:hover arrow"@, "background-color"@, c.color.light.hover_background_color),
        ),
        contains_text(
            spec_menu_item_css(c, font_size, icon_size, font_family, weight, check_is_svg, arrow_is_svg),
            item_padding_rule(c.size.item_horizontal_padding, c.size.item_vertical_padding),
        ),
        contains_text(
            spec_menu_item_css(c, font_size, icon_size, font_family, weight, check_is_svg, arrow_is_svg),
            color_rule("menuitem#wcpopup-dark"@, "color"@, c.color.dark.color),
        ),
        contains_text(
            spec_menu_item_css(c, font_size, icon_size, font_family, weight, check_is_svg, arrow_is_svg),
            color_rule("menuitem#wcpopup-light"@, "color"@, c.color.light.color),
        ),
        contains_text(
            spec_menu_item_css(c, font_size, icon_size, font_family, weight, check_is_svg, arrow_is_svg),
            color_rule("menuitem#wcpopup-dark:hover"@, "background-color"@, c.color.dark.hover_background_color),
        ),
        contains_text(
            spec_menu_item_css(c, font_size, icon_size, font_family, weight, check_is_svg, arrow_is_svg),
            color_rule("menuitem#wcpopup-light:hover"@, "background-color"@, c.color.light.hover_background_color),
        ),
        contains_text(
            spec_menu_item_css(c, font_size, icon_size, font_family, weight, check_is_svg, arrow_is_svg),
            color_rule(dark_disabled_selector(), "color"@, c.color.dark.disabled),
        ),
        contains_text(
            spec_menu_item_css(c, font_size, icon_size, font_family, weight, check_is_svg, arrow_is_svg),
            color_rule(light_disabled_selector(), "color"@, c.color.light.disabled),
        ),
        contains_text(
            spec_menu_item_css(c, font_size, icon_size, font_family, weight, check_is_svg, arrow_is_svg),
            separator_rule(c.size.item_horizontal_padding, c.size.item_vertical_padding, c.size.separator_size),
        ),
        contains_text(
            spec_menu_item_css(c, font_size, icon_size, font_family, weight, check_is_svg, arrow_is_svg),
            color_rule("separator#wcpopup-dark"@, "background-color"@, c.color.dark.separator),
        ),
        contains_text(
            spec_menu_item_css(c, font_size, icon_size, font_family, weight, check_is_svg, arrow_is_svg),
            color_rule("separator#wcpopup-light"@, "background-color"@, c.color.light.separator),
        ),
{
    lemma_accelerator_rules_in_sheet(c, font_size, icon_size, font_family, weight, check_is_svg, arrow_is_svg);
    lemma_check_rules_in_sheet(c, font_size, icon_size, font_family, weight, check_is_svg, arrow_is_svg);
    lemma_arrow_rules_in_sheet(c, font_size, icon_size, font_family, weight, check_is_svg, arrow_is_svg);
    lemma_item_rules_in_sheet(c, font_size, icon_size, font_family, weight, check_is_svg, arrow_is_svg);
    lemma_disabled_rules_in_sheet(c, font_size, icon_size, font_family, weight, check_is_svg, arrow_is_svg);
    lemma_separator_rules_in_sheet(c, font_size, icon_size, font_family, weight, check_is_svg, arrow_is_svg);
}

} // verus!
