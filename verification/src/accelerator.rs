//! Accelerators: parsing accelerator texts such as "Ctrl+Shift+P" into key
//! codes and modifier flags, the table of accelerators of a menu, and the
//! command words of accelerator messages.
use vstd::prelude::*;
use crate::menu::MenuData;
use std::collections::HashMap;
use vstd::std_specs::hash::spec_hash_map_iter;
use vstd::std_specs::iter::IteratorSpec;
use crate::menu_item::{items_view, lemma_children_view, MenuItem, MenuItemType, MenuItemView};
use crate::text::{chars_eq, str_to_chars, str_to_string};

verus! {

/// The uppercase form of a string, as `str::to_uppercase` gives it.
pub uninterp spec fn uppercase(s: Seq<char>) -> Seq<char>;

/// Calls `str::to_uppercase`. Its result is named `uppercase` and nothing
/// more is stated of it here: the Unicode case tables are not written out.
#[verifier::external_body]
fn to_uppercase(s: &str) -> (r: String)
    ensures
        r@ == uppercase(s@),
{
    s.to_uppercase()
}

/// The pieces of `s` between the separators, as `str::split` gives them:
/// always at least one, possibly empty.
pub open spec fn split_on(s: Seq<char>, sep: char) -> Seq<Seq<char>>
    decreases s.len(),
{
    if s.len() == 0 {
        seq![Seq::empty()]
    } else {
        let rest = split_on(s.drop_last(), sep);
        if s.last() == sep {
            rest.push(Seq::empty())
        } else {
            rest.update(rest.len() - 1, rest.last().push(s.last()))
        }
    }
}

proof fn lemma_split_nonempty(s: Seq<char>, sep: char)
    ensures
        split_on(s, sep).len() >= 1,
    decreases s.len(),
{
    if s.len() > 0 {
        lemma_split_nonempty(s.drop_last(), sep);
    }
}

/// The views of a list of character vectors.
pub open spec fn tokens_view(v: Seq<Vec<char>>) -> Seq<Seq<char>> {
    Seq::new(v.len(), |i: int| v[i]@)
}

/// The pieces of `s` between the separators `sep`.
pub fn split_chars(s: &Vec<char>, sep: char) -> (r: Vec<Vec<char>>)
    ensures
        tokens_view(r@) == split_on(s@, sep),
        r.len() >= 1,
{
    let mut done: Vec<Vec<char>> = Vec::new();
    let mut current: Vec<char> = Vec::new();
    let mut i: usize = 0;
    while i < s.len()
        invariant
            i <= s.len(),
            tokens_view(done@).push(current@) == split_on(s@.subrange(0, i as int), sep),
        decreases s.len() - i,
    {
        let c = s[i];
        proof {
            let pre = s@.subrange(0, i as int + 1);
            assert(pre.drop_last() =~= s@.subrange(0, i as int));
            assert(pre.last() == c);
        }
        if c == sep {
            let ghost before = done@;
            let finished = current;
            done.push(finished);
            current = Vec::new();
            proof {
                assert(tokens_view(done@) =~= tokens_view(before).push(finished@));
                assert(current@ =~= Seq::<char>::empty());
            }
        } else {
            let ghost cur = current@;
            current.push(c);
            proof {
                let t = tokens_view(done@).push(cur);
                assert(tokens_view(done@).push(current@) =~= t.update(t.len() - 1, t.last().push(c)));
            }
        }
        i += 1;
    }
    let ghost before = done@;
    let last = current;
    done.push(last);
    proof {
        assert(s@.subrange(0, s@.len() as int) =~= s@);
        assert(tokens_view(done@) =~= tokens_view(before).push(last@));
    }
    done
}

/// Whether `v` holds the characters of `s`.
pub fn chars_equal_str(v: &Vec<char>, s: &str) -> (r: bool)
    ensures
        r == (v@ == s@),
{
    let w = str_to_chars(s);
    chars_eq(v, &w)
}

/// Whether one of the pieces is `s`.
fn tokens_contain(tokens: &Vec<Vec<char>>, s: &str) -> (r: bool)
    ensures
        r == tokens_view(tokens@).contains(s@),
{
    let mut i: usize = 0;
    while i < tokens.len()
        invariant
            i <= tokens.len(),
            forall|k: int| 0 <= k < i ==> tokens@[k]@ != s@,
        decreases tokens.len() - i,
    {
        if chars_equal_str(&tokens[i], s) {
            proof {
                assert(tokens_view(tokens@)[i as int] == s@);
            }
            return true;
        }
        i += 1;
    }
    proof {
        if tokens_view(tokens@).contains(s@) {
            let k = choose|k: int| 0 <= k < tokens_view(tokens@).len() && tokens_view(tokens@)[k] == s@;
            assert(tokens@[k]@ == s@);
        }
    }
    false
}

/// A modifier name of an accelerator, in uppercase.
pub open spec fn is_modifier(token: Seq<char>) -> bool {
    token == "CTRL"@ || token == "ALT"@ || token == "SHIFT"@
}

fn is_modifier_token(token: &Vec<char>) -> (r: bool)
    ensures
        r == is_modifier(token@),
{
    chars_equal_str(token, "CTRL") || chars_equal_str(token, "ALT") || chars_equal_str(token, "SHIFT")
}

/// The Windows virtual-key code of a key name, 0 for an unknown name.
pub open spec fn spec_virtual_key(key: Seq<char>) -> u16 {
    if key == "A"@ {
        65
    } else if key == "B"@ {
        66
    } else if key == "C"@ {
        67
    } else if key == "D"@ {
        68
    } else if key == "E"@ {
        69
    } else if key == "F"@ {
        70
    } else if key == "G"@ {
        71
    } else if key == "H"@ {
        72
    } else if key == "I"@ {
        73
    } else if key == "J"@ {
        74
    } else if key == "K"@ {
        75
    } else if key == "L"@ {
        76
    } else if key == "M"@ {
        77
    } else if key == "N"@ {
        78
    } else if key == "O"@ {
        79
    } else if key == "P"@ {
        80
    } else if key == "Q"@ {
        81
    } else if key == "R"@ {
        82
    } else if key == "S"@ {
        83
    } else if key == "T"@ {
        84
    } else if key == "U"@ {
        85
    } else if key == "V"@ {
        86
    } else if key == "W"@ {
        87
    } else if key == "X"@ {
        88
    } else if key == "Y"@ {
        89
    } else if key == "Z"@ {
        90
    } else if key == "0"@ {
        48
    } else if key == "1"@ {
        49
    } else if key == "2"@ {
        50
    } else if key == "3"@ {
        51
    } else if key == "4"@ {
        52
    } else if key == "5"@ {
        53
    } else if key == "6"@ {
        54
    } else if key == "7"@ {
        55
    } else if key == "8"@ {
        56
    } else if key == "9"@ {
        57
    } else if key == "F1"@ {
        112
    } else if key == "F2"@ {
        113
    } else if key == "F3"@ {
        114
    } else if key == "F4"@ {
        115
    } else if key == "F5"@ {
        116
    } else if key == "F6"@ {
        117
    } else if key == "F7"@ {
        118
    } else if key == "F8"@ {
        119
    } else if key == "F9"@ {
        120
    } else if key == "F10"@ {
        121
    } else if key == "F11"@ {
        122
    } else if key == "F12"@ {
        123
    } else if key == "F13"@ {
        124
    } else if key == "F14"@ {
        125
    } else if key == "F15"@ {
        126
    } else if key == "F16"@ {
        127
    } else if key == "F17"@ {
        128
    } else if key == "F18"@ {
        129
    } else if key == "F19"@ {
        130
    } else if key == "F20"@ {
        131
    } else if key == "F21"@ {
        132
    } else if key == "F22"@ {
        133
    } else if key == "F23"@ {
        134
    } else if key == "F24"@ {
        135
    } else if key == "Plus"@ {
        187
    } else if key == "Space"@ {
        32
    } else if key == "Tab"@ {
        9
    } else if key == "CapsLock"@ {
        20
    } else if key == "NumLock"@ {
        144
    } else if key == "ScrollLock"@ {
        145
    } else if key == "Backspace"@ {
        8
    } else if key == "Delete"@ {
        46
    } else if key == "Insert"@ {
        45
    } else if key == "Enter"@ {
        13
    } else if key == "ArrowLeft"@ {
        37
    } else if key == "ArrowUp"@ {
        38
    } else if key == "ArrowRight"@ {
        39
    } else if key == "ArrowDown"@ {
        40
    } else if key == "End"@ {
        35
    } else if key == "Home"@ {
        36
    } else if key == "PageUp"@ {
        33
    } else if key == "PageDown"@ {
        34
    } else if key == "Escape"@ {
        27
    } else if key == "BrowserHome"@ {
        172
    } else if key == "AudioVolumeMute"@ {
        173
    } else if key == "AudioVolumeDown"@ {
        174
    } else if key == "AudioVolumeUp"@ {
        175
    } else if key == "MediaTrackNext"@ {
        176
    } else if key == "MediaTrackPrevious"@ {
        177
    } else if key == "MediaStop"@ {
        178
    } else if key == "MediaPlayPause"@ {
        179
    } else if key == "PrintScreen"@ {
        44
    } else if key == "Comma"@ {
        188
    } else if key == "Minus"@ {
        189
    } else if key == "Period"@ {
        190
    } else if key == "Semicolon"@ {
        186
    } else if key == "Slash"@ {
        191
    } else if key == "Backquote"@ {
        192
    } else if key == "BracketLeft"@ {
        219
    } else if key == "Backslash"@ {
        220
    } else if key == "BracketRight"@ {
        221
    } else if key == "Quote"@ {
        222
    } else if key == "Pause"@ {
        19
    } else if key == "KanaMode"@ {
        21
    } else if key == "NonConvert"@ {
        29
    } else if key == "Help"@ {
        47
    } else if key == "ContextMenu"@ {
        93
    } else if key == "Convert"@ {
        28
    } else {
        0
    }
}

/// The Windows virtual-key code of a key name, 0 for an unknown name.
pub fn get_virtual_key(key_string: &str) -> (vk: u16)
    ensures
        vk == spec_virtual_key(key_string@),
{
    let key = str_to_chars(key_string);
    if chars_equal_str(&key, "A") {
        65
    } else if chars_equal_str(&key, "B") {
        66
    } else if chars_equal_str(&key, "C") {
        67
    } else if chars_equal_str(&key, "D") {
        68
    } else if chars_equal_str(&key, "E") {
        69
    } else if chars_equal_str(&key, "F") {
        70
    } else if chars_equal_str(&key, "G") {
        71
    } else if chars_equal_str(&key, "H") {
        72
    } else if chars_equal_str(&key, "I") {
        73
    } else if chars_equal_str(&key, "J") {
        74
    } else if chars_equal_str(&key, "K") {
        75
    } else if chars_equal_str(&key, "L") {
        76
    } else if chars_equal_str(&key, "M") {
        77
    } else if chars_equal_str(&key, "N") {
        78
    } else if chars_equal_str(&key, "O") {
        79
    } else if chars_equal_str(&key, "P") {
        80
    } else if chars_equal_str(&key, "Q") {
        81
    } else if chars_equal_str(&key, "R") {
        82
    } else if chars_equal_str(&key, "S") {
        83
    } else if chars_equal_str(&key, "T") {
        84
    } else if chars_equal_str(&key, "U") {
        85
    } else if chars_equal_str(&key, "V") {
        86
    } else if chars_equal_str(&key, "W") {
        87
    } else if chars_equal_str(&key, "X") {
        88
    } else if chars_equal_str(&key, "Y") {
        89
    } else if chars_equal_str(&key, "Z") {
        90
    } else if chars_equal_str(&key, "0") {
        48
    } else if chars_equal_str(&key, "1") {
        49
    } else if chars_equal_str(&key, "2") {
        50
    } else if chars_equal_str(&key, "3") {
        51
    } else if chars_equal_str(&key, "4") {
        52
    } else if chars_equal_str(&key, "5") {
        53
    } else if chars_equal_str(&key, "6") {
        54
    } else if chars_equal_str(&key, "7") {
        55
    } else if chars_equal_str(&key, "8") {
        56
    } else if chars_equal_str(&key, "9") {
        57
    } else if chars_equal_str(&key, "F1") {
        112
    } else if chars_equal_str(&key, "F2") {
        113
    } else if chars_equal_str(&key, "F3") {
        114
    } else if chars_equal_str(&key, "F4") {
        115
    } else if chars_equal_str(&key, "F5") {
        116
    } else if chars_equal_str(&key, "F6") {
        117
    } else if chars_equal_str(&key, "F7") {
        118
    } else if chars_equal_str(&key, "F8") {
        119
    } else if chars_equal_str(&key, "F9") {
        120
    } else if chars_equal_str(&key, "F10") {
        121
    } else if chars_equal_str(&key, "F11") {
        122
    } else if chars_equal_str(&key, "F12") {
        123
    } else if chars_equal_str(&key, "F13") {
        124
    } else if chars_equal_str(&key, "F14") {
        125
    } else if chars_equal_str(&key, "F15") {
        126
    } else if chars_equal_str(&key, "F16") {
        127
    } else if chars_equal_str(&key, "F17") {
        128
    } else if chars_equal_str(&key, "F18") {
        129
    } else if chars_equal_str(&key, "F19") {
        130
    } else if chars_equal_str(&key, "F20") {
        131
    } else if chars_equal_str(&key, "F21") {
        132
    } else if chars_equal_str(&key, "F22") {
        133
    } else if chars_equal_str(&key, "F23") {
        134
    } else if chars_equal_str(&key, "F24") {
        135
    } else if chars_equal_str(&key, "Plus") {
        187
    } else if chars_equal_str(&key, "Space") {
        32
    } else if chars_equal_str(&key, "Tab") {
        9
    } else if chars_equal_str(&key, "CapsLock") {
        20
    } else if chars_equal_str(&key, "NumLock") {
        144
    } else if chars_equal_str(&key, "ScrollLock") {
        145
    } else if chars_equal_str(&key, "Backspace") {
        8
    } else if chars_equal_str(&key, "Delete") {
        46
    } else if chars_equal_str(&key, "Insert") {
        45
    } else if chars_equal_str(&key, "Enter") {
        13
    } else if chars_equal_str(&key, "ArrowLeft") {
        37
    } else if chars_equal_str(&key, "ArrowUp") {
        38
    } else if chars_equal_str(&key, "ArrowRight") {
        39
    } else if chars_equal_str(&key, "ArrowDown") {
        40
    } else if chars_equal_str(&key, "End") {
        35
    } else if chars_equal_str(&key, "Home") {
        36
    } else if chars_equal_str(&key, "PageUp") {
        33
    } else if chars_equal_str(&key, "PageDown") {
        34
    } else if chars_equal_str(&key, "Escape") {
        27
    } else if chars_equal_str(&key, "BrowserHome") {
        172
    } else if chars_equal_str(&key, "AudioVolumeMute") {
        173
    } else if chars_equal_str(&key, "AudioVolumeDown") {
        174
    } else if chars_equal_str(&key, "AudioVolumeUp") {
        175
    } else if chars_equal_str(&key, "MediaTrackNext") {
        176
    } else if chars_equal_str(&key, "MediaTrackPrevious") {
        177
    } else if chars_equal_str(&key, "MediaStop") {
        178
    } else if chars_equal_str(&key, "MediaPlayPause") {
        179
    } else if chars_equal_str(&key, "PrintScreen") {
        44
    } else if chars_equal_str(&key, "Comma") {
        188
    } else if chars_equal_str(&key, "Minus") {
        189
    } else if chars_equal_str(&key, "Period") {
        190
    } else if chars_equal_str(&key, "Semicolon") {
        186
    } else if chars_equal_str(&key, "Slash") {
        191
    } else if chars_equal_str(&key, "Backquote") {
        192
    } else if chars_equal_str(&key, "BracketLeft") {
        219
    } else if chars_equal_str(&key, "Backslash") {
        220
    } else if chars_equal_str(&key, "BracketRight") {
        221
    } else if chars_equal_str(&key, "Quote") {
        222
    } else if chars_equal_str(&key, "Pause") {
        19
    } else if chars_equal_str(&key, "KanaMode") {
        21
    } else if chars_equal_str(&key, "NonConvert") {
        29
    } else if chars_equal_str(&key, "Help") {
        47
    } else if chars_equal_str(&key, "ContextMenu") {
        93
    } else if chars_equal_str(&key, "Convert") {
        28
    } else {
        0
    }
}

/// Flag of an accelerator whose key is a virtual-key code.
pub const FVIRTKEY: u8 = 1;

/// Flag of an accelerator that needs the Shift key.
pub const FSHIFT: u8 = 4;

/// Flag of an accelerator that needs the Ctrl key.
pub const FCONTROL: u8 = 8;

/// Flag of an accelerator that needs the Alt key.
pub const FALT: u8 = 16;

/// A parsed Windows accelerator: its flags and its virtual-key code.
#[derive(Debug, Clone, Copy, PartialEq, Eq, Structural)]
pub struct WinAccel {
    pub virt: u8,
    pub key: u16,
}

/// The Windows accelerator of the text `accel`, given its uppercase form
/// `upper`: none when the last piece is a modifier or the key is unknown;
/// otherwise the key of the last piece and a flag for each modifier piece.
pub open spec fn spec_windows_accel(accel: Seq<char>, upper: Seq<char>) -> Option<WinAccel> {
    let upper_keys = split_on(upper, '+');
    if is_modifier(upper_keys.last()) {
        None
    } else {
        let key = spec_virtual_key(split_on(accel, '+').last());
        if key == 0 {
            None
        } else {
            Some(
                WinAccel {
                    virt: (FVIRTKEY + (if upper_keys.contains("CTRL"@) {
                        FCONTROL
                    } else {
                        0
                    }) + (if upper_keys.contains("ALT"@) {
                        FALT
                    } else {
                        0
                    }) + (if upper_keys.contains("SHIFT"@) {
                        FSHIFT
                    } else {
                        0
                    })) as u8,
                    key,
                },
            )
        }
    }
}

/// The Windows accelerator of the text `accel` whose uppercase form is `upper`.
pub fn windows_accelerator_with(accel: &str, upper: &str) -> (r: Option<WinAccel>)
    ensures
        r == spec_windows_accel(accel@, upper@),
{
    let upper_chars = str_to_chars(upper);
    let upper_keys = split_chars(&upper_chars, '+');
    proof {
        lemma_split_nonempty(upper@, '+');
        lemma_split_nonempty(accel@, '+');
    }
    if is_modifier_token(&upper_keys[upper_keys.len() - 1]) {
        return None;
    }
    let accel_chars = str_to_chars(accel);
    let keys = split_chars(&accel_chars, '+');
    let key_chars = &keys[keys.len() - 1];
    let key_string = crate::text::chars_to_string(key_chars);
    let key = get_virtual_key(key_string.as_str());
    if key == 0 {
        return None;
    }
    let mut virt: u8 = FVIRTKEY;
    if tokens_contain(&upper_keys, "CTRL") {
        virt = virt + FCONTROL;
    }
    if tokens_contain(&upper_keys, "ALT") {
        virt = virt + FALT;
    }
    if tokens_contain(&upper_keys, "SHIFT") {
        virt = virt + FSHIFT;
    }
    Some(WinAccel { virt, key })
}

/// The Windows accelerator of the text `accel`, compared without regard to
/// case for its modifiers.
pub fn windows_accelerator(accel: &str) -> (r: Option<WinAccel>)
    ensures
        r == spec_windows_accel(accel@, uppercase(accel@)),
{
    let upper = to_uppercase(accel);
    windows_accelerator_with(accel, upper.as_str())
}

/// Control-key modifier bit of a Gtk accelerator.
pub const GTK_CONTROL_MASK: u32 = 4;

/// Alt-key modifier bit of a Gtk accelerator.
pub const GTK_MOD1_MASK: u32 = 8;

/// Shift-key modifier bit of a Gtk accelerator.
pub const GTK_SHIFT_MASK: u32 = 1;

/// A parsed Gtk accelerator: the name of its key and its modifier bits.
#[derive(Debug)]
pub struct GtkAccel {
    pub key_name: String,
    pub modifiers: u32,
}

/// The Gtk accelerator of the text `accel`, given its uppercase form:
/// none when the last piece is a modifier; otherwise the last piece as the
/// key name and a bit for each modifier piece.
pub open spec fn spec_gtk_accel(accel: Seq<char>, upper: Seq<char>) -> Option<(Seq<char>, u32)> {
    let upper_keys = split_on(upper, '+');
    if is_modifier(upper_keys.last()) {
        None
    } else {
        Some(
            (
                split_on(accel, '+').last(),
                ((if upper_keys.contains("CTRL"@) {
                    GTK_CONTROL_MASK
                } else {
                    0
                }) + (if upper_keys.contains("ALT"@) {
                    GTK_MOD1_MASK
                } else {
                    0
                }) + (if upper_keys.contains("SHIFT"@) {
                    GTK_SHIFT_MASK
                } else {
                    0
                })) as u32,
            ),
        )
    }
}

/// The Gtk accelerator of the text `accel` whose uppercase form is `upper`.
pub fn gtk_accelerator_with(accel: &str, upper: &str) -> (r: Option<GtkAccel>)
    ensures
        match r {
            Some(a) => spec_gtk_accel(accel@, upper@) == Some((a.key_name@, a.modifiers)),
            None => spec_gtk_accel(accel@, upper@) is None,
        },
{
    let upper_chars = str_to_chars(upper);
    let upper_keys = split_chars(&upper_chars, '+');
    proof {
        lemma_split_nonempty(upper@, '+');
        lemma_split_nonempty(accel@, '+');
    }
    if is_modifier_token(&upper_keys[upper_keys.len() - 1]) {
        return None;
    }
    let accel_chars = str_to_chars(accel);
    let keys = split_chars(&accel_chars, '+');
    let key_name = crate::text::chars_to_string(&keys[keys.len() - 1]);
    let mut modifiers: u32 = 0;
    if tokens_contain(&upper_keys, "CTRL") {
        modifiers = modifiers + GTK_CONTROL_MASK;
    }
    if tokens_contain(&upper_keys, "ALT") {
        modifiers = modifiers + GTK_MOD1_MASK;
    }
    if tokens_contain(&upper_keys, "SHIFT") {
        modifiers = modifiers + GTK_SHIFT_MASK;
    }
    Some(GtkAccel { key_name, modifiers })
}

/// The Gtk accelerator of the text `accelerator`.
pub fn get_accelerator_key(accelerator: &str) -> (r: Option<GtkAccel>)
    ensures
        match r {
            Some(a) => spec_gtk_accel(accelerator@, uppercase(accelerator@)) == Some((a.key_name@, a.modifiers)),
            None => spec_gtk_accel(accelerator@, uppercase(accelerator@)) is None,
        },
{
    let upper = to_uppercase(accelerator);
    gtk_accelerator_with(accelerator, upper.as_str())
}

/// The accelerators of a table: the accelerator text of each item uuid.
pub open spec fn accel_map(m: Map<u16, String>) -> Map<u16, Seq<char>> {
    m.map_values(|s: String| s@)
}

proof fn lemma_accel_map_insert(m: Map<u16, String>, k: u16, v: String)
    ensures
        accel_map(m.insert(k, v)) == accel_map(m).insert(k, v@),
{
    assert(accel_map(m.insert(k, v)) =~= accel_map(m).insert(k, v@));
}

proof fn lemma_accel_map_remove(m: Map<u16, String>, k: u16)
    ensures
        accel_map(m.remove(k)) == accel_map(m).remove(k),
{
    assert(accel_map(m.remove(k)) =~= accel_map(m).remove(k));
}

/// The accelerators found in an item tree, added in order to `m`: the items
/// of a submenu are visited in place of the submenu item, and every other
/// item with an accelerator adds it under its uuid.
pub open spec fn collect_into(m: Map<u16, Seq<char>>, items: Seq<MenuItemView>, i: int) -> Map<u16, Seq<char>>
    decreases items, items.len() - i,
{
    if i < 0 || i >= items.len() {
        m
    } else {
        let item = items[i];
        let m2 = if item.menu_item_type == MenuItemType::Submenu {
            match item.items {
                Some(children) => {
                    proof {
                        assert(decreases_to!(items => items[i]));
                    }
                    collect_into(m, children, 0)
                },
                None => m,
            }
        } else if item.accelerator.len() > 0 {
            m.insert(item.uuid, item.accelerator)
        } else {
            m
        };
        collect_into(m2, items, i + 1)
    }
}

/// Adds the accelerators of an item tree to the table.
pub fn collect_accelerators(items: &Vec<MenuItem>, table: &mut HashMap<u16, String>)
    ensures
        accel_map(final(table)@) == collect_into(accel_map(old(table)@), items_view(items@), 0),
    decreases items,
{
    broadcast use vstd::std_specs::hash::group_hash_axioms;

    let ghost iv = items_view(items@);
    let mut i: usize = 0;
    while i < items.len()
        invariant
            i <= items.len(),
            iv == items_view(items@),
            collect_into(accel_map(old(table)@), iv, 0) == collect_into(accel_map(table@), iv, i as int),
        decreases items.len() - i,
    {
        let item = &items[i];
        proof {
            assert(iv[i as int] == item@);
        }
        if item.menu_item_type == MenuItemType::Submenu {
            match &item.items {
                Some(children) => {
                    proof {
                        lemma_children_view(*item);
                        broadcast use vstd::std_specs::vec::axiom_vec_index_decreases;

                        assert(decreases_to!(items => items[i as int]));
                        assert(decreases_to!(items[i as int] => items[i as int].items));
                    }
                    collect_accelerators(children, table);
                },
                None => {},
            }
        } else if item.accelerator.as_str().unicode_len() > 0 {
            let ghost before = table@;
            let text = str_to_string(item.accelerator.as_str());
            table.insert(item.uuid, text);
            proof {
                lemma_accel_map_insert(before, item.uuid, text);
            }
        }
        i += 1;
    }
}

/// The table after the accelerators of `items` are added, or removed when
/// `remove` holds; items without an accelerator are passed over.
pub open spec fn reset_fold(m: Map<u16, Seq<char>>, items: Seq<MenuItemView>, n: int, remove: bool) -> Map<
    u16,
    Seq<char>,
>
    decreases n,
{
    if n <= 0 {
        m
    } else {
        let prev = reset_fold(m, items, n - 1, remove);
        let item = items[n - 1];
        if item.accelerator.len() == 0 {
            prev
        } else if remove {
            prev.remove(item.uuid)
        } else {
            prev.insert(item.uuid, item.accelerator)
        }
    }
}

impl MenuData {
    /// Adds the accelerators of `items` to the table of this menu, or removes
    /// them when `should_remove` holds; returns whether any item had an
    /// accelerator, in which case the table was changed.
    pub fn reset_accelerators(&mut self, items: &Vec<MenuItem>, should_remove: bool) -> (changed: bool)
        ensures
            changed == exists|k: int| 0 <= k < items.len() && items_view(items@)[k].accelerator.len() > 0,
            accel_map(final(self).accelerators@) == reset_fold(
                accel_map(old(self).accelerators@),
                items_view(items@),
                items.len() as int,
                should_remove,
            ),
            *final(self) == (MenuData { accelerators: final(self).accelerators, ..*old(self) }),
    {
        broadcast use vstd::std_specs::hash::group_hash_axioms;

        let ghost iv = items_view(items@);
        let mut changed = false;
        let mut i: usize = 0;
        while i < items.len()
            invariant
                i <= items.len(),
                iv == items_view(items@),
                changed == exists|k: int| 0 <= k < i && iv[k].accelerator.len() > 0,
                accel_map(self.accelerators@) == reset_fold(accel_map(old(self).accelerators@), iv, i as int, should_remove),
                *self == (MenuData { accelerators: self.accelerators, ..*old(self) }),
            decreases items.len() - i,
        {
            let item = &items[i];
            proof {
                assert(iv[i as int] == item@);
            }
            if item.accelerator.as_str().unicode_len() > 0 {
                changed = true;
                let ghost before = self.accelerators@;
                if should_remove {
                    self.accelerators.remove(&item.uuid);
                    proof {
                        lemma_accel_map_remove(before, item.uuid);
                    }
                } else {
                    let text = str_to_string(item.accelerator.as_str());
                    self.accelerators.insert(item.uuid, text);
                    proof {
                        lemma_accel_map_insert(before, item.uuid, text);
                    }
                }
            }
            i += 1;
        }
        changed
    }
}

/// One entry of a Windows accelerator table: flags, key code and the uuid of
/// the item it selects.
#[derive(Debug, Clone, Copy, PartialEq, Eq, Structural)]
pub struct AccelTableEntry {
    pub virt: u8,
    pub key: u16,
    pub cmd: u16,
}

/// The Windows accelerator table made from a list of accelerators (item
/// uuid and text): each one whose text parses gives one row, in order.
pub open spec fn accel_table(entries: Seq<(u16, Seq<char>)>) -> Seq<AccelTableEntry>
    decreases entries.len(),
{
    if entries.len() == 0 {
        Seq::empty()
    } else {
        let prev = accel_table(entries.drop_last());
        let e = entries.last();
        match spec_windows_accel(e.1, uppercase(e.1)) {
            Some(a) => prev.push(AccelTableEntry { virt: a.virt, key: a.key, cmd: e.0 }),
            None => prev,
        }
    }
}

/// Whether `s` lists the accelerators of `m`, each once, in some order.
pub open spec fn lists(s: Seq<(u16, Seq<char>)>, m: Map<u16, Seq<char>>) -> bool {
    &&& s.len() == m.dom().len()
    &&& forall|i: int| 0 <= i < s.len() ==> m.contains_key(#[trigger] s[i].0) && m[s[i].0] == s[i].1
    &&& forall|k: u16| #[trigger] m.contains_key(k) ==> exists|i: int| 0 <= i < s.len() && s[i].0 == k
}

/// The accelerators as the map hands them out, one after the other.
pub open spec fn pairs_view(s: Seq<(&u16, &String)>) -> Seq<(u16, Seq<char>)> {
    s.map_values(|p: (&u16, &String)| (*p.0, p.1@))
}

/// The rows of the Windows accelerator table of a menu, taken in the order
/// in which the map hands its accelerators out (which this library does not
/// fix); `None` when no accelerator parses.
pub fn create_haccel(accelerators: &HashMap<u16, String>) -> (r: Option<Vec<AccelTableEntry>>)
    ensures
        exists|s: Seq<(u16, Seq<char>)>|
            #[trigger] lists(s, accel_map(accelerators@)) && match r {
                Some(rows) => rows@ == accel_table(s) && rows.len() > 0,
                None => accel_table(s).len() == 0,
            },
{
    broadcast use vstd::std_specs::hash::group_hash_axioms;

    let ghost v = spec_hash_map_iter(accelerators).remaining();
    let ghost s = pairs_view(v);
    let mut rows: Vec<AccelTableEntry> = Vec::new();
    for (k, text) in it: accelerators.iter()
        invariant
            it.seq() == v,
            s == pairs_view(v),
            it.index() <= s.len(),
            rows@ == accel_table(s.subrange(0, it.index() as int)),
    {
        let ghost n = it.index();
        proof {
            assert(s.subrange(0, n + 1).drop_last() =~= s.subrange(0, n as int));
            assert(s[n as int] == (*k, text@));
        }
        match windows_accelerator(text.as_str()) {
            Some(a) => {
                rows.push(AccelTableEntry { virt: a.virt, key: a.key, cmd: *k });
            },
            None => {},
        }
    }
    proof {
        assert(s.subrange(0, s.len() as int) =~= s);
        let m = accel_map(accelerators@);
        assert forall|i: int| 0 <= i < s.len() implies m.contains_key(#[trigger] s[i].0) && m[s[i].0] == s[i].1 by {
            assert(accelerators@.contains_key(*v[i].0));
        }
        assert forall|k: u16| #[trigger] m.contains_key(k) implies exists|i: int| 0 <= i < s.len() && s[i].0 == k by {
            assert(accelerators@.contains_key(k));
            assert(v.contains((&k, &accelerators@[k])));
            let i = choose|i: int| 0 <= i < v.len() && v[i] == (&k, &accelerators@[k]);
            assert(s[i].0 == k);
        }
        assert(m.dom() =~= accelerators@.dom());
        assert(lists(s, m));
    }
    if rows.len() == 0 {
        None
    } else {
        Some(rows)
    }
}

/// The low word of a double word.
#[allow(non_snake_case)]
pub fn LOWORD(dword: u32) -> (w: u16)
    ensures
        w == dword % 0x10000,
{
    let w = (dword & 0xFFFF) as u16;
    assert(w == dword % 0x10000) by (bit_vector)
        requires
            w == (dword & 0xFFFF) as u16,
    ;
    w
}

/// The high word of a double word.
#[allow(non_snake_case)]
pub fn HIWORD(dword: u32) -> (w: u16)
    ensures
        w == dword / 0x10000,
{
    let w = ((dword & 0xFFFF_0000) >> 16u32) as u16;
    assert(w == dword / 0x10000) by (bit_vector)
        requires
            w == ((dword & 0xFFFF_0000) >> 16u32) as u16,
    ;
    w
}

/// The uuid carried by a command message from an accelerator: its high word
/// is 1 and its low word is the uuid; `None` for any other command.
pub fn accelerator_command(wparam: u32) -> (r: Option<u16>)
    ensures
        r == if wparam / 0x10000 == 1 {
            Some((wparam % 0x10000) as u16)
        } else {
            None::<u16>
        },
{
    if HIWORD(wparam) != 1 {
        None
    } else {
        Some(LOWORD(wparam))
    }
}

/// Virtual-key code of the Escape key.
pub const VK_ESCAPE: u16 = 0x1B;

/// Virtual-key code of the left Windows key.
pub const VK_LWIN: u16 = 0x5B;

/// Virtual-key code of the right Windows key.
pub const VK_RWIN: u16 = 0x5C;

/// Whether a key press closes the menu: Escape and the Windows keys do.
pub fn should_close_menu(vk: u16) -> (r: bool)
    ensures
        r == (vk == VK_ESCAPE || vk == VK_LWIN || vk == VK_RWIN),
{
    vk == VK_ESCAPE || vk == VK_LWIN || vk == VK_RWIN
}

} // verus!
