use wcpopup::accelerator::{
    accelerator_command, create_haccel, get_accelerator_key, get_virtual_key, should_close_menu,
    windows_accelerator, windows_accelerator_with, AccelTableEntry, WinAccel, FALT, FCONTROL, FSHIFT, FVIRTKEY, HIWORD, LOWORD,
    GTK_CONTROL_MASK, GTK_MOD1_MASK, GTK_SHIFT_MASK,
};
use std::collections::HashMap;

#[test]
fn virtual_keys_of_key_names() {
    let table: Vec<(&str, u16)> = vec![
        ("A", 65), ("B", 66), ("C", 67), ("D", 68), ("E", 69), ("F", 70),
        ("G", 71), ("H", 72), ("I", 73), ("J", 74), ("K", 75), ("L", 76),
        ("M", 77), ("N", 78), ("O", 79), ("P", 80), ("Q", 81), ("R", 82),
        ("S", 83), ("T", 84), ("U", 85), ("V", 86), ("W", 87), ("X", 88),
        ("Y", 89), ("Z", 90), ("0", 48), ("1", 49), ("2", 50), ("3", 51),
        ("4", 52), ("5", 53), ("6", 54), ("7", 55), ("8", 56), ("9", 57),
        ("F1", 112), ("F2", 113), ("F3", 114), ("F4", 115), ("F5", 116), ("F6", 117),
        ("F7", 118), ("F8", 119), ("F9", 120), ("F10", 121), ("F11", 122), ("F12", 123),
        ("F13", 124), ("F14", 125), ("F15", 126), ("F16", 127), ("F17", 128), ("F18", 129),
        ("F19", 130), ("F20", 131), ("F21", 132), ("F22", 133), ("F23", 134), ("F24", 135),
        ("Plus", 187), ("Space", 32), ("Tab", 9), ("CapsLock", 20), ("NumLock", 144), ("ScrollLock", 145),
        ("Backspace", 8), ("Delete", 46), ("Insert", 45), ("Enter", 13), ("ArrowLeft", 37), ("ArrowUp", 38),
        ("ArrowRight", 39), ("ArrowDown", 40), ("End", 35), ("Home", 36), ("PageUp", 33), ("PageDown", 34),
        ("Escape", 27), ("BrowserHome", 172), ("AudioVolumeMute", 173), ("AudioVolumeDown", 174), ("AudioVolumeUp", 175), ("MediaTrackNext", 176),
        ("MediaTrackPrevious", 177), ("MediaStop", 178), ("MediaPlayPause", 179), ("PrintScreen", 44), ("Comma", 188), ("Minus", 189),
        ("Period", 190), ("Semicolon", 186), ("Slash", 191), ("Backquote", 192), ("BracketLeft", 219), ("Backslash", 220),
        ("BracketRight", 221), ("Quote", 222), ("Pause", 19), ("KanaMode", 21), ("NonConvert", 29), ("Help", 47),
        ("ContextMenu", 93), ("Convert", 28),
    ];
    assert_eq!(table.len(), 104);
    for (name, vk) in table {
        assert_eq!(get_virtual_key(name), vk, "{}", name);
    }
    assert_eq!(get_virtual_key("a"), 0);
    assert_eq!(get_virtual_key("Unknown"), 0);
    assert_eq!(get_virtual_key(""), 0);
}

#[test]
fn accelerator_flags() {
    // the values of FVIRTKEY, FSHIFT, FCONTROL and FALT in the Windows headers
    assert_eq!(FVIRTKEY, 1);
    assert_eq!(FSHIFT, 4);
    assert_eq!(FCONTROL, 8);
    assert_eq!(FALT, 16);
}

#[test]
fn windows_accelerators() {
    assert_eq!(windows_accelerator("Ctrl+Shift+P"), Some(WinAccel { virt: 1 | 8 | 4, key: 0x50 }));
    assert_eq!(windows_accelerator("F11"), Some(WinAccel { virt: 1, key: 122 }));
    assert_eq!(windows_accelerator("alt+F4"), Some(WinAccel { virt: 1 | 16, key: 115 }));
    // the key name is matched as written
    assert_eq!(windows_accelerator("ctrl+f11"), None);
    // a modifier alone, or nothing after the last '+', gives no accelerator
    assert_eq!(windows_accelerator("Ctrl+Shift"), None);
    assert_eq!(windows_accelerator("shift"), None);
    assert_eq!(windows_accelerator("Ctrl+"), None);
    assert_eq!(windows_accelerator_with("Ctrl+S", "CTRL+S"), Some(WinAccel { virt: 9, key: 0x53 }));
}

#[test]
fn gtk_accelerators() {
    let a = get_accelerator_key("Ctrl+Shift+p").unwrap();
    assert_eq!(a.key_name, "p");
    assert_eq!(a.modifiers, GTK_CONTROL_MASK | GTK_SHIFT_MASK);
    let a = get_accelerator_key("alt+F4").unwrap();
    assert_eq!(a.key_name, "F4");
    assert_eq!(a.modifiers, GTK_MOD1_MASK);
    assert!(get_accelerator_key("ctrl").is_none());
    let a = get_accelerator_key("F11").unwrap();
    assert_eq!(a.modifiers, 0);
}

#[test]
fn accelerator_table() {
    let mut table: HashMap<u16, String> = HashMap::new();
    table.insert(3, "Ctrl+B".to_string());
    table.insert(4, "Alt".to_string());
    table.insert(5, "F5".to_string());
    table.insert(3, "Ctrl+C".to_string());
    let mut rows = create_haccel(&table).unwrap();
    rows.sort_by_key(|r| r.cmd);
    // "Alt" alone names no key and gives no row
    assert_eq!(
        rows,
        vec![AccelTableEntry { virt: 9, key: 0x43, cmd: 3 }, AccelTableEntry { virt: 1, key: 116, cmd: 5 }]
    );
    table.remove(&3);
    table.remove(&5);
    assert!(create_haccel(&table).is_none());
    assert!(create_haccel(&HashMap::new()).is_none());
}

#[test]
fn command_words() {
    assert_eq!(LOWORD(0x0001_0042), 0x42);
    assert_eq!(HIWORD(0x0001_0042), 1);
    assert_eq!(HIWORD(0xFFFF_0000), 0xFFFF);
    let w: u32 = 0xABCD_1234;
    assert_eq!((HIWORD(w) as u32) << 16 | LOWORD(w) as u32, w);
    assert_eq!(accelerator_command(0x0001_0042), Some(0x42));
    assert_eq!(accelerator_command(0x0000_0042), None);
    assert_eq!(accelerator_command(0x0002_0042), None);
}

#[test]
fn closing_keys() {
    assert!(should_close_menu(27));
    assert!(should_close_menu(91));
    assert!(should_close_menu(92));
    assert!(!should_close_menu(13));
}

#[test]
fn window_message_actions() {
    let action = wcpopup::messages::window_action;
    type A = wcpopup::messages::WindowAction;
    assert_eq!(action(0x8004, 0, true, false), A::Cancel);
    assert_eq!(action(0x8004, 0, false, false), A::Ignore);
    assert_eq!(action(0x0100, 0x1B, false, false), A::Cancel);
    assert_eq!(action(0x0100, 0x41, false, false), A::TranslateKey);
    assert_eq!(action(0x0111, 0x0001_0007, false, false), A::Accelerator(7));
    assert_eq!(action(0x0111, 0x0000_0007, false, false), A::Ignore);
    assert_eq!(action(0x0202, 0, false, false), A::MouseUp);
    assert_eq!(action(0x0204, 0, false, false), A::MouseDown);
    assert_eq!(action(0x020A, 0, false, false), A::Cancel);
    assert_eq!(action(0x001A, 0, false, true), A::SystemThemeChange);
    assert_eq!(action(0x001A, 0, false, false), A::Default);
    assert_eq!(action(0x0002, 0, false, false), A::Destroy);
    assert_eq!(action(0x9999, 0, false, false), A::Default);
}
