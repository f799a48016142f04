//! What a menu window does on each window message: the decision part of its
//! window procedure, from the message and what the window reports to the
//! action to take.
use vstd::prelude::*;
use crate::accelerator::{accelerator_command, should_close_menu, VK_ESCAPE, VK_LWIN, VK_RWIN};

verus! {

/// The message sent to a menu window when its owner is deactivated.
pub const WM_INACTIVATE: u32 = 0x8004;
pub const WM_DESTROY: u32 = 0x0002;
pub const WM_PAINT: u32 = 0x000F;
pub const WM_ERASEBKGND: u32 = 0x0014;
pub const WM_SETTINGCHANGE: u32 = 0x001A;
pub const WM_KEYDOWN: u32 = 0x0100;
pub const WM_COMMAND: u32 = 0x0111;
pub const WM_SYSCOMMAND: u32 = 0x0112;
pub const WM_MOUSEMOVE: u32 = 0x0200;
pub const WM_LBUTTONDOWN: u32 = 0x0201;
pub const WM_LBUTTONUP: u32 = 0x0202;
pub const WM_RBUTTONDOWN: u32 = 0x0204;
pub const WM_RBUTTONUP: u32 = 0x0205;
pub const WM_MOUSEWHEEL: u32 = 0x020A;
pub const WM_PRINTCLIENT: u32 = 0x0318;

/// What a menu window does on a message.
#[derive(Debug, Clone, Copy, PartialEq, Eq, Structural)]
pub enum WindowAction {
    /// Close the menu and report that nothing was selected.
    Cancel,
    /// Release what the window holds, then let the system handle the message.
    Destroy,
    /// Paint the background and every item into the given device context.
    PrintClient,
    /// Paint the background.
    EraseBackground,
    /// Paint what needs painting.
    Paint,
    /// Hand the key to the accelerator table of the menu.
    TranslateKey,
    /// Select the item of this uuid, chosen by an accelerator.
    Accelerator(u16),
    /// Move the selection after the pointer.
    MouseMove,
    /// Pass the button press on to the window under the pointer.
    MouseDown,
    /// Select the item under the pointer.
    MouseUp,
    /// Follow a change of the system's color setting, then let the system
    /// handle the message.
    SystemThemeChange,
    /// Let the system handle the message.
    Default,
    /// Nothing to do.
    Ignore,
}

/// The action of a menu window on message `msg` with parameter `wparam`;
/// `visible` tells whether the window is shown, `color_setting` whether a
/// setting change is one of the color setting.
pub open spec fn spec_window_action(msg: u32, wparam: u32, visible: bool, color_setting: bool) -> WindowAction {
    if msg == WM_INACTIVATE {
        if visible {
            WindowAction::Cancel
        } else {
            WindowAction::Ignore
        }
    } else if msg == WM_DESTROY {
        WindowAction::Destroy
    } else if msg == WM_PRINTCLIENT {
        WindowAction::PrintClient
    } else if msg == WM_ERASEBKGND {
        WindowAction::EraseBackground
    } else if msg == WM_PAINT {
        WindowAction::Paint
    } else if msg == WM_KEYDOWN {
        let vk = (wparam % 0x10000) as u16;
        if vk == VK_ESCAPE || vk == VK_LWIN || vk == VK_RWIN {
            WindowAction::Cancel
        } else {
            WindowAction::TranslateKey
        }
    } else if msg == WM_COMMAND || msg == WM_SYSCOMMAND {
        if wparam / 0x10000 == 1 {
            WindowAction::Accelerator((wparam % 0x10000) as u16)
        } else {
            WindowAction::Ignore
        }
    } else if msg == WM_MOUSEMOVE {
        WindowAction::MouseMove
    } else if msg == WM_LBUTTONDOWN || msg == WM_RBUTTONDOWN {
        WindowAction::MouseDown
    } else if msg == WM_LBUTTONUP || msg == WM_RBUTTONUP {
        WindowAction::MouseUp
    } else if msg == WM_MOUSEWHEEL {
        WindowAction::Cancel
    } else if msg == WM_SETTINGCHANGE {
        if color_setting {
            WindowAction::SystemThemeChange
        } else {
            WindowAction::Default
        }
    } else {
        WindowAction::Default
    }
}

/// The action of a menu window on message `msg` with parameter `wparam`
/// (see `spec_window_action`).
pub fn window_action(msg: u32, wparam: u32, visible: bool, color_setting: bool) -> (a: WindowAction)
    ensures
        a == spec_window_action(msg, wparam, visible, color_setting),
{
    if msg == WM_INACTIVATE {
        if visible {
            WindowAction::Cancel
        } else {
            WindowAction::Ignore
        }
    } else if msg == WM_DESTROY {
        WindowAction::Destroy
    } else if msg == WM_PRINTCLIENT {
        WindowAction::PrintClient
    } else if msg == WM_ERASEBKGND {
        WindowAction::EraseBackground
    } else if msg == WM_PAINT {
        WindowAction::Paint
    } else if msg == WM_KEYDOWN {
        let vk = (wparam % 0x10000) as u16;
        if should_close_menu(vk) {
            WindowAction::Cancel
        } else {
            WindowAction::TranslateKey
        }
    } else if msg == WM_COMMAND || msg == WM_SYSCOMMAND {
        match accelerator_command(wparam) {
            Some(uuid) => WindowAction::Accelerator(uuid),
            None => WindowAction::Ignore,
        }
    } else if msg == WM_MOUSEMOVE {
        WindowAction::MouseMove
    } else if msg == WM_LBUTTONDOWN || msg == WM_RBUTTONDOWN {
        WindowAction::MouseDown
    } else if msg == WM_LBUTTONUP || msg == WM_RBUTTONUP {
        WindowAction::MouseUp
    } else if msg == WM_MOUSEWHEEL {
        WindowAction::Cancel
    } else if msg == WM_SETTINGCHANGE {
        if color_setting {
            WindowAction::SystemThemeChange
        } else {
            WindowAction::Default
        }
    } else {
        WindowAction::Default
    }
}

} // verus!
