//! What a click in the tray menu means, and how the menu follows the board.
//! Building the menu itself is the caller's part.

use crate::features::Board;
use crate::text::str_eq;
use crate::tray::commands::TrayCommand;
use crate::tray::daemon::REACTIVE;
use crate::tray::ids;
use vstd::prelude::*;
use vstd::string::StringExecFns;

verus! {

/// Result of handling a menu event
#[derive(Debug, Clone, PartialEq, Eq)]
pub enum MenuAction {
    /// Send a command to the daemon
    Command(TrayCommand),
    /// Open the file picker for an image
    PickImage,
    /// Open the file picker for an animation
    PickGif,
    /// Open the config file in the user's editor
    OpenConfig,
    /// Nothing to do
    Ignore,
}

/// The screen position that a menu item stands for.
pub open spec fn screen_of(id: Seq<char>) -> Option<&'static str> {
    if id == ids::SCREEN_CPU@ {
        Some("cpu")
    } else if id == ids::SCREEN_GPU@ {
        Some("gpu")
    } else if id == ids::SCREEN_DOWNLOAD@ {
        Some("download")
    } else if id == ids::SCREEN_TIME@ {
        Some("time")
    } else if id == ids::SCREEN_WEATHER@ {
        Some("weather")
    } else if id == ids::SCREEN_MELETRIX@ {
        Some("meletrix")
    } else if id == ids::SCREEN_ZOOM65@ {
        Some("zoom65")
    } else if id == ids::SCREEN_IMAGE@ {
        Some("image")
    } else if id == ids::SCREEN_GIF@ {
        Some("gif")
    } else if id == ids::SCREEN_BATTERY@ {
        Some("battery")
    } else {
        None
    }
}

/// What the click on a menu item means.
pub open spec fn meaning(id: Seq<char>) -> MenuAction {
    if screen_of(id) is Some {
        MenuAction::Command(TrayCommand::SetScreen(screen_of(id)->0))
    } else if id == ids::NAV_UP@ {
        MenuAction::Command(TrayCommand::ScreenUp)
    } else if id == ids::NAV_DOWN@ {
        MenuAction::Command(TrayCommand::ScreenDown)
    } else if id == ids::NAV_SWITCH@ {
        MenuAction::Command(TrayCommand::ScreenSwitch)
    } else if id == ids::TOGGLE_WEATHER@ {
        MenuAction::Command(TrayCommand::ToggleWeather)
    } else if id == ids::TOGGLE_SYSTEM@ {
        MenuAction::Command(TrayCommand::ToggleSystemInfo)
    } else if id == ids::TOGGLE_12HR@ {
        MenuAction::Command(TrayCommand::Toggle12HrTime)
    } else if id == ids::TOGGLE_FAHRENHEIT@ {
        MenuAction::Command(TrayCommand::ToggleFahrenheit)
    } else if id == ids::TOGGLE_REACTIVE@ {
        MenuAction::Command(TrayCommand::SetScreen(REACTIVE))
    } else if id == ids::UPLOAD_IMAGE@ {
        MenuAction::PickImage
    } else if id == ids::UPLOAD_GIF@ {
        MenuAction::PickGif
    } else if id == ids::CLEAR_IMAGE@ {
        MenuAction::Command(TrayCommand::ClearImage)
    } else if id == ids::CLEAR_GIF@ {
        MenuAction::Command(TrayCommand::ClearGif)
    } else if id == ids::CLEAR_ALL@ {
        MenuAction::Command(TrayCommand::ClearAllMedia)
    } else if id == ids::OPEN_CONFIG@ {
        MenuAction::OpenConfig
    } else if id == ids::RELOAD_CONFIG@ {
        MenuAction::Command(TrayCommand::ReloadConfig)
    } else if id == ids::QUIT@ {
        MenuAction::Command(TrayCommand::Quit)
    } else {
        MenuAction::Ignore
    }
}

/// Look up the screen position that a menu item stands for.
pub fn screen_for(id: &str) -> (screen: Option<&'static str>)
    ensures
        screen == screen_of(id@),
{
    if str_eq(id, ids::SCREEN_CPU) {
        Some("cpu")
    } else if str_eq(id, ids::SCREEN_GPU) {
        Some("gpu")
    } else if str_eq(id, ids::SCREEN_DOWNLOAD) {
        Some("download")
    } else if str_eq(id, ids::SCREEN_TIME) {
        Some("time")
    } else if str_eq(id, ids::SCREEN_WEATHER) {
        Some("weather")
    } else if str_eq(id, ids::SCREEN_MELETRIX) {
        Some("meletrix")
    } else if str_eq(id, ids::SCREEN_ZOOM65) {
        Some("zoom65")
    } else if str_eq(id, ids::SCREEN_IMAGE) {
        Some("image")
    } else if str_eq(id, ids::SCREEN_GIF) {
        Some("gif")
    } else if str_eq(id, ids::SCREEN_BATTERY) {
        Some("battery")
    } else {
        None
    }
}

/// Handle a menu event, given as the ID of the item that was clicked, and
/// return the action to take
pub fn handle_menu_event(id: &str) -> (action: MenuAction)
    ensures
        action == meaning(id@),
{
    match screen_for(id) {
        Some(screen) => MenuAction::Command(TrayCommand::SetScreen(screen)),
        None => {
            if str_eq(id, ids::NAV_UP) {
                MenuAction::Command(TrayCommand::ScreenUp)
            } else if str_eq(id, ids::NAV_DOWN) {
                MenuAction::Command(TrayCommand::ScreenDown)
            } else if str_eq(id, ids::NAV_SWITCH) {
                MenuAction::Command(TrayCommand::ScreenSwitch)
            } else if str_eq(id, ids::TOGGLE_WEATHER) {
                MenuAction::Command(TrayCommand::ToggleWeather)
            } else if str_eq(id, ids::TOGGLE_SYSTEM) {
                MenuAction::Command(TrayCommand::ToggleSystemInfo)
            } else if str_eq(id, ids::TOGGLE_12HR) {
                MenuAction::Command(TrayCommand::Toggle12HrTime)
            } else if str_eq(id, ids::TOGGLE_FAHRENHEIT) {
                MenuAction::Command(TrayCommand::ToggleFahrenheit)
            } else if str_eq(id, ids::TOGGLE_REACTIVE) {
                MenuAction::Command(TrayCommand::SetScreen(REACTIVE))
            } else if str_eq(id, ids::UPLOAD_IMAGE) {
                MenuAction::PickImage
            } else if str_eq(id, ids::UPLOAD_GIF) {
                MenuAction::PickGif
            } else if str_eq(id, ids::CLEAR_IMAGE) {
                MenuAction::Command(TrayCommand::ClearImage)
            } else if str_eq(id, ids::CLEAR_GIF) {
                MenuAction::Command(TrayCommand::ClearGif)
            } else if str_eq(id, ids::CLEAR_ALL) {
                MenuAction::Command(TrayCommand::ClearAllMedia)
            } else if str_eq(id, ids::OPEN_CONFIG) {
                MenuAction::OpenConfig
            } else if str_eq(id, ids::RELOAD_CONFIG) {
                MenuAction::Command(TrayCommand::ReloadConfig)
            } else if str_eq(id, ids::QUIT) {
                MenuAction::Command(TrayCommand::Quit)
            } else {
                MenuAction::Ignore
            }
        },
    }
}

/// Place of the first submenu behind the status line and its separator.
pub const FIRST_SUBMENU: usize = 2;

/// How the menu has to look for a board, or for none.
#[derive(Debug, Clone, PartialEq, Eq)]
pub struct MenuLayout {
    /// Text of the status line
    pub status: String,
    /// Whether the screen and navigation submenus are shown
    pub screen_menus: bool,
    /// Whether the media submenu is shown
    pub media_menu: bool,
    /// Place of the media submenu: behind the screen submenus where they
    /// are shown
    pub media_position: usize,
}

/// Work out how the menu has to look: the status line names the connected
/// board, the screen submenus are shown for a board with screen control, and
/// the media submenu for a board that takes images or animations. The board
/// may be of any type, a trait object too.
pub fn layout_for<B: Board + ?Sized>(board: Option<&B>) -> (menu: MenuLayout)
    ensures
        match board {
            Some(b) => {
                &&& menu.status@ == b.descriptor().name@ + " Connected"@
                &&& menu.screen_menus == b.descriptor().capabilities.screen
                &&& menu.media_menu == (b.descriptor().capabilities.image
                    || b.descriptor().capabilities.gif)
            },
            None => {
                &&& menu.status@ == "Disconnected"@
                &&& !menu.screen_menus
                &&& !menu.media_menu
            },
        },
        menu.media_position == if menu.screen_menus {
            FIRST_SUBMENU + 2
        } else {
            FIRST_SUBMENU as int
        },
{
    let (status, screen_menus, media_menu) = match board {
        Some(b) => {
            let info = b.info();
            (
                String::from_str(info.name).concat(" Connected"),
                info.capabilities.screen,
                info.capabilities.image || info.capabilities.gif,
            )
        },
        None => (String::from_str("Disconnected"), false, false),
    };
    let media_position = if screen_menus {
        FIRST_SUBMENU + 2
    } else {
        FIRST_SUBMENU
    };
    MenuLayout { status, screen_menus, media_menu, media_position }
}

/// Work out how the menu has to look: the status line names the connected
/// board, the screen submenus are shown for a board with screen control, and
/// the media submenu for a board that takes images or animations. This is
/// `layout_for` for a board held as a trait object.
pub fn layout(board: Option<&dyn Board>) -> (menu: MenuLayout)
    ensures
        match board {
            Some(b) => {
                &&& menu.status@ == b.descriptor().name@ + " Connected"@
                &&& menu.screen_menus == b.descriptor().capabilities.screen
                &&& menu.media_menu == (b.descriptor().capabilities.image
                    || b.descriptor().capabilities.gif)
            },
            None => {
                &&& menu.status@ == "Disconnected"@
                &&& !menu.screen_menus
                &&& !menu.media_menu
            },
        },
        menu.media_position == if menu.screen_menus {
            FIRST_SUBMENU + 2
        } else {
            FIRST_SUBMENU as int
        },
{
    layout_for(board)
}

} // verus!
