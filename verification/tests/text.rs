use zoom_sync::text::{str_eq, strip_prefix};
use zoom_sync::tray::commands::{CommandKind, ConnectionStatus, TrayCommand};
use zoom_sync::tray::ids;
use zoom_sync::tray::menu::{handle_menu_event, layout, layout_for, screen_for, MenuAction};
use zoom_sync::tiga::dyna::ZoomTklDyna;
use zoom_sync::zoom65v3::board::Zoom65v3;

#[test]
fn texts_are_compared_by_their_characters() {
    assert!(str_eq("", ""));
    assert!(str_eq("cpu", "cpu"));
    assert!(!str_eq("cpu", "gpu"));
    assert!(!str_eq("cpu", "cp"));
    assert!(!str_eq("cpu", "CPU"));
    assert!(str_eq("héllo", "héllo"));
    assert!(!str_eq("héllo", "hello"));
}

#[test]
fn prefixes() {
    assert_eq!(strip_prefix("--board=zoom65v3", "--board="), Some("zoom65v3"));
    assert_eq!(strip_prefix("--board=", "--board="), Some(""));
    assert_eq!(strip_prefix("--board", "--board="), None);
    assert_eq!(strip_prefix("--boards=x", "--board="), None);
    assert_eq!(strip_prefix("anything", ""), Some("anything"));
    assert_eq!(strip_prefix("é=ü", "é="), Some("ü"));
}

#[test]
fn connection_status_labels() {
    assert_eq!(ConnectionStatus::Disconnected.as_str(), "Disconnected");
    assert_eq!(ConnectionStatus::Connected.as_str(), "Connected");
    assert_eq!(ConnectionStatus::Reconnecting.as_str(), "Reconnecting...");
    assert_eq!(ConnectionStatus::default(), ConnectionStatus::Disconnected);
}

#[test]
fn kinds_of_commands() {
    assert_eq!(TrayCommand::SetScreen("cpu").kind(), CommandKind::SetScreen);
    assert_eq!(TrayCommand::SetScreen("gif").kind(), CommandKind::SetScreen);
    assert_eq!(TrayCommand::UploadImage(vec![1]).kind(), CommandKind::UploadImage);
    assert_eq!(TrayCommand::UploadGif(vec![]).kind(), CommandKind::UploadGif);
    assert_eq!(TrayCommand::Quit.kind(), CommandKind::Quit);
    assert_eq!(TrayCommand::ScreenUp.kind(), CommandKind::ScreenUp);
    assert_ne!(TrayCommand::ClearImage.kind(), TrayCommand::ClearGif.kind());
}

#[test]
fn menu_clicks() {
    let screens = [
        (ids::SCREEN_CPU, "cpu"),
        (ids::SCREEN_GPU, "gpu"),
        (ids::SCREEN_DOWNLOAD, "download"),
        (ids::SCREEN_TIME, "time"),
        (ids::SCREEN_WEATHER, "weather"),
        (ids::SCREEN_MELETRIX, "meletrix"),
        (ids::SCREEN_ZOOM65, "zoom65"),
        (ids::SCREEN_IMAGE, "image"),
        (ids::SCREEN_GIF, "gif"),
        (ids::SCREEN_BATTERY, "battery"),
    ];
    for (id, screen) in screens {
        assert_eq!(screen_for(id), Some(screen));
        assert_eq!(handle_menu_event(id), MenuAction::Command(TrayCommand::SetScreen(screen)));
    }
    assert_eq!(screen_for(ids::QUIT), None);
    assert_eq!(handle_menu_event(ids::NAV_UP), MenuAction::Command(TrayCommand::ScreenUp));
    assert_eq!(handle_menu_event(ids::NAV_DOWN), MenuAction::Command(TrayCommand::ScreenDown));
    assert_eq!(handle_menu_event(ids::NAV_SWITCH), MenuAction::Command(TrayCommand::ScreenSwitch));
    assert_eq!(
        handle_menu_event(ids::TOGGLE_WEATHER),
        MenuAction::Command(TrayCommand::ToggleWeather)
    );
    assert_eq!(
        handle_menu_event(ids::TOGGLE_SYSTEM),
        MenuAction::Command(TrayCommand::ToggleSystemInfo)
    );
    assert_eq!(
        handle_menu_event(ids::TOGGLE_12HR),
        MenuAction::Command(TrayCommand::Toggle12HrTime)
    );
    assert_eq!(
        handle_menu_event(ids::TOGGLE_FAHRENHEIT),
        MenuAction::Command(TrayCommand::ToggleFahrenheit)
    );
    assert_eq!(
        handle_menu_event(ids::TOGGLE_REACTIVE),
        MenuAction::Command(TrayCommand::SetScreen("reactive"))
    );
    assert_eq!(handle_menu_event(ids::UPLOAD_IMAGE), MenuAction::PickImage);
    assert_eq!(handle_menu_event(ids::UPLOAD_GIF), MenuAction::PickGif);
    assert_eq!(handle_menu_event(ids::CLEAR_IMAGE), MenuAction::Command(TrayCommand::ClearImage));
    assert_eq!(handle_menu_event(ids::CLEAR_GIF), MenuAction::Command(TrayCommand::ClearGif));
    assert_eq!(handle_menu_event(ids::CLEAR_ALL), MenuAction::Command(TrayCommand::ClearAllMedia));
    assert_eq!(handle_menu_event(ids::OPEN_CONFIG), MenuAction::OpenConfig);
    assert_eq!(
        handle_menu_event(ids::RELOAD_CONFIG),
        MenuAction::Command(TrayCommand::ReloadConfig)
    );
    assert_eq!(handle_menu_event(ids::QUIT), MenuAction::Command(TrayCommand::Quit));
    assert_eq!(handle_menu_event(ids::STATUS), MenuAction::Ignore);
    assert_eq!(handle_menu_event("something else"), MenuAction::Ignore);
}

#[test]
fn menu_follows_the_board() {
    let none = layout(None);
    assert_eq!(none.status, "Disconnected");
    assert!(!none.screen_menus);
    assert!(!none.media_menu);
    assert_eq!(none.media_position, 2);
    let zoom65 = layout(Some(&Zoom65v3));
    assert_eq!(zoom65.status, "Zoom65 V3 Connected");
    assert!(zoom65.screen_menus);
    assert!(zoom65.media_menu);
    assert_eq!(zoom65.media_position, 4);
    let dyna = layout(Some(&ZoomTklDyna));
    assert_eq!(dyna.status, "Zoom TKL Dyna Connected");
    assert!(!dyna.screen_menus);
    assert!(dyna.media_menu);
    assert_eq!(dyna.media_position, 2);
    assert_eq!(layout_for(Some(&ZoomTklDyna)), dyna);
    assert_eq!(layout_for(Some(&Zoom65v3)), zoom65);
    assert_eq!(layout_for::<Zoom65v3>(None), none);
}
