use zoom_sync::board::{BoardError, Capabilities, FailureReason};
use zoom_sync::tray::commands::{ConnectionStatus, Settings, TrayCommand, TrayState};
use zoom_sync::tray::daemon::{Action, Event, Machine, Operation};
use zoom_sync::tray::queue::CommandQueue;
use zoom_sync::tray::scheduler::Scheduler;
use zoom_sync::zoom65v3::board::Zoom65v3;
use zoom_sync::tiga::dyna::ZoomTklDyna;
use zoom_sync::features::Board;

fn settings() -> Settings {
    Settings {
        fahrenheit: false,
        use_12hr_time: false,
        initial_screen: "meletrix",
        weather_enabled: true,
        system_info_enabled: true,
        system_ms: 10_000,
        weather_ms: 3_600_000,
        retry_ms: 5_000,
    }
}

fn zoom65_caps() -> Capabilities {
    Zoom65v3.info().capabilities
}

fn connected(settings: Settings, caps: Capabilities) -> Machine {
    let machine = Machine::start(settings);
    let (machine, _) = machine.handle(Event::RetryElapsed);
    let (machine, _) = machine.handle(Event::Opened(caps));
    machine
}

fn drain(scheduler: &mut Scheduler) -> Vec<Action> {
    let mut done = Vec::new();
    while let Some(action) = scheduler.next_action() {
        let runs = matches!(
            action,
            Action::Run(_) | Action::UploadImage(_) | Action::UploadGif(_)
        );
        done.push(action);
        if runs {
            scheduler.completed(Ok(()));
        }
    }
    done
}

#[test]
fn starts_disconnected_and_opens_the_board() {
    let machine = Machine::start(settings());
    assert_eq!(machine.state.connection, ConnectionStatus::Disconnected);
    assert_eq!(machine.state.current_screen, None);
    assert_eq!(machine.capabilities, Capabilities::none());
    assert!(!machine.is_connected());
    let mut scheduler = Scheduler::new(settings());
    assert_eq!(scheduler.next_action(), Some(Action::Open));
    assert_eq!(scheduler.next_action(), None);
    assert_eq!(scheduler.snapshot().connection, ConnectionStatus::Disconnected);
}

#[test]
fn on_connect_screen_time_and_timers() {
    let machine = Machine::start(settings());
    let (machine, actions) = machine.handle(Event::Opened(zoom65_caps()));
    assert!(machine.is_connected());
    assert_eq!(machine.capabilities, zoom65_caps());
    assert_eq!(
        actions,
        vec![
            Action::Publish(machine.state),
            Action::Run(Operation::RestoreScreen("meletrix")),
            Action::Run(Operation::SyncTime { use_12hr: false }),
            Action::StartTimers { weather_ms: 3_600_000, system_ms: 10_000, hourly: false },
        ]
    );
    assert_eq!(machine.state.connection, ConnectionStatus::Connected);
    // the screen is the current one once it has been set
    let (machine, actions) = machine.handle(Event::Finished(Operation::RestoreScreen("meletrix")));
    assert_eq!(machine.state.current_screen, Some("meletrix"));
    assert_eq!(actions, vec![Action::Publish(machine.state)]);
}

#[test]
fn on_connect_without_screen_control_and_in_12_hour_mode() {
    let mut config = settings();
    config.use_12hr_time = true;
    let machine = Machine::start(config);
    let (machine, actions) = machine.handle(Event::Opened(ZoomTklDyna.info().capabilities));
    assert_eq!(
        actions,
        vec![
            Action::Publish(machine.state),
            Action::Run(Operation::SyncTime { use_12hr: true }),
            Action::StartTimers { weather_ms: 3_600_000, system_ms: 10_000, hourly: true },
        ]
    );
    let (_, actions) = machine.handle(Event::HourTurned);
    assert_eq!(actions, vec![Action::Run(Operation::SyncTime { use_12hr: true })]);
}

#[test]
fn reconnects_in_order_after_a_transport_error() {
    let machine = connected(settings(), zoom65_caps());
    let error = BoardError::Transport(String::from("unplugged"));
    let (machine, actions) =
        machine.handle(Event::Failed(Operation::SyncTime { use_12hr: false }, error));
    assert_eq!(machine.state.connection, ConnectionStatus::Reconnecting);
    assert_eq!(machine.capabilities, Capabilities::none());
    assert_eq!(
        actions,
        vec![Action::Close, Action::Publish(machine.state), Action::RetryAfter(5_000)]
    );
    // nothing reopens the board before the retry interval is over
    let (waiting, actions) = machine.handle(Event::WeatherDue);
    assert_eq!(waiting, machine);
    assert_eq!(actions, vec![]);
    let (waiting, actions) = machine.handle(Event::Command(TrayCommand::ScreenUp));
    assert_eq!(waiting, machine);
    assert_eq!(actions, vec![]);
    let (waiting, actions) = machine.handle(Event::Opened(zoom65_caps()));
    assert_eq!(waiting, machine);
    assert_eq!(actions, vec![]);
    // the retry timer leads to disconnected and a new attempt
    let (machine, actions) = machine.handle(Event::RetryElapsed);
    assert_eq!(machine.state.connection, ConnectionStatus::Disconnected);
    assert_eq!(actions, vec![Action::Publish(machine.state), Action::Open]);
    // which may fail and is then tried again after the interval
    let (machine, actions) = machine.handle(Event::OpenFailed);
    assert_eq!(machine.state.connection, ConnectionStatus::Disconnected);
    assert_eq!(actions, vec![Action::RetryAfter(5_000)]);
    let (machine, actions) = machine.handle(Event::RetryElapsed);
    assert_eq!(actions, vec![Action::Open]);
    let (machine, _) = machine.handle(Event::Opened(zoom65_caps()));
    assert_eq!(machine.state.connection, ConnectionStatus::Connected);
}

#[test]
fn failed_acknowledgement_is_fatal_but_local_errors_are_not() {
    let machine = connected(settings(), zoom65_caps());
    let rejected = BoardError::CommandFailed(FailureReason::Rejected);
    let (lost, _) = machine.handle(Event::Failed(Operation::ScreenUp, rejected));
    assert_eq!(lost.state.connection, ConnectionStatus::Reconnecting);
    for error in [
        BoardError::CommandFailed(FailureReason::UnknownWeatherCode),
        BoardError::InvalidScreenPosition(String::from("nowhere")),
        BoardError::MediaTooLarge("gif exceeds device limit"),
        BoardError::InvalidMedia("not an image"),
    ] {
        let op = Operation::UpdateWeather { fahrenheit: false };
        let (same, actions) = machine.handle(Event::Failed(op, error.clone()));
        assert_eq!(same, machine);
        assert_eq!(actions, vec![Action::Report(error)]);
    }
}

#[test]
fn three_set_screen_commands_collapse_to_the_last() {
    let mut scheduler = Scheduler::new(settings());
    assert_eq!(scheduler.next_action(), Some(Action::Open));
    scheduler.notify(Event::Opened(zoom65_caps()));
    drain(&mut scheduler);
    scheduler.submit(TrayCommand::SetScreen("cpu"));
    scheduler.submit(TrayCommand::SetScreen("gpu"));
    scheduler.submit(TrayCommand::SetScreen("weather"));
    let done = drain(&mut scheduler);
    let applied: Vec<&Action> =
        done.iter().filter(|a| matches!(a, Action::Run(Operation::SetScreen(_)))).collect();
    assert_eq!(applied, vec![&Action::Run(Operation::SetScreen("weather"))]);
    assert_eq!(scheduler.snapshot().current_screen, Some("weather"));
    assert_eq!(scheduler.snapshot().config.initial_screen, "weather");
}

#[test]
fn queue_keeps_the_latest_of_each_kind() {
    let mut queue = CommandQueue::new();
    assert!(queue.is_empty());
    queue.push(TrayCommand::SetScreen("cpu"));
    queue.push(TrayCommand::ClearImage);
    queue.push(TrayCommand::UploadImage(vec![1]));
    queue.push(TrayCommand::SetScreen("gif"));
    queue.push(TrayCommand::UploadImage(vec![2]));
    queue.push(TrayCommand::ClearImage);
    queue.push(TrayCommand::ScreenUp);
    queue.push(TrayCommand::ScreenUp);
    assert_eq!(queue.len(), 4);
    assert_eq!(queue.pop(), Some(TrayCommand::SetScreen("gif")));
    assert_eq!(queue.pop(), Some(TrayCommand::UploadImage(vec![2])));
    assert_eq!(queue.pop(), Some(TrayCommand::ClearImage));
    assert_eq!(queue.pop(), Some(TrayCommand::ScreenUp));
    assert_eq!(queue.pop(), None);
    assert!(queue.is_empty());
}

#[test]
fn commands_of_different_kinds_leave_in_order() {
    let mut queue = CommandQueue::new();
    queue.push(TrayCommand::ToggleWeather);
    queue.push(TrayCommand::ClearGif);
    queue.push(TrayCommand::Quit);
    assert_eq!(queue.pop(), Some(TrayCommand::ToggleWeather));
    assert_eq!(queue.pop(), Some(TrayCommand::ClearGif));
    assert_eq!(queue.pop(), Some(TrayCommand::Quit));
}

#[test]
fn one_operation_at_a_time() {
    let mut scheduler = Scheduler::new(settings());
    assert_eq!(scheduler.next_action(), Some(Action::Open));
    scheduler.notify(Event::Opened(zoom65_caps()));
    assert!(matches!(scheduler.next_action(), Some(Action::Publish(_))));
    assert!(!scheduler.is_busy());
    assert_eq!(
        scheduler.next_action(),
        Some(Action::Run(Operation::RestoreScreen("meletrix")))
    );
    assert!(scheduler.is_busy());
    // while the screen is being set nothing else is handed out
    scheduler.submit(TrayCommand::ScreenUp);
    assert_eq!(scheduler.next_action(), None);
    assert_eq!(scheduler.next_action(), None);
    scheduler.completed(Ok(()));
    assert!(!scheduler.is_busy());
    // what waited goes first, what the result called for behind it
    assert_eq!(
        scheduler.next_action(),
        Some(Action::Run(Operation::SyncTime { use_12hr: false }))
    );
    scheduler.completed(Ok(()));
    assert!(matches!(scheduler.next_action(), Some(Action::StartTimers { .. })));
    assert!(matches!(scheduler.next_action(), Some(Action::Publish(_))));
    assert_eq!(scheduler.snapshot().current_screen, Some("meletrix"));
    // and only then the command that came in meanwhile
    assert_eq!(scheduler.next_action(), Some(Action::Run(Operation::ScreenUp)));
    assert_eq!(scheduler.next_action(), None);
    scheduler.completed(Ok(()));
    assert_eq!(scheduler.next_action(), None);
}

#[test]
fn fatal_error_drops_what_waited() {
    let mut scheduler = Scheduler::new(settings());
    assert_eq!(scheduler.next_action(), Some(Action::Open));
    scheduler.notify(Event::Opened(zoom65_caps()));
    assert!(matches!(scheduler.next_action(), Some(Action::Publish(_))));
    assert!(matches!(scheduler.next_action(), Some(Action::Run(Operation::RestoreScreen(_)))));
    scheduler.completed(Err(BoardError::Transport(String::from("unplugged"))));
    assert_eq!(scheduler.snapshot().connection, ConnectionStatus::Reconnecting);
    // the time sync and the timers that waited are gone
    assert_eq!(scheduler.next_action(), Some(Action::Close));
    assert!(matches!(scheduler.next_action(), Some(Action::Publish(_))));
    assert_eq!(scheduler.next_action(), Some(Action::RetryAfter(5_000)));
    assert_eq!(scheduler.next_action(), None);
    scheduler.notify(Event::RetryElapsed);
    assert!(matches!(scheduler.next_action(), Some(Action::Publish(_))));
    assert_eq!(scheduler.next_action(), Some(Action::Open));
}

#[test]
fn commands_need_the_board_and_the_capability() {
    let offline = Machine::start(settings());
    for command in [
        TrayCommand::SetScreen("cpu"),
        TrayCommand::ScreenUp,
        TrayCommand::SetTime,
        TrayCommand::SetWeather,
        TrayCommand::UploadImage(vec![1, 2, 3]),
        TrayCommand::ClearAllMedia,
    ] {
        let (same, actions) = offline.handle(Event::Command(command));
        assert_eq!(same, offline);
        assert_eq!(actions, vec![]);
    }
    let dyna = connected(settings(), ZoomTklDyna.info().capabilities);
    let (_, actions) = dyna.handle(Event::Command(TrayCommand::SetScreen("cpu")));
    assert_eq!(actions, vec![]);
    let (_, actions) = dyna.handle(Event::Command(TrayCommand::SetSystemInfo));
    assert_eq!(actions, vec![]);
    let (_, actions) = dyna.handle(Event::SystemInfoDue);
    assert_eq!(actions, vec![]);
    let (_, actions) = dyna.handle(Event::Command(TrayCommand::UploadGif(vec![9, 9])));
    assert_eq!(actions, vec![Action::UploadGif(vec![9, 9])]);
    let (_, actions) = dyna.handle(Event::Command(TrayCommand::ClearAllMedia));
    assert_eq!(
        actions,
        vec![Action::Run(Operation::ClearImage), Action::Run(Operation::ClearGif)]
    );
    let zoom65 = connected(settings(), zoom65_caps());
    let (_, actions) = zoom65.handle(Event::Command(TrayCommand::SetScreen("cpu")));
    assert_eq!(actions, vec![Action::Run(Operation::SetScreen("cpu"))]);
    let (_, actions) = zoom65.handle(Event::Command(TrayCommand::SetTime));
    assert_eq!(actions, vec![Action::Run(Operation::SyncTime { use_12hr: false })]);
    let (_, actions) = zoom65.handle(Event::Command(TrayCommand::ScreenSwitch));
    assert_eq!(actions, vec![Action::Run(Operation::ScreenSwitch)]);
}

#[test]
fn toggles_change_the_settings_at_once() {
    let machine = connected(settings(), zoom65_caps());
    let (next, actions) = machine.handle(Event::Command(TrayCommand::ToggleWeather));
    assert!(!next.state.config.weather_enabled);
    assert_eq!(
        actions,
        vec![Action::SaveSettings(next.state.config), Action::Publish(next.state)]
    );
    let (_, actions) = next.handle(Event::WeatherDue);
    assert_eq!(actions, vec![]);
    let (next, actions) = machine.handle(Event::Command(TrayCommand::Toggle12HrTime));
    assert!(next.state.config.use_12hr_time);
    assert_eq!(
        actions,
        vec![
            Action::Run(Operation::SyncTime { use_12hr: true }),
            Action::SaveSettings(next.state.config),
            Action::Publish(next.state)
        ]
    );
    let (next, actions) = machine.handle(Event::Command(TrayCommand::ToggleFahrenheit));
    assert!(next.state.config.fahrenheit);
    assert_eq!(
        actions,
        vec![
            Action::SaveSettings(next.state.config),
            Action::Publish(next.state),
            Action::Run(Operation::UpdateWeather { fahrenheit: true }),
            Action::Run(Operation::UpdateSystemInfo { fahrenheit: true }),
        ]
    );
    let (next, _) = machine.handle(Event::Command(TrayCommand::ToggleSystemInfo));
    assert!(!next.state.config.system_info_enabled);
    let (_, actions) = next.handle(Event::SystemInfoDue);
    assert_eq!(actions, vec![]);
}

#[test]
fn periodic_updates() {
    let machine = connected(settings(), zoom65_caps());
    let (_, actions) = machine.handle(Event::WeatherDue);
    assert_eq!(actions, vec![Action::Run(Operation::UpdateWeather { fahrenheit: false })]);
    let (_, actions) = machine.handle(Event::SystemInfoDue);
    assert_eq!(actions, vec![Action::Run(Operation::UpdateSystemInfo { fahrenheit: false })]);
    // the hourly sync is for 12-hour mode only
    let (_, actions) = machine.handle(Event::HourTurned);
    assert_eq!(actions, vec![]);
}

#[test]
fn quit_is_final() {
    let machine = connected(settings(), zoom65_caps());
    let (machine, actions) = machine.handle(Event::Command(TrayCommand::Quit));
    assert!(machine.quitting);
    assert_eq!(actions, vec![Action::Exit]);
    for event in [
        Event::RetryElapsed,
        Event::WeatherDue,
        Event::Command(TrayCommand::ScreenUp),
        Event::Failed(Operation::ScreenUp, BoardError::Transport(String::new())),
    ] {
        let (same, actions) = machine.handle(event);
        assert_eq!(same, machine);
        assert_eq!(actions, vec![]);
    }
    let mut scheduler = Scheduler::new(settings());
    scheduler.submit(TrayCommand::Quit);
    assert_eq!(scheduler.next_action(), Some(Action::Open));
    assert_eq!(scheduler.next_action(), Some(Action::Exit));
    assert!(scheduler.is_quitting());
}

#[test]
fn reactive_mode() {
    let mut config = settings();
    config.initial_screen = "reactive";
    let machine = Machine::start(config);
    let (machine, actions) = machine.handle(Event::Opened(zoom65_caps()));
    assert!(machine.state.reactive_active);
    assert_eq!(
        &actions[1..3],
        &[Action::Run(Operation::ShowScreen("image")), Action::Watch(true)]
    );
    let (idle, actions) = machine.handle(Event::KeysIdle);
    assert_eq!(idle, machine);
    assert_eq!(actions, vec![]);
    let (typing, actions) = machine.handle(Event::KeyPressed);
    assert!(typing.typing);
    assert_eq!(actions, vec![Action::Run(Operation::ScreenSwitch)]);
    let (still, actions) = typing.handle(Event::KeyPressed);
    assert_eq!(still, typing);
    assert_eq!(actions, vec![]);
    let (resting, actions) = typing.handle(Event::KeysIdle);
    assert!(!resting.typing);
    assert_eq!(
        actions,
        vec![
            Action::Run(Operation::ResetScreen),
            Action::Run(Operation::ScreenSwitch),
            Action::Run(Operation::ScreenSwitch)
        ]
    );
    // leaving reactive mode makes the logo the default again
    let (left, actions) = resting.handle(Event::Command(TrayCommand::SetScreen("reactive")));
    assert!(!left.state.reactive_active);
    assert_eq!(left.state.config.initial_screen, "meletrix");
    assert_eq!(
        actions,
        vec![
            Action::Watch(false),
            Action::SaveSettings(left.state.config),
            Action::Publish(left.state)
        ]
    );
    let (entered, actions) = left.handle(Event::Command(TrayCommand::SetScreen("reactive")));
    assert!(entered.state.reactive_active);
    assert_eq!(entered.state.config.initial_screen, "reactive");
    assert_eq!(actions[0], Action::Run(Operation::ShowScreen("image")));
    let (lost, actions) = entered.handle(Event::InputLost);
    assert_eq!(lost.state.connection, ConnectionStatus::Reconnecting);
    assert_eq!(actions[0], Action::Close);
}

#[test]
fn reactive_mode_without_a_keyboard_to_watch() {
    let mut config = settings();
    config.initial_screen = "reactive";
    let machine = connected(config, zoom65_caps());
    assert!(machine.state.reactive_active);
    let (next, actions) = machine.handle(Event::WatchUnavailable);
    assert!(!next.state.reactive_active);
    assert_eq!(next.state.connection, ConnectionStatus::Connected);
    assert_eq!(actions, vec![Action::Publish(next.state)]);
    let (same, actions) = next.handle(Event::WatchUnavailable);
    assert_eq!(same, next);
    assert_eq!(actions, vec![]);
    // without screen control there is no reactive mode
    let dyna = connected(config, ZoomTklDyna.info().capabilities);
    assert!(!dyna.state.reactive_active);
}

#[test]
fn reloaded_config_replaces_the_settings() {
    let machine = connected(settings(), zoom65_caps());
    let (_, actions) = machine.handle(Event::Command(TrayCommand::ReloadConfig));
    assert_eq!(actions, vec![Action::ReloadConfig]);
    let mut fresh = settings();
    fresh.retry_ms = 1;
    fresh.fahrenheit = true;
    let (next, actions) = machine.handle(Event::ConfigReloaded(fresh));
    assert_eq!(next.state.config, fresh);
    assert_eq!(
        actions,
        vec![Action::Publish(TrayState { config: fresh, ..machine.state })]
    );
}
