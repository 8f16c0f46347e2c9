//! The daemon behind the tray, as a state machine.
//!
//! The caller owns the board, the timers and the command channel. It tells
//! the machine what happened, as an [`Event`], and carries out what the
//! machine answers, as [`Action`]s, in order. Board operations are reported
//! back as finished or failed before the next action is carried out, so that
//! never more than one is under way.
//!
//! `Disconnected --(open ok)--> Connected --(fatal error)--> Reconnecting
//! --(retry timer)--> Disconnected (retry open)`; only `Quit` ends the
//! machine.

use crate::board::{BoardError, Capabilities};
use crate::text::str_eq;
use crate::tray::commands::{ConnectionStatus, Settings, TrayCommand, TrayState};
use vstd::prelude::*;

verus! {

/// Name of the initial screen that stands for reactive mode.
pub const REACTIVE: &'static str = "reactive";

/// Screen that becomes the default again when reactive mode is left.
pub const DEFAULT_SCREEN: &'static str = "meletrix";

/// Screen that reactive mode rests on.
pub const RESTING_SCREEN: &'static str = "image";

/// What the caller does with the board. Each operation goes through the
/// capability of its name.
#[derive(Debug, Clone, Copy, PartialEq, Eq)]
pub enum Operation {
    /// Move to a screen; once done it is the current and the default screen.
    SetScreen(&'static str),
    /// Move to the default screen after connecting; once done it is the
    /// current screen.
    RestoreScreen(&'static str),
    /// Move to a screen that is not remembered.
    ShowScreen(&'static str),
    ScreenUp,
    ScreenDown,
    ScreenSwitch,
    ResetScreen,
    /// Set the keyboard's clock to the current time.
    SyncTime { use_12hr: bool },
    /// Fetch the weather and show it.
    UpdateWeather { fahrenheit: bool },
    /// Read the temperatures and the download rate and show them.
    UpdateSystemInfo { fahrenheit: bool },
    /// Upload the image that the action carries.
    UploadImage,
    /// Upload the animation that the action carries.
    UploadGif,
    ClearImage,
    ClearGif,
}

/// What the machine asks of its caller.
#[derive(Debug, Clone, PartialEq, Eq)]
pub enum Action {
    /// List the devices and open the board.
    Open,
    /// Drop the session.
    Close,
    /// Hand the snapshot to whoever shows it.
    Publish(TrayState),
    /// Carry out a board operation and report how it ended.
    Run(Operation),
    /// Upload an encoded image and report how it ended.
    UploadImage(Vec<u8>),
    /// Upload an encoded animation and report how it ended.
    UploadGif(Vec<u8>),
    /// Start the periodic timers anew; the hourly timer only where asked.
    StartTimers { weather_ms: u64, system_ms: u64, hourly: bool },
    /// Start or stop watching the keyboard's key presses.
    Watch(bool),
    /// Report `RetryElapsed` after so many milliseconds.
    RetryAfter(u64),
    /// Write the settings to the config file.
    SaveSettings(Settings),
    /// Read the config file and report `ConfigReloaded`.
    ReloadConfig,
    /// Tell the user of an error that changes nothing.
    Report(BoardError),
    /// Leave the loop.
    Exit,
}

/// What the caller tells the machine.
#[derive(Debug, Clone, PartialEq, Eq)]
pub enum Event {
    /// The retry interval is over.
    RetryElapsed,
    /// The board was opened; it has these capabilities.
    Opened(Capabilities),
    /// No board could be opened.
    OpenFailed,
    /// A command has come in.
    Command(TrayCommand),
    WeatherDue,
    SystemInfoDue,
    /// A full hour has begun.
    HourTurned,
    /// The operation went through.
    Finished(Operation),
    /// The operation ended with an error.
    Failed(Operation, BoardError),
    /// A key was pressed on the watched keyboard.
    KeyPressed,
    /// No key was pressed for a while.
    KeysIdle,
    /// The key presses can no longer be watched.
    InputLost,
    /// No keyboard was found whose key presses could be watched.
    WatchUnavailable,
    /// The config file was read anew.
    ConfigReloaded(Settings),
}

/// The board operation that carrying out an action starts, if it starts one.
pub open spec fn operation_of(action: Action) -> Option<Operation> {
    match action {
        Action::Run(op) => Some(op),
        Action::UploadImage(_) => Some(Operation::UploadImage),
        Action::UploadGif(_) => Some(Operation::UploadGif),
        _ => None,
    }
}

/// The state of the daemon.
#[derive(Debug, Clone, Copy, PartialEq, Eq)]
pub struct Machine {
    /// What the tray is shown.
    pub state: TrayState,
    /// Capabilities of the open board; none while no board is open.
    pub capabilities: Capabilities,
    /// Reactive mode has seen keys and not yet a pause.
    pub typing: bool,
    /// `Quit` has come in.
    pub quitting: bool,
}

/// Whether a screen name asks for reactive mode.
pub open spec fn asks_reactive(screen: &'static str) -> bool {
    screen@ == REACTIVE@
}

impl Machine {
    /// The machine before anything has happened.
    pub open spec fn initial(settings: Settings) -> Machine {
        Machine {
            state: TrayState {
                connection: ConnectionStatus::Disconnected,
                current_screen: None,
                config: settings,
                reactive_active: false,
            },
            capabilities: Capabilities::empty(),
            typing: false,
            quitting: false,
        }
    }

    /// A board is open.
    pub open spec fn connected(self) -> bool {
        self.state.connection == ConnectionStatus::Connected
    }

    /// The machine with other settings.
    pub open spec fn with_settings(self, settings: Settings) -> Machine {
        Machine { state: TrayState { config: settings, ..self.state }, ..self }
    }

    /// The machine after the session was lost.
    pub open spec fn torn_down(self) -> Machine {
        Machine {
            state: TrayState {
                connection: ConnectionStatus::Reconnecting,
                reactive_active: false,
                ..self.state
            },
            capabilities: Capabilities::empty(),
            typing: false,
            ..self
        }
    }

    /// Losing the session: the session is dropped, the tray is told, and a
    /// retry is due after the retry interval.
    pub open spec fn teardown(self) -> (Machine, Seq<Action>) {
        (
            self.torn_down(),
            seq![
                Action::Close,
                Action::Publish(self.torn_down().state),
                Action::RetryAfter(self.state.config.retry_ms),
            ],
        )
    }

    /// The retry timer: a reconnecting machine is disconnected again and
    /// tries to open the board; a disconnected one tries again.
    pub open spec fn on_retry(self) -> (Machine, Seq<Action>) {
        match self.state.connection {
            ConnectionStatus::Connected => (self, seq![]),
            ConnectionStatus::Reconnecting => {
                let next = Machine {
                    state: TrayState { connection: ConnectionStatus::Disconnected, ..self.state },
                    ..self
                };
                (next, seq![Action::Publish(next.state), Action::Open])
            },
            ConnectionStatus::Disconnected => (self, seq![Action::Open]),
        }
    }

    /// The machine right after a board with `caps` was opened.
    pub open spec fn opened(self, caps: Capabilities) -> Machine {
        Machine {
            state: TrayState {
                connection: ConnectionStatus::Connected,
                reactive_active: asks_reactive(self.state.config.initial_screen) && caps.screen,
                ..self.state
            },
            capabilities: caps,
            typing: false,
            ..self
        }
    }

    /// What is done to the screen after connecting: reactive mode starts
    /// where it is the default, else the default screen is shown again.
    pub open spec fn screen_on_connect(self, caps: Capabilities) -> Seq<Action> {
        if !caps.screen {
            seq![]
        } else if asks_reactive(self.state.config.initial_screen) {
            seq![Action::Run(Operation::ShowScreen(RESTING_SCREEN)), Action::Watch(true)]
        } else {
            seq![Action::Run(Operation::RestoreScreen(self.state.config.initial_screen))]
        }
    }

    /// The clock is set right after connecting, where the board has one.
    pub open spec fn time_on_connect(self, caps: Capabilities) -> Seq<Action> {
        if caps.time {
            seq![Action::Run(Operation::SyncTime { use_12hr: self.state.config.use_12hr_time })]
        } else {
            seq![]
        }
    }

    /// A board was opened. A disconnected machine is connected: it tells
    /// the tray, sees to the screen, sets the clock and starts the timers,
    /// the hourly one only in 12-hour mode.
    pub open spec fn on_opened(self, caps: Capabilities) -> (Machine, Seq<Action>) {
        if self.state.connection != ConnectionStatus::Disconnected {
            (self, seq![])
        } else {
            (
                self.opened(caps),
                seq![Action::Publish(self.opened(caps).state)] + self.screen_on_connect(caps)
                    + self.time_on_connect(caps) + seq![
                    Action::StartTimers {
                        weather_ms: self.state.config.weather_ms,
                        system_ms: self.state.config.system_ms,
                        hourly: self.state.config.use_12hr_time,
                    },
                ],
            )
        }
    }

    /// No board could be opened: a disconnected machine tries again after
    /// the retry interval.
    pub open spec fn on_open_failed(self) -> (Machine, Seq<Action>) {
        if self.state.connection != ConnectionStatus::Disconnected {
            (self, seq![])
        } else {
            (self, seq![Action::RetryAfter(self.state.config.retry_ms)])
        }
    }

    /// One action, where the board is open and has the capability.
    pub open spec fn where_able(self, capable: bool, action: Action) -> Seq<Action> {
        if self.connected() && capable {
            seq![action]
        } else {
            seq![]
        }
    }

    /// The weather update, where the board is open and shows weather.
    pub open spec fn weather_now(self) -> Seq<Action> {
        self.where_able(
            self.capabilities.weather,
            Action::Run(Operation::UpdateWeather { fahrenheit: self.state.config.fahrenheit }),
        )
    }

    /// The system info update, where the board is open and shows it.
    pub open spec fn system_info_now(self) -> Seq<Action> {
        self.where_able(
            self.capabilities.system_info,
            Action::Run(Operation::UpdateSystemInfo { fahrenheit: self.state.config.fahrenheit }),
        )
    }

    /// The time sync, where the board is open and has a clock.
    pub open spec fn time_now(self) -> Seq<Action> {
        self.where_able(
            self.capabilities.time,
            Action::Run(Operation::SyncTime { use_12hr: self.state.config.use_12hr_time }),
        )
    }

    /// What follows a change of the settings: they are saved and the tray
    /// is told.
    pub open spec fn settings_changed(self) -> Seq<Action> {
        seq![Action::SaveSettings(self.state.config), Action::Publish(self.state)]
    }

    /// `SetScreen("reactive")`: reactive mode is left where it is on, and
    /// entered where a board with a screen is open.
    pub open spec fn on_toggle_reactive(self) -> (Machine, Seq<Action>) {
        if self.state.reactive_active {
            let next = Machine {
                state: TrayState {
                    reactive_active: false,
                    config: Settings { initial_screen: DEFAULT_SCREEN, ..self.state.config },
                    ..self.state
                },
                typing: false,
                ..self
            };
            (next, seq![Action::Watch(false)] + next.settings_changed())
        } else if self.connected() && self.capabilities.screen {
            let next = Machine {
                state: TrayState {
                    reactive_active: true,
                    config: Settings { initial_screen: REACTIVE, ..self.state.config },
                    ..self.state
                },
                typing: false,
                ..self
            };
            (
                next,
                seq![Action::Run(Operation::ShowScreen(RESTING_SCREEN)), Action::Watch(true)]
                    + next.settings_changed(),
            )
        } else {
            (self, seq![])
        }
    }

    /// A command. `Quit` ends the machine. Toggles change the settings at
    /// once. What needs the board is passed on where the board is open and
    /// has the capability, and dropped otherwise.
    pub open spec fn on_command(self, command: TrayCommand) -> (Machine, Seq<Action>) {
        match command {
            TrayCommand::Quit => (Machine { quitting: true, ..self }, seq![Action::Exit]),
            TrayCommand::SetTime => (self, self.time_now()),
            TrayCommand::SetWeather => (self, self.weather_now()),
            TrayCommand::SetSystemInfo => (self, self.system_info_now()),
            TrayCommand::SetScreen(id) => if asks_reactive(id) {
                self.on_toggle_reactive()
            } else {
                (
                    self,
                    self.where_able(
                        self.capabilities.screen,
                        Action::Run(Operation::SetScreen(id)),
                    ),
                )
            },
            TrayCommand::ScreenUp => (
                self,
                self.where_able(self.capabilities.screen, Action::Run(Operation::ScreenUp)),
            ),
            TrayCommand::ScreenDown => (
                self,
                self.where_able(self.capabilities.screen, Action::Run(Operation::ScreenDown)),
            ),
            TrayCommand::ScreenSwitch => (
                self,
                self.where_able(self.capabilities.screen, Action::Run(Operation::ScreenSwitch)),
            ),
            TrayCommand::ToggleWeather => {
                let next = self.with_settings(
                    Settings {
                        weather_enabled: !self.state.config.weather_enabled,
                        ..self.state.config
                    },
                );
                (next, next.settings_changed())
            },
            TrayCommand::ToggleSystemInfo => {
                let next = self.with_settings(
                    Settings {
                        system_info_enabled: !self.state.config.system_info_enabled,
                        ..self.state.config
                    },
                );
                (next, next.settings_changed())
            },
            TrayCommand::Toggle12HrTime => {
                let next = self.with_settings(
                    Settings {
                        use_12hr_time: !self.state.config.use_12hr_time,
                        ..self.state.config
                    },
                );
                (next, next.time_now() + next.settings_changed())
            },
            TrayCommand::ToggleFahrenheit => {
                let next = self.with_settings(
                    Settings { fahrenheit: !self.state.config.fahrenheit, ..self.state.config },
                );
                (
                    next,
                    next.settings_changed() + (if next.state.config.weather_enabled {
                        next.weather_now()
                    } else {
                        seq![]
                    }) + (if next.state.config.system_info_enabled {
                        next.system_info_now()
                    } else {
                        seq![]
                    }),
                )
            },
            TrayCommand::UploadImage(data) => (
                self,
                self.where_able(self.capabilities.image, Action::UploadImage(data)),
            ),
            TrayCommand::UploadGif(data) => (
                self,
                self.where_able(self.capabilities.gif, Action::UploadGif(data)),
            ),
            TrayCommand::ClearImage => (
                self,
                self.where_able(self.capabilities.image, Action::Run(Operation::ClearImage)),
            ),
            TrayCommand::ClearGif => (
                self,
                self.where_able(self.capabilities.gif, Action::Run(Operation::ClearGif)),
            ),
            TrayCommand::ClearAllMedia => (
                self,
                self.where_able(self.capabilities.image, Action::Run(Operation::ClearImage))
                    + self.where_able(self.capabilities.gif, Action::Run(Operation::ClearGif)),
            ),
            TrayCommand::ReloadConfig => (self, seq![Action::ReloadConfig]),
        }
    }

    /// An operation went through. A screen that was set is the current
    /// screen from now on, and the default where it was asked for by
    /// command.
    pub open spec fn on_finished(self, op: Operation) -> (Machine, Seq<Action>) {
        if !self.connected() {
            (self, seq![])
        } else {
            match op {
                Operation::SetScreen(id) => {
                    let next = Machine {
                        state: TrayState {
                            current_screen: Some(id),
                            config: Settings { initial_screen: id, ..self.state.config },
                            ..self.state
                        },
                        ..self
                    };
                    (next, next.settings_changed())
                },
                Operation::RestoreScreen(id) => {
                    let next = Machine {
                        state: TrayState { current_screen: Some(id), ..self.state },
                        ..self
                    };
                    (next, seq![Action::Publish(next.state)])
                },
                _ => (self, seq![]),
            }
        }
    }

    /// An operation failed. An error that is fatal to the session tears it
    /// down at once; any other is told to the user and changes nothing.
    pub open spec fn on_failed(self, error: BoardError) -> (Machine, Seq<Action>) {
        if self.connected() && error.session_fatal() {
            self.teardown()
        } else {
            (self, seq![Action::Report(error)])
        }
    }

    /// A key press in reactive mode: the first after a pause switches the
    /// screen to the animation.
    pub open spec fn on_key(self) -> (Machine, Seq<Action>) {
        if self.connected() && self.state.reactive_active && !self.typing {
            (Machine { typing: true, ..self }, seq![Action::Run(Operation::ScreenSwitch)])
        } else {
            (self, seq![])
        }
    }

    /// A pause in reactive mode: the screen goes back to the resting image.
    pub open spec fn on_idle(self) -> (Machine, Seq<Action>) {
        if self.connected() && self.state.reactive_active && self.typing {
            (
                Machine { typing: false, ..self },
                seq![
                    Action::Run(Operation::ResetScreen),
                    Action::Run(Operation::ScreenSwitch),
                    Action::Run(Operation::ScreenSwitch),
                ],
            )
        } else {
            (self, seq![])
        }
    }

    /// No keyboard to watch: reactive mode is off again, and the tray is
    /// told.
    pub open spec fn on_watch_unavailable(self) -> (Machine, Seq<Action>) {
        if self.state.reactive_active {
            let next = Machine {
                state: TrayState { reactive_active: false, ..self.state },
                typing: false,
                ..self
            };
            (next, seq![Action::Publish(next.state)])
        } else {
            (self, seq![])
        }
    }

    /// The whole transition table. After `Quit` nothing happens any more.
    pub open spec fn react(self, event: Event) -> (Machine, Seq<Action>) {
        if self.quitting {
            (self, seq![])
        } else {
            match event {
                Event::RetryElapsed => self.on_retry(),
                Event::Opened(caps) => self.on_opened(caps),
                Event::OpenFailed => self.on_open_failed(),
                Event::Command(command) => self.on_command(command),
                Event::WeatherDue => (
                    self,
                    if self.state.config.weather_enabled {
                        self.weather_now()
                    } else {
                        seq![]
                    },
                ),
                Event::SystemInfoDue => (
                    self,
                    if self.state.config.system_info_enabled {
                        self.system_info_now()
                    } else {
                        seq![]
                    },
                ),
                Event::HourTurned => (
                    self,
                    if self.state.config.use_12hr_time {
                        self.time_now()
                    } else {
                        seq![]
                    },
                ),
                Event::Finished(op) => self.on_finished(op),
                Event::Failed(_, error) => self.on_failed(error),
                Event::KeyPressed => self.on_key(),
                Event::KeysIdle => self.on_idle(),
                Event::InputLost => if self.connected() {
                    self.teardown()
                } else {
                    (self, seq![])
                },
                Event::WatchUnavailable => self.on_watch_unavailable(),
                Event::ConfigReloaded(settings) => (
                    self.with_settings(settings),
                    seq![Action::Publish(self.with_settings(settings).state)],
                ),
            }
        }
    }
}

fn no_actions() -> (actions: Vec<Action>)
    ensures
        actions@ == Seq::<Action>::empty(),
{
    Vec::new()
}

fn one(action: Action) -> (actions: Vec<Action>)
    ensures
        actions@ == seq![action],
{
    let mut actions: Vec<Action> = Vec::new();
    actions.push(action);
    assert(actions@ =~= seq![action]);
    actions
}

fn two(first: Action, second: Action) -> (actions: Vec<Action>)
    ensures
        actions@ == seq![first, second],
{
    let mut actions: Vec<Action> = Vec::new();
    actions.push(first);
    actions.push(second);
    assert(actions@ =~= seq![first, second]);
    actions
}

fn three(first: Action, second: Action, third: Action) -> (actions: Vec<Action>)
    ensures
        actions@ == seq![first, second, third],
{
    let mut actions: Vec<Action> = Vec::new();
    actions.push(first);
    actions.push(second);
    actions.push(third);
    assert(actions@ =~= seq![first, second, third]);
    actions
}

fn join(first: Vec<Action>, second: Vec<Action>) -> (actions: Vec<Action>)
    ensures
        actions@ == first@ + second@,
{
    let mut actions = first;
    let mut rest = second;
    actions.append(&mut rest);
    actions
}

impl Machine {
    /// The machine before anything has happened.
    pub fn start(settings: Settings) -> (machine: Self)
        ensures
            machine == Self::initial(settings),
    {
        Machine {
            state: TrayState {
                connection: ConnectionStatus::Disconnected,
                current_screen: None,
                config: settings,
                reactive_active: false,
            },
            capabilities: Capabilities::none(),
            typing: false,
            quitting: false,
        }
    }

    /// Whether a board is open.
    pub fn is_connected(&self) -> (yes: bool)
        ensures
            yes == self.connected(),
    {
        match self.state.connection {
            ConnectionStatus::Connected => true,
            _ => false,
        }
    }

    fn with(&self, settings: Settings) -> (next: Machine)
        ensures
            next == self.with_settings(settings),
    {
        Machine { state: TrayState { config: settings, ..self.state }, ..*self }
    }

    fn tear_down(&self) -> (r: (Machine, Vec<Action>))
        ensures
            r.0 == self.teardown().0,
            r.1@ == self.teardown().1,
    {
        let next = Machine {
            state: TrayState {
                connection: ConnectionStatus::Reconnecting,
                reactive_active: false,
                ..self.state
            },
            capabilities: Capabilities::none(),
            typing: false,
            ..*self
        };
        (
            next,
            three(
                Action::Close,
                Action::Publish(next.state),
                Action::RetryAfter(self.state.config.retry_ms),
            ),
        )
    }

    fn retry(&self) -> (r: (Machine, Vec<Action>))
        ensures
            r.0 == self.on_retry().0,
            r.1@ == self.on_retry().1,
    {
        match self.state.connection {
            ConnectionStatus::Connected => (*self, no_actions()),
            ConnectionStatus::Reconnecting => {
                let next = Machine {
                    state: TrayState { connection: ConnectionStatus::Disconnected, ..self.state },
                    ..*self
                };
                (next, two(Action::Publish(next.state), Action::Open))
            },
            ConnectionStatus::Disconnected => (*self, one(Action::Open)),
        }
    }

    fn open_done(&self, caps: Capabilities) -> (r: (Machine, Vec<Action>))
        ensures
            r.0 == self.on_opened(caps).0,
            r.1@ == self.on_opened(caps).1,
    {
        match self.state.connection {
            ConnectionStatus::Disconnected => {
                let config = self.state.config;
                let reactive = str_eq(config.initial_screen, REACTIVE);
                let next = Machine {
                    state: TrayState {
                        connection: ConnectionStatus::Connected,
                        reactive_active: reactive && caps.screen,
                        ..self.state
                    },
                    capabilities: caps,
                    typing: false,
                    ..*self
                };
                let screen = if !caps.screen {
                    no_actions()
                } else if reactive {
                    two(Action::Run(Operation::ShowScreen(RESTING_SCREEN)), Action::Watch(true))
                } else {
                    one(Action::Run(Operation::RestoreScreen(config.initial_screen)))
                };
                let time = if caps.time {
                    one(Action::Run(Operation::SyncTime { use_12hr: config.use_12hr_time }))
                } else {
                    no_actions()
                };
                let timers = one(
                    Action::StartTimers {
                        weather_ms: config.weather_ms,
                        system_ms: config.system_ms,
                        hourly: config.use_12hr_time,
                    },
                );
                (next, join(join(join(one(Action::Publish(next.state)), screen), time), timers))
            },
            _ => (*self, no_actions()),
        }
    }

    fn open_failed(&self) -> (r: (Machine, Vec<Action>))
        ensures
            r.0 == self.on_open_failed().0,
            r.1@ == self.on_open_failed().1,
    {
        match self.state.connection {
            ConnectionStatus::Disconnected => (
                *self,
                one(Action::RetryAfter(self.state.config.retry_ms)),
            ),
            _ => (*self, no_actions()),
        }
    }

    fn if_able(&self, capable: bool, action: Action) -> (actions: Vec<Action>)
        ensures
            actions@ == self.where_able(capable, action),
    {
        if self.is_connected() && capable {
            one(action)
        } else {
            no_actions()
        }
    }

    fn weather(&self) -> (actions: Vec<Action>)
        ensures
            actions@ == self.weather_now(),
    {
        self.if_able(
            self.capabilities.weather,
            Action::Run(Operation::UpdateWeather { fahrenheit: self.state.config.fahrenheit }),
        )
    }

    fn system_info(&self) -> (actions: Vec<Action>)
        ensures
            actions@ == self.system_info_now(),
    {
        self.if_able(
            self.capabilities.system_info,
            Action::Run(Operation::UpdateSystemInfo { fahrenheit: self.state.config.fahrenheit }),
        )
    }

    fn time(&self) -> (actions: Vec<Action>)
        ensures
            actions@ == self.time_now(),
    {
        self.if_able(
            self.capabilities.time,
            Action::Run(Operation::SyncTime { use_12hr: self.state.config.use_12hr_time }),
        )
    }

    fn changed(&self) -> (actions: Vec<Action>)
        ensures
            actions@ == self.settings_changed(),
    {
        two(Action::SaveSettings(self.state.config), Action::Publish(self.state))
    }

    fn toggle_reactive(&self) -> (r: (Machine, Vec<Action>))
        ensures
            r.0 == self.on_toggle_reactive().0,
            r.1@ == self.on_toggle_reactive().1,
    {
        if self.state.reactive_active {
            let next = Machine {
                state: TrayState {
                    reactive_active: false,
                    config: Settings { initial_screen: DEFAULT_SCREEN, ..self.state.config },
                    ..self.state
                },
                typing: false,
                ..*self
            };
            (next, join(one(Action::Watch(false)), next.changed()))
        } else if self.is_connected() && self.capabilities.screen {
            let next = Machine {
                state: TrayState {
                    reactive_active: true,
                    config: Settings { initial_screen: REACTIVE, ..self.state.config },
                    ..self.state
                },
                typing: false,
                ..*self
            };
            (
                next,
                join(
                    two(Action::Run(Operation::ShowScreen(RESTING_SCREEN)), Action::Watch(true)),
                    next.changed(),
                ),
            )
        } else {
            (*self, no_actions())
        }
    }

    fn command(&self, command: TrayCommand) -> (r: (Machine, Vec<Action>))
        ensures
            r.0 == self.on_command(command).0,
            r.1@ == self.on_command(command).1,
    {
        let config = self.state.config;
        let caps = self.capabilities;
        match command {
            TrayCommand::Quit => (Machine { quitting: true, ..*self }, one(Action::Exit)),
            TrayCommand::SetTime => (*self, self.time()),
            TrayCommand::SetWeather => (*self, self.weather()),
            TrayCommand::SetSystemInfo => (*self, self.system_info()),
            TrayCommand::SetScreen(id) => {
                if str_eq(id, REACTIVE) {
                    self.toggle_reactive()
                } else {
                    (*self, self.if_able(caps.screen, Action::Run(Operation::SetScreen(id))))
                }
            },
            TrayCommand::ScreenUp => (
                *self,
                self.if_able(caps.screen, Action::Run(Operation::ScreenUp)),
            ),
            TrayCommand::ScreenDown => (
                *self,
                self.if_able(caps.screen, Action::Run(Operation::ScreenDown)),
            ),
            TrayCommand::ScreenSwitch => (
                *self,
                self.if_able(caps.screen, Action::Run(Operation::ScreenSwitch)),
            ),
            TrayCommand::ToggleWeather => {
                let next = self.with(
                    Settings { weather_enabled: !config.weather_enabled, ..config },
                );
                (next, next.changed())
            },
            TrayCommand::ToggleSystemInfo => {
                let next = self.with(
                    Settings { system_info_enabled: !config.system_info_enabled, ..config },
                );
                (next, next.changed())
            },
            TrayCommand::Toggle12HrTime => {
                let next = self.with(Settings { use_12hr_time: !config.use_12hr_time, ..config });
                (next, join(next.time(), next.changed()))
            },
            TrayCommand::ToggleFahrenheit => {
                let next = self.with(Settings { fahrenheit: !config.fahrenheit, ..config });
                // Immediately update displays with new temperature unit
                let weather = if config.weather_enabled {
                    next.weather()
                } else {
                    no_actions()
                };
                let system = if config.system_info_enabled {
                    next.system_info()
                } else {
                    no_actions()
                };
                (next, join(join(next.changed(), weather), system))
            },
            TrayCommand::UploadImage(data) => (
                *self,
                self.if_able(caps.image, Action::UploadImage(data)),
            ),
            TrayCommand::UploadGif(data) => (
                *self,
                self.if_able(caps.gif, Action::UploadGif(data)),
            ),
            TrayCommand::ClearImage => (
                *self,
                self.if_able(caps.image, Action::Run(Operation::ClearImage)),
            ),
            TrayCommand::ClearGif => (
                *self,
                self.if_able(caps.gif, Action::Run(Operation::ClearGif)),
            ),
            TrayCommand::ClearAllMedia => (
                *self,
                join(
                    self.if_able(caps.image, Action::Run(Operation::ClearImage)),
                    self.if_able(caps.gif, Action::Run(Operation::ClearGif)),
                ),
            ),
            TrayCommand::ReloadConfig => (*self, one(Action::ReloadConfig)),
        }
    }

    fn finished(&self, op: Operation) -> (r: (Machine, Vec<Action>))
        ensures
            r.0 == self.on_finished(op).0,
            r.1@ == self.on_finished(op).1,
    {
        if !self.is_connected() {
            return (*self, no_actions());
        }
        match op {
            Operation::SetScreen(id) => {
                let next = Machine {
                    state: TrayState {
                        current_screen: Some(id),
                        config: Settings { initial_screen: id, ..self.state.config },
                        ..self.state
                    },
                    ..*self
                };
                (next, next.changed())
            },
            Operation::RestoreScreen(id) => {
                let next = Machine {
                    state: TrayState { current_screen: Some(id), ..self.state },
                    ..*self
                };
                (next, one(Action::Publish(next.state)))
            },
            _ => (*self, no_actions()),
        }
    }

    fn failed(&self, error: BoardError) -> (r: (Machine, Vec<Action>))
        ensures
            r.0 == self.on_failed(error).0,
            r.1@ == self.on_failed(error).1,
    {
        if self.is_connected() && error.is_session_fatal() {
            self.tear_down()
        } else {
            (*self, one(Action::Report(error)))
        }
    }

    /// Take an event: the machine that results, and what the caller has to
    /// do now, in this order.
    pub fn handle(&self, event: Event) -> (r: (Machine, Vec<Action>))
        ensures
            r.0 == self.react(event).0,
            r.1@ == self.react(event).1,
    {
        if self.quitting {
            return (*self, no_actions());
        }
        match event {
            Event::RetryElapsed => self.retry(),
            Event::Opened(caps) => self.open_done(caps),
            Event::OpenFailed => self.open_failed(),
            Event::Command(command) => self.command(command),
            Event::WeatherDue => (
                *self,
                if self.state.config.weather_enabled {
                    self.weather()
                } else {
                    no_actions()
                },
            ),
            Event::SystemInfoDue => (
                *self,
                if self.state.config.system_info_enabled {
                    self.system_info()
                } else {
                    no_actions()
                },
            ),
            Event::HourTurned => (
                *self,
                if self.state.config.use_12hr_time {
                    self.time()
                } else {
                    no_actions()
                },
            ),
            Event::Finished(op) => self.finished(op),
            Event::Failed(_, error) => self.failed(error),
            Event::KeyPressed => {
                if self.is_connected() && self.state.reactive_active && !self.typing {
                    (Machine { typing: true, ..*self }, one(Action::Run(Operation::ScreenSwitch)))
                } else {
                    (*self, no_actions())
                }
            },
            Event::KeysIdle => {
                if self.is_connected() && self.state.reactive_active && self.typing {
                    (
                        Machine { typing: false, ..*self },
                        three(
                            Action::Run(Operation::ResetScreen),
                            Action::Run(Operation::ScreenSwitch),
                            Action::Run(Operation::ScreenSwitch),
                        ),
                    )
                } else {
                    (*self, no_actions())
                }
            },
            Event::InputLost => {
                if self.is_connected() {
                    self.tear_down()
                } else {
                    (*self, no_actions())
                }
            },
            Event::WatchUnavailable => {
                if self.state.reactive_active {
                    let next = Machine {
                        state: TrayState { reactive_active: false, ..self.state },
                        typing: false,
                        ..*self
                    };
                    (next, one(Action::Publish(next.state)))
                } else {
                    (*self, no_actions())
                }
            },
            Event::ConfigReloaded(settings) => {
                let next = self.with(settings);
                (next, one(Action::Publish(next.state)))
            },
        }
    }
}

/// The connection status moves one step at a time: a connected machine can
/// only start to reconnect, a reconnecting one can only fall back to
/// disconnected, and only a disconnected one can connect.
pub proof fn lemma_status_moves_in_order(machine: Machine, event: Event)
    ensures
        ({
            let before = machine.state.connection;
            let after = machine.react(event).0.state.connection;
            match before {
                ConnectionStatus::Connected => after == ConnectionStatus::Connected || after
                    == ConnectionStatus::Reconnecting,
                ConnectionStatus::Reconnecting => after == ConnectionStatus::Reconnecting || after
                    == ConnectionStatus::Disconnected,
                ConnectionStatus::Disconnected => after == ConnectionStatus::Disconnected || after
                    == ConnectionStatus::Connected,
            }
        }),
{
}

/// Whether an action is `Open`.
pub open spec fn is_open(action: Action) -> bool {
    action is Open
}

/// Whether an action is `Close`.
pub open spec fn is_close(action: Action) -> bool {
    action is Close
}

/// Commands never open the board nor drop the session.
pub proof fn lemma_commands_keep_session(machine: Machine, command: TrayCommand, i: int)
    requires
        0 <= i < machine.on_command(command).1.len(),
    ensures
        !is_open(machine.on_command(command).1[i]),
        !is_close(machine.on_command(command).1[i]),
{
    match command {
        TrayCommand::SetScreen(id) => {
            if asks_reactive(id) {
                assert(!is_open(machine.on_toggle_reactive().1[i]));
                assert(!is_close(machine.on_toggle_reactive().1[i]));
            }
        },
        TrayCommand::ToggleFahrenheit => {},
        TrayCommand::Toggle12HrTime => {},
        TrayCommand::ClearAllMedia => {},
        _ => {},
    }
}

/// The board is opened only when the retry interval is over, by a machine
/// that is then disconnected; and the session is dropped only by a machine
/// that was connected and starts to reconnect.
pub proof fn lemma_open_and_close_in_place(machine: Machine, event: Event, i: int)
    requires
        0 <= i < machine.react(event).1.len(),
    ensures
        is_open(machine.react(event).1[i]) ==> machine.react(event).0.state.connection
            == ConnectionStatus::Disconnected && event is RetryElapsed,
        is_close(machine.react(event).1[i]) ==> machine.connected() && machine.react(
            event,
        ).0.state.connection == ConnectionStatus::Reconnecting,
{
    if !machine.quitting {
        match event {
            Event::Command(command) => {
                lemma_commands_keep_session(machine, command, i);
            },
            Event::Opened(caps) => {
                if machine.state.connection == ConnectionStatus::Disconnected {
                    let head = seq![Action::Publish(machine.opened(caps).state)];
                    let screen = machine.screen_on_connect(caps);
                    let time = machine.time_on_connect(caps);
                    let all = machine.on_opened(caps).1;
                    assert(forall|k: int|
                        0 <= k < screen.len() ==> !is_open(screen[k]) && !is_close(screen[k]));
                    assert(forall|k: int|
                        0 <= k < time.len() ==> !is_open(time[k]) && !is_close(time[k]));
                    if i < 1 {
                        assert(all[i] == head[i]);
                    } else if i < 1 + screen.len() {
                        assert(all[i] == screen[i - 1]);
                    } else if i < 1 + screen.len() + time.len() {
                        assert(all[i] == time[i - 1 - screen.len()]);
                    } else {
                        assert(all[i] is StartTimers);
                    }
                }
            },
            _ => {},
        }
    }
}

/// Some action hands out the snapshot.
pub open spec fn publishes(actions: Seq<Action>, state: TrayState) -> bool {
    exists|i: int| 0 <= i < actions.len() && #[trigger] actions[i] == Action::Publish(state)
}

/// Every change of what the tray is shown is published: where an event
/// changes the connection status, the current screen, the settings or
/// reactive mode, one of the actions hands out the new snapshot.
pub proof fn lemma_state_change_is_published(machine: Machine, event: Event)
    ensures
        machine.react(event).0.state != machine.state ==> publishes(
            machine.react(event).1,
            machine.react(event).0.state,
        ),
{
    let (next, actions) = machine.react(event);
    if next.state != machine.state {
        match event {
            Event::RetryElapsed => {
                assert(actions[0] == Action::Publish(next.state));
            },
            Event::Opened(caps) => {
                assert(actions[0] == Action::Publish(next.state));
            },
            Event::Command(command) => {
                match command {
                    TrayCommand::SetScreen(id) => {
                        if machine.state.reactive_active {
                            assert(actions[2] == Action::Publish(next.state));
                        } else {
                            assert(actions[3] == Action::Publish(next.state));
                        }
                    },
                    TrayCommand::ToggleWeather => {
                        assert(actions[1] == Action::Publish(next.state));
                    },
                    TrayCommand::ToggleSystemInfo => {
                        assert(actions[1] == Action::Publish(next.state));
                    },
                    TrayCommand::Toggle12HrTime => {
                        let first = next.time_now();
                        assert(actions[first.len() as int + 1] == Action::Publish(next.state));
                    },
                    TrayCommand::ToggleFahrenheit => {
                        assert(actions[1] == Action::Publish(next.state));
                    },
                    _ => {},
                }
            },
            Event::Finished(op) => {
                match op {
                    Operation::SetScreen(id) => {
                        assert(actions[1] == Action::Publish(next.state));
                    },
                    Operation::RestoreScreen(id) => {
                        assert(actions[0] == Action::Publish(next.state));
                    },
                    _ => {},
                }
            },
            Event::Failed(_, error) => {
                assert(actions[1] == Action::Publish(next.state));
            },
            Event::InputLost => {
                assert(actions[1] == Action::Publish(next.state));
            },
            Event::WatchUnavailable => {
                assert(actions[0] == Action::Publish(next.state));
            },
            Event::ConfigReloaded(settings) => {
                assert(actions[0] == Action::Publish(next.state));
            },
            _ => {},
        }
    }
}

/// Reconnection after a fatal error: the connected machine starts to
/// reconnect, drops the session and asks for the retry timer; when the
/// retry interval is over it is disconnected and opens the board again; and
/// when that works it is connected.
pub proof fn lemma_reconnects_after_fatal_error(
    machine: Machine,
    op: Operation,
    error: BoardError,
    caps: Capabilities,
)
    requires
        machine.connected(),
        !machine.quitting,
        error.session_fatal(),
    ensures
        ({
            let (lost, first) = machine.react(Event::Failed(op, error));
            let (retrying, second) = lost.react(Event::RetryElapsed);
            let (back, third) = retrying.react(Event::Opened(caps));
            &&& lost.state.connection == ConnectionStatus::Reconnecting
            &&& first == seq![
                Action::Close,
                Action::Publish(lost.state),
                Action::RetryAfter(machine.state.config.retry_ms),
            ]
            &&& retrying.state.connection == ConnectionStatus::Disconnected
            &&& second == seq![Action::Publish(retrying.state), Action::Open]
            &&& back.state.connection == ConnectionStatus::Connected
            &&& third[0] == Action::Publish(back.state)
        }),
{
}

/// An error that is not fatal to the session leaves the machine as it is.
pub proof fn lemma_local_error_changes_nothing(machine: Machine, op: Operation, error: BoardError)
    requires
        !error.session_fatal(),
        !machine.quitting,
    ensures
        machine.react(Event::Failed(op, error)) == (machine, seq![Action::Report(error)]),
{
}

/// `Quit` ends the machine whatever its state, and nothing moves it after.
pub proof fn lemma_quit_is_final(machine: Machine, event: Event)
    requires
        !machine.quitting,
    ensures
        machine.react(Event::Command(TrayCommand::Quit)).0.quitting,
        machine.react(Event::Command(TrayCommand::Quit)).1 == seq![Action::Exit],
        machine.react(Event::Command(TrayCommand::Quit)).0.react(event) == (
            machine.react(Event::Command(TrayCommand::Quit)).0,
            Seq::<Action>::empty(),
        ),
{
}

} // verus!
