//! The daemon's machine together with what waits around it: the commands
//! that have come in and the actions that have not been carried out yet.
//!
//! The caller's loop is short. It hands every command to `submit`, every
//! other event to `notify`, and asks `next_action` for work until there is
//! none; after a board operation it calls `completed` with the result
//! before it asks again.

use crate::board::BoardError;
use crate::tray::commands::{Settings, TrayCommand, TrayState};
use crate::tray::daemon::{operation_of, Action, Event, Machine, Operation};
use crate::tray::queue::{lemma_without_kind, without_kind, CommandQueue};
use vstd::prelude::*;

verus! {

/// The scheduler as contracts see it.
pub struct SchedulerView {
    /// The daemon's state.
    pub machine: Machine,
    /// Commands that wait, the oldest first.
    pub inbox: Seq<TrayCommand>,
    /// Actions that wait to be carried out, the next first.
    pub outbox: Seq<Action>,
    /// The board operation that is under way.
    pub busy: Option<Operation>,
}

impl SchedulerView {
    /// The scheduler at the start: disconnected, and about to open the
    /// board.
    pub open spec fn initial(settings: Settings) -> SchedulerView {
        SchedulerView {
            machine: Machine::initial(settings),
            inbox: seq![],
            outbox: seq![Action::Open],
            busy: None,
        }
    }

    /// After a command has come in: it waits last, and a waiting command of
    /// its kind has given way to it.
    pub open spec fn after_submit(self, command: TrayCommand) -> SchedulerView {
        SchedulerView {
            inbox: without_kind(self.inbox, command.spec_kind()).push(command),
            ..self
        }
    }

    /// After the machine has taken an event: its actions wait behind those
    /// that waited already. Where the session was lost, what waited is
    /// dropped: nothing is carried out on a session that is gone.
    pub open spec fn absorbed(self, event: Event) -> SchedulerView {
        let (next, actions) = self.machine.react(event);
        SchedulerView {
            machine: next,
            outbox: (if self.machine.connected() && !next.connected() {
                seq![]
            } else {
                self.outbox
            }) + actions,
            ..self
        }
    }

    /// After the board operation under way has ended with `outcome`.
    /// Without an operation under way nothing changes.
    pub open spec fn after_completion(self, outcome: Result<(), BoardError>) -> SchedulerView {
        match self.busy {
            None => self,
            Some(op) => SchedulerView {
                busy: None,
                ..self.absorbed(
                    match outcome {
                        Ok(()) => Event::Finished(op),
                        Err(error) => Event::Failed(op, error),
                    },
                )
            },
        }
    }

    /// Handing out the next action. While a board operation is under way
    /// there is none. Else the action that has waited longest goes out; if
    /// none waits, waiting commands are taken, the oldest first, until one
    /// of them calls for an action.
    pub open spec fn handed_out(self) -> (SchedulerView, Option<Action>)
        decreases self.inbox.len(),
    {
        if self.busy is Some {
            (self, None)
        } else if self.outbox.len() > 0 {
            (
                SchedulerView {
                    outbox: self.outbox.skip(1),
                    busy: operation_of(self.outbox[0]),
                    ..self
                },
                Some(self.outbox[0]),
            )
        } else if self.inbox.len() > 0 {
            (SchedulerView { inbox: self.inbox.skip(1), ..self }).absorbed(
                Event::Command(self.inbox[0]),
            ).handed_out()
        } else {
            (self, None)
        }
    }
}

/// The daemon's machine with its queues.
#[derive(Debug)]
pub struct Scheduler {
    machine: Machine,
    inbox: CommandQueue,
    outbox: Vec<Action>,
    busy: Option<Operation>,
}

impl View for Scheduler {
    type V = SchedulerView;

    closed spec fn view(&self) -> SchedulerView {
        SchedulerView {
            machine: self.machine,
            inbox: self.inbox@,
            outbox: self.outbox@,
            busy: self.busy,
        }
    }
}

impl Scheduler {
    /// A scheduler that is about to open the board.
    pub fn new(settings: Settings) -> (scheduler: Self)
        ensures
            scheduler@ == SchedulerView::initial(settings),
    {
        let mut outbox: Vec<Action> = Vec::new();
        outbox.push(Action::Open);
        let scheduler = Scheduler {
            machine: Machine::start(settings),
            inbox: CommandQueue::new(),
            outbox,
            busy: None,
        };
        assert(scheduler@.outbox =~= seq![Action::Open]);
        scheduler
    }

    /// What the tray is shown.
    pub fn snapshot(&self) -> (state: TrayState)
        ensures
            state == self@.machine.state,
    {
        self.machine.state
    }

    /// Whether a board operation is under way.
    pub fn is_busy(&self) -> (busy: bool)
        ensures
            busy == self@.busy.is_some(),
    {
        self.busy.is_some()
    }

    /// Whether `Quit` has come in and been taken.
    pub fn is_quitting(&self) -> (quitting: bool)
        ensures
            quitting == self@.machine.quitting,
    {
        self.machine.quitting
    }

    /// Take a command into the inbox.
    pub fn submit(&mut self, command: TrayCommand)
        ensures
            final(self)@ == old(self)@.after_submit(command),
    {
        self.inbox.push(command);
    }

    /// Tell the machine of an event.
    pub fn notify(&mut self, event: Event)
        ensures
            final(self)@ == old(self)@.absorbed(event),
    {
        let was_connected = self.machine.is_connected();
        let (next, mut actions) = self.machine.handle(event);
        if was_connected && !next.is_connected() {
            self.outbox = Vec::new();
        }
        self.machine = next;
        self.outbox.append(&mut actions);
    }

    /// Tell the machine how the board operation under way has ended.
    pub fn completed(&mut self, outcome: Result<(), BoardError>)
        ensures
            final(self)@ == old(self)@.after_completion(outcome),
    {
        match self.busy {
            None => {},
            Some(op) => {
                let event = match outcome {
                    Ok(()) => Event::Finished(op),
                    Err(error) => Event::Failed(op, error),
                };
                self.notify(event);
                self.busy = None;
            },
        }
    }

    /// The next action to carry out, if there is one.
    pub fn next_action(&mut self) -> (action: Option<Action>)
        ensures
            (final(self)@, action) == old(self)@.handed_out(),
            old(self)@.busy is Some ==> action is None,
    {
        if self.busy.is_some() {
            return None;
        }
        loop
            invariant
                self@.busy is None,
                self@.handed_out() == old(self)@.handed_out(),
            decreases self@.inbox.len(),
        {
            if self.outbox.len() > 0 {
                let ghost before = self@;
                let action = self.outbox.remove(0);
                self.busy = match &action {
                    Action::Run(op) => Some(*op),
                    Action::UploadImage(_) => Some(Operation::UploadImage),
                    Action::UploadGif(_) => Some(Operation::UploadGif),
                    _ => None,
                };
                proof {
                    assert(self@.outbox =~= before.outbox.skip(1));
                    assert(self@ == before.handed_out().0);
                }
                return Some(action);
            }
            match self.inbox.pop() {
                None => {
                    return None;
                },
                Some(command) => {
                    self.notify(Event::Command(command));
                },
            }
        }
    }
}

/// Of two commands of one kind that come in one after the other, only the
/// second waits.
pub proof fn lemma_later_command_wins(view: SchedulerView, first: TrayCommand, second: TrayCommand)
    requires
        first.spec_kind() == second.spec_kind(),
    ensures
        view.after_submit(first).after_submit(second) == view.after_submit(second),
{
    let kind = first.spec_kind();
    let rest = without_kind(view.inbox, kind);
    lemma_without_kind(view.inbox, kind);
    lemma_without_kind(rest, kind);
    assert(rest.push(first).drop_last() =~= rest);
    assert(without_kind(rest.push(first), kind) == rest);
}

/// While a board operation is under way no action is handed out, whatever
/// waits.
pub proof fn lemma_one_operation_at_a_time(view: SchedulerView)
    requires
        view.busy is Some,
    ensures
        view.handed_out() == (view, None::<Action>),
{
}

/// Losing the session drops the actions that waited: after a fatal error the
/// first thing done is to drop the session.
pub proof fn lemma_fatal_error_clears_outbox(view: SchedulerView, error: BoardError)
    requires
        view.busy is Some,
        view.machine.connected(),
        !view.machine.quitting,
        error.session_fatal(),
    ensures
        view.after_completion(Err(error)).outbox == view.machine.teardown().1,
        view.after_completion(Err(error)).busy is None,
        view.after_completion(Err(error)).handed_out().1 == Some(Action::Close),
{
    let after = view.after_completion(Err(error));
    assert(after.outbox =~= view.machine.teardown().1);
}

} // verus!
