use crate::cli::Command;
use crate::controller::{FanController, FanState};
use vstd::prelude::*;

verus! {

/// What reaches the worker: a request from a connection, or a fresh sensor
/// reading (in thousandths of a degree) taken because the deadline came.
#[derive(Debug, Clone, Copy, PartialEq, Eq, Structural)]
pub enum Event {
    Request(Command),
    Tick(i32),
}

/// What the worker asks its host to do after an event.
#[derive(Debug)]
pub enum Action {
    /// Answer the request with this text.
    Reply(String),
    /// Nothing to do; a request's reply slot is dropped unanswered.
    Nothing,
    /// Write this value to the fan's mode control.
    SetFan(u16),
    /// The next deadline would not fit: the reading was not taken in.
    DeadlineOverflow,
}

/// The controller after an event: a request leaves it as it is, a reading
/// updates it when its next deadline fits.
pub open spec fn next_controller(c: FanController, e: Event) -> FanController {
    match e {
        Event::Request(_) => c,
        Event::Tick(raw) => if c.can_schedule() {
            c.after_update(raw)
        } else {
            c
        },
    }
}

/// The action that an event calls for in state `c`.
pub open spec fn action_for(a: Action, c: FanController, e: Event) -> bool {
    match e {
        Event::Request(Command::Status) => a is Reply && a->Reply_0@ == c.status_text(),
        Event::Request(Command::Daemon) => a is Nothing,
        Event::Tick(raw) => if c.can_schedule() {
            a == Action::SetFan(c.after_update(raw).fan_state.spec_pwm_value())
        } else {
            a is DeadlineOverflow
        },
    }
}

/// The reply that an action carries, if any.
pub open spec fn reply_of(a: Action) -> Option<Seq<char>> {
    match a {
        Action::Reply(t) => Some(t@),
        _ => None,
    }
}

/// Handles one event on the controller that the worker alone owns, so each
/// event sees the state that the one before it left, whole.
pub fn handle_event(controller: &mut FanController, event: Event) -> (a: Action)
    requires
        old(controller).wf(),
    ensures
        *final(controller) == next_controller(*old(controller), event),
        action_for(a, *old(controller), event),
        final(controller).wf(),
{
    match event {
        Event::Request(Command::Status) => Action::Reply(controller.status()),
        Event::Request(Command::Daemon) => Action::Nothing,
        Event::Tick(raw) => {
            if controller.next_read.checked_add(controller.config.interval).is_none()
                || controller.next_read.checked_add(controller.config.delay).is_none() {
                Action::DeadlineOverflow
            } else {
                controller.update(raw);
                Action::SetFan(controller.fan_state.pwm_value())
            }
        },
    }
}

/// A status request changes nothing, so two of them with no reading between
/// get the same reply.
pub proof fn status_is_idempotent(c: FanController, a1: Action, a2: Action)
    requires
        action_for(a1, c, Event::Request(Command::Status)),
        action_for(a2, next_controller(c, Event::Request(Command::Status)), Event::Request(Command::Status)),
    ensures
        next_controller(c, Event::Request(Command::Status)) == c,
        reply_of(a1) is Some,
        reply_of(a1) == reply_of(a2),
{
}

/// A status reply shows the temperature and the fan state of one state: the
/// state before a reading when it is handled before it, the state after when
/// handled after it.
pub proof fn status_reply_is_coherent(c: FanController, raw: i32, before: Action, after: Action)
    requires
        c.can_schedule(),
        action_for(before, c, Event::Request(Command::Status)),
        action_for(after, next_controller(c, Event::Tick(raw)), Event::Request(Command::Status)),
    ensures
        reply_of(before) == Some(c.status_text()),
        reply_of(after) == Some(c.after_update(raw).status_text()),
        c.after_update(raw).latest_temp == raw,
{
}

} // verus!
