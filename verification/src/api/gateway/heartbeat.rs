//! The heartbeat task of one connection, tick by tick.

use crate::api::gateway::payloads::heartbeat_document;
use crate::api::gateway::{heartbeat_sequence, Gateway, GatewayState, GatewayView};
use crate::json::rendered;
use vstd::prelude::*;

verus! {

/// The number of ticks that a task lets pass before its first heartbeat, the tick
/// of that heartbeat included.
pub const WARM_UP_TICKS: u32 = 2;

/// A heartbeat task: the connection it was started for, the ticks it has seen
/// while warming up, and whether it has ended.
#[derive(Debug, Clone, Copy, PartialEq, Eq, Structural)]
pub struct HeartbeatTask {
    pub connection_number: u32,
    pub ticks: u32,
    pub stopped: bool,
}

/// What a task does at a tick.
#[derive(Debug, Clone)]
pub enum HeartbeatStep {
    /// Nothing yet.
    Wait,
    /// Send this heartbeat frame.
    Send(String),
    /// End: the task sends nothing any more.
    Stop,
}

/// Mathematical value of a [`HeartbeatStep`].
pub ghost enum HeartbeatStepView {
    Wait,
    Send(Seq<char>),
    Stop,
}

impl View for HeartbeatStep {
    type V = HeartbeatStepView;

    open spec fn view(&self) -> HeartbeatStepView {
        match self {
            HeartbeatStep::Wait => HeartbeatStepView::Wait,
            HeartbeatStep::Send(frame) => HeartbeatStepView::Send(frame@),
            HeartbeatStep::Stop => HeartbeatStepView::Stop,
        }
    }
}

/// Whether a task has outlived its connection: the gateway is closed, or counts
/// another connection than the one the task was started for.
pub open spec fn stale(task: HeartbeatTask, gateway: GatewayView) -> bool {
    gateway.state == GatewayState::Closed || gateway.connection_number != task.connection_number
}

/// The task after a tick, and what it does at that tick.
///
/// A task that has ended stays ended. A stale task ends. Otherwise the task waits
/// until it has seen `WARM_UP_TICKS` ticks, and from then on sends at every tick a
/// heartbeat with the sequence number that the gateway has seen by then.
pub open spec fn ticked(task: HeartbeatTask, gateway: GatewayView) -> (
    HeartbeatTask,
    HeartbeatStepView,
) {
    if task.stopped || stale(task, gateway) {
        (HeartbeatTask { stopped: true, ..task }, HeartbeatStepView::Stop)
    } else if task.ticks + 1 < WARM_UP_TICKS {
        (HeartbeatTask { ticks: (task.ticks + 1) as u32, ..task }, HeartbeatStepView::Wait)
    } else {
        (
            HeartbeatTask { ticks: WARM_UP_TICKS, ..task },
            HeartbeatStepView::Send(
                rendered(heartbeat_document(heartbeat_sequence(gateway.sequence))),
            ),
        )
    }
}

impl HeartbeatTask {
    /// A task for the connection with the given number, before its first tick.
    pub fn new(connection_number: u32) -> (task: HeartbeatTask)
        ensures
            task == (HeartbeatTask { connection_number, ticks: 0, stopped: false }),
    {
        HeartbeatTask { connection_number, ticks: 0, stopped: false }
    }

    /// Takes a tick of the timer.
    pub fn on_tick(&mut self, gateway: &Gateway) -> (step: HeartbeatStep)
        ensures
            (*final(self), step@) == ticked(*old(self), gateway@),
    {
        if self.stopped || gateway.inner.state == GatewayState::Closed
            || gateway.inner.connection_number != self.connection_number {
            self.stopped = true;
            HeartbeatStep::Stop
        } else if self.ticks < WARM_UP_TICKS - 1 {
            self.ticks = self.ticks + 1;
            HeartbeatStep::Wait
        } else {
            self.ticks = WARM_UP_TICKS;
            HeartbeatStep::Send(gateway.heartbeat())
        }
    }

    /// Ends the task after a heartbeat could not be sent.
    pub fn on_send_failed(&mut self)
        ensures
            *final(self) == (HeartbeatTask { stopped: true, ..*old(self) }),
    {
        self.stopped = true;
    }
}

} // verus!
