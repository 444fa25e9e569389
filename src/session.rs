use vstd::prelude::*;

use crate::color::HsvFrame;
use crate::record::{DecodeError, StateRecord};
use crate::state::{ControlMessage, State};

verus! {

/// What an incoming message's topic makes of it.
#[derive(Debug, Clone, Copy, PartialEq, Eq, Structural)]
pub enum Topic {
    /// A control message.
    Command,
    /// A state snapshot.
    Snapshot,
    /// Neither.
    Unknown,
}

/// Sorts an incoming topic: the command topic, else the state topic, else unknown.
pub fn route_topic(topic: &str, command_topic: &str, state_topic: &str) -> (r: Topic)
    ensures
        r == (if topic@ == command_topic@ {
            Topic::Command
        } else if topic@ == state_topic@ {
            Topic::Snapshot
        } else {
            Topic::Unknown
        }),
{
    let t = String::from_str(topic);
    if t == String::from_str(command_topic) {
        Topic::Command
    } else if t == String::from_str(state_topic) {
        Topic::Snapshot
    } else {
        Topic::Unknown
    }
}

/// What to do once connected to the broker.
#[derive(Debug, Clone, Copy, PartialEq, Eq, Structural)]
pub struct ConnectActions {
    /// Announce the components to the hub.
    pub send_discovery: bool,
    /// Subscribe to the state topic besides the command topic.
    pub include_state_topic: bool,
}

/// What the event loop remembers across connections.
#[derive(Debug, Clone, Copy, PartialEq, Eq, Structural)]
pub struct Session {
    pub initial_state_received: bool,
    pub discovery_sent: bool,
}

impl Session {
    pub fn new() -> (r: Session)
        ensures
            !r.initial_state_received,
            !r.discovery_sent,
    {
        Session { initial_state_received: false, discovery_sent: false }
    }

    /// On each connection: announce once per process, and subscribe to the
    /// state topic only while no snapshot has arrived.
    pub fn on_connected(&mut self) -> (r: ConnectActions)
        ensures
            r.send_discovery == !old(self).discovery_sent,
            r.include_state_topic == !old(self).initial_state_received,
            final(self).discovery_sent,
            final(self).initial_state_received == old(self).initial_state_received,
    {
        let r = ConnectActions {
            send_discovery: !self.discovery_sent,
            include_state_topic: !self.initial_state_received,
        };
        self.discovery_sent = true;
        r
    }

    /// On a message on the state topic, well formed or not: the first snapshot
    /// has been seen, and the state topic is to be left.
    pub fn on_snapshot(&mut self)
        ensures
            final(self).initial_state_received,
            final(self).discovery_sent == old(self).discovery_sent,
    {
        self.initial_state_received = true;
    }
}

impl State {
    /// Merges a control message and renders the result; hands back the frames
    /// to show.
    pub fn handle_command(&mut self, msg: ControlMessage, step_duration_ms: u32) -> (r: Vec<HsvFrame>)
        ensures
            r@ == old(self).edited(msg).rendered(step_duration_ms),
            *final(self) == (State { transition: false, ..old(self).edited(msg) }),
    {
        self.edit(msg);
        self.apply(step_duration_ms)
    }

    /// Replaces the state by a snapshot and renders it; a snapshot that does
    /// not decode leaves the state as it was and renders nothing.
    pub fn handle_snapshot(&mut self, rec: &StateRecord, step_duration_ms: u32) -> (r: Result<
        Vec<HsvFrame>,
        DecodeError,
    >)
        ensures
            match rec.decoded() {
                Ok(s) => *final(self) == s && (r matches Ok(f) && f@ == s.rendered(step_duration_ms)),
                Err(e) => *final(self) == *old(self) && r == Err::<Vec<HsvFrame>, DecodeError>(e),
            },
    {
        match State::from_record(rec) {
            Ok(s) => {
                *self = s;
                Ok(self.apply(step_duration_ms))
            },
            Err(e) => Err(e),
        }
    }

    /// One rainbow tick: while the stepper runs, advance the hue and render;
    /// otherwise change nothing and render nothing.
    pub fn tick(&mut self, step_duration_ms: u32) -> (r: Vec<HsvFrame>)
        ensures
            old(self).rainbow_active_spec() ==> *final(self) == (State {
                transition: false,
                ..old(self).stepped(step_duration_ms)
            }) && r@ == old(self).stepped(step_duration_ms).rendered(step_duration_ms),
            !old(self).rainbow_active_spec() ==> *final(self) == *old(self) && r@.len() == 0,
    {
        if self.rainbow_active() {
            self.step_hue(step_duration_ms);
            self.apply(step_duration_ms)
        } else {
            Vec::new()
        }
    }
}

} // verus!
