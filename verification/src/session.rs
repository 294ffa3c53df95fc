//! The connection state machine: one session controller that consumes the
//! stack's asynchronous events and decides the state transitions and the
//! actions (re-arm advertising, arm or stop the notification scheduler) that
//! an unverified shell then performs.

use vstd::prelude::*;
use crate::identity::DeviceIdentity;

verus! {

/// The sample generator's base value: the first bpm sent, and the value it
/// returns to after wrapping or when stopped.
pub const BASE_BPM: u8 = 90;

/// The greatest bpm sent; the generator wraps back to the base after it.
pub const MAX_BPM: u8 = 159;

/// Where the controller stands: not yet discoverable, advertising for a
/// central, or holding the single live connection.  The connection handle
/// lives only inside `Connected`, so a stale handle cannot outlive its
/// connection.
#[derive(Clone, Copy, PartialEq, Eq, Structural, Debug)]
pub enum SessionState {
    Idle,
    Advertising,
    Connected { conn_handle: u16, subscribed: bool },
}

/// A stack event delivered to the controller.
#[derive(Clone, Copy, PartialEq, Eq, Debug)]
pub enum GapEvent {
    /// The stack synchronized and resolved the local identity.
    Synced { identity: DeviceIdentity },
    /// A connection attempt ended; status 0 means established.
    Connect { status: i32, conn_handle: u16 },
    /// The connection was lost.
    Disconnect { reason: i32 },
    /// An advertising cycle completed without a connection.
    AdvComplete,
    /// The client changed the notify state of one characteristic.
    Subscribe { attr_handle: u16, cur_notify: bool },
    /// The connection's MTU changed; observational only.
    MtuUpdate { conn_handle: u16, mtu: u16 },
    /// An event type this controller does not know; logged and ignored.
    Unknown { event_type: u32 },
}

/// What the notification scheduler is told to do.
#[derive(Clone, Copy, PartialEq, Eq, Structural, Debug)]
pub enum SchedulerCmd {
    Unchanged,
    Arm,
    Stop,
}

/// The actions an event asks the shell to perform.
#[derive(Clone, Copy, PartialEq, Eq, Structural, Debug)]
pub struct Effects {
    pub start_advertising: bool,
    pub scheduler: SchedulerCmd,
}

/// No actions.
pub open spec fn no_effects() -> Effects {
    Effects { start_advertising: false, scheduler: SchedulerCmd::Unchanged }
}

/// The shared state both execution contexts work on: the session state, the
/// identity resolved at sync, the heart-rate measurement value handle
/// captured at registration, the sample generator's bpm, and the notify flag
/// last observed on any subscribe event (diagnostic only).  Guard a value of
/// this type by one lock when the event handler and the scheduler tick run
/// concurrently.
#[derive(Clone, Copy, PartialEq, Eq, Debug)]
pub struct Session {
    pub state: SessionState,
    pub identity: Option<DeviceIdentity>,
    pub hr_measurement_handle: u16,
    pub bpm: u8,
    pub observed_notify: bool,
}

/// A session is well formed when its bpm is on the simulated ramp and its
/// heart-rate value handle is a real one (0 is never a valid handle).
pub open spec fn session_wf(s: Session) -> bool {
    &&& BASE_BPM <= s.bpm <= MAX_BPM
    &&& s.hr_measurement_handle != 0
}

/// Whether the session is in the Connected-and-Subscribed state.
pub open spec fn is_subscribed(s: Session) -> bool {
    s.state matches SessionState::Connected { subscribed, .. } && subscribed
}

/// The handle of the live connection; meaningful only while Connected.
pub open spec fn conn_handle_of(s: Session) -> u16
    recommends
        s.state is Connected,
{
    s.state->conn_handle
}

/// The state the controller moves to on an event.
///
/// - Sync resolves the identity once (later syncs change nothing) and leaves
///   Idle for Advertising.
/// - A successful connect caches the new connection handle with the
///   subscribed flag clear; a failed attempt leaves the controller
///   advertising.
/// - Disconnect tears the session down: the subscribed flag falls with it.
/// - A subscribe event updates the subscribed flag exactly when it names the
///   heart-rate measurement handle; for any other handle only the diagnostic
///   notify flag moves.  Without a live connection it changes nothing.
/// - Advertising completion, MTU updates and unknown events move no state.
pub open spec fn next_session(s: Session, e: GapEvent) -> Session {
    match e {
        GapEvent::Synced { identity } => if s.identity is None {
            Session { state: SessionState::Advertising, identity: Some(identity), ..s }
        } else {
            s
        },
        GapEvent::Connect { status, conn_handle } => if status == 0 {
            Session { state: SessionState::Connected { conn_handle, subscribed: false }, ..s }
        } else {
            Session { state: SessionState::Advertising, ..s }
        },
        GapEvent::Disconnect { .. } => Session { state: SessionState::Advertising, ..s },
        GapEvent::AdvComplete => s,
        GapEvent::Subscribe { attr_handle, cur_notify } => match s.state {
            SessionState::Connected { conn_handle, subscribed: _ } => if attr_handle
                == s.hr_measurement_handle {
                Session {
                    state: SessionState::Connected { conn_handle, subscribed: cur_notify },
                    observed_notify: cur_notify,
                    ..s
                }
            } else {
                Session { observed_notify: cur_notify, ..s }
            },
            _ => s,
        },
        GapEvent::MtuUpdate { .. } => s,
        GapEvent::Unknown { .. } => s,
    }
}

/// The actions an event asks for.
///
/// - Advertising is (re-)armed when the identity first resolves, when a
///   connection attempt fails, when the connection is lost, and when an
///   advertising cycle completes while still advertising.
/// - The scheduler is armed or stopped exactly when a subscribe event for
///   the heart-rate measurement handle arrives on a live connection, and
///   stopped on disconnect.
pub open spec fn event_effects(s: Session, e: GapEvent) -> Effects {
    match e {
        GapEvent::Synced { .. } => if s.identity is None {
            Effects { start_advertising: true, scheduler: SchedulerCmd::Unchanged }
        } else {
            no_effects()
        },
        GapEvent::Connect { status, .. } => if status == 0 {
            no_effects()
        } else {
            Effects { start_advertising: true, scheduler: SchedulerCmd::Unchanged }
        },
        GapEvent::Disconnect { .. } => Effects {
            start_advertising: true,
            scheduler: SchedulerCmd::Stop,
        },
        GapEvent::AdvComplete => if s.state is Advertising {
            Effects { start_advertising: true, scheduler: SchedulerCmd::Unchanged }
        } else {
            no_effects()
        },
        GapEvent::Subscribe { attr_handle, cur_notify } => if s.state is Connected && attr_handle
            == s.hr_measurement_handle {
            Effects {
                start_advertising: false,
                scheduler: if cur_notify {
                    SchedulerCmd::Arm
                } else {
                    SchedulerCmd::Stop
                },
            }
        } else {
            no_effects()
        },
        GapEvent::MtuUpdate { .. } => no_effects(),
        GapEvent::Unknown { .. } => no_effects(),
    }
}

impl Session {
    /// A fresh controller, before the stack synchronized: no identity, no
    /// connection, the sample generator at its base, holding the heart-rate
    /// measurement value handle that registration captured.
    pub fn new(registration: &crate::catalog::Registration) -> (s: Session)
        requires
            registration.hr_measurement_handle != 0,
        ensures
            s == (Session {
                state: SessionState::Idle,
                identity: None,
                hr_measurement_handle: registration.hr_measurement_handle,
                bpm: BASE_BPM,
                observed_notify: false,
            }),
            session_wf(s),
    {
        Session {
            state: SessionState::Idle,
            identity: None,
            hr_measurement_handle: registration.hr_measurement_handle,
            bpm: BASE_BPM,
            observed_notify: false,
        }
    }

    /// Consumes one stack event: moves to the next state and returns the
    /// actions the shell must perform.
    pub fn handle_event(&mut self, event: GapEvent) -> (e: Effects)
        requires
            session_wf(*old(self)),
        ensures
            *final(self) == next_session(*old(self), event),
            e == event_effects(*old(self), event),
            session_wf(*final(self)),
    {
        match event {
            GapEvent::Synced { identity } => {
                if self.identity.is_none() {
                    self.identity = Some(identity);
                    self.state = SessionState::Advertising;
                    Effects { start_advertising: true, scheduler: SchedulerCmd::Unchanged }
                } else {
                    Effects { start_advertising: false, scheduler: SchedulerCmd::Unchanged }
                }
            },
            GapEvent::Connect { status, conn_handle } => {
                if status == 0 {
                    self.state = SessionState::Connected { conn_handle, subscribed: false };
                    Effects { start_advertising: false, scheduler: SchedulerCmd::Unchanged }
                } else {
                    self.state = SessionState::Advertising;
                    Effects { start_advertising: true, scheduler: SchedulerCmd::Unchanged }
                }
            },
            GapEvent::Disconnect { reason: _ } => {
                self.state = SessionState::Advertising;
                Effects { start_advertising: true, scheduler: SchedulerCmd::Stop }
            },
            GapEvent::AdvComplete => {
                match self.state {
                    SessionState::Advertising => Effects {
                        start_advertising: true,
                        scheduler: SchedulerCmd::Unchanged,
                    },
                    _ => Effects { start_advertising: false, scheduler: SchedulerCmd::Unchanged },
                }
            },
            GapEvent::Subscribe { attr_handle, cur_notify } => {
                match self.state {
                    SessionState::Connected { conn_handle, subscribed: _ } => {
                        if attr_handle == self.hr_measurement_handle {
                            self.state = SessionState::Connected {
                                conn_handle,
                                subscribed: cur_notify,
                            };
                            self.observed_notify = cur_notify;
                            Effects {
                                start_advertising: false,
                                scheduler: if cur_notify {
                                    SchedulerCmd::Arm
                                } else {
                                    SchedulerCmd::Stop
                                },
                            }
                        } else {
                            self.observed_notify = cur_notify;
                            Effects {
                                start_advertising: false,
                                scheduler: SchedulerCmd::Unchanged,
                            }
                        }
                    },
                    _ => Effects { start_advertising: false, scheduler: SchedulerCmd::Unchanged },
                }
            },
            GapEvent::MtuUpdate { .. } => Effects {
                start_advertising: false,
                scheduler: SchedulerCmd::Unchanged,
            },
            GapEvent::Unknown { .. } => Effects {
                start_advertising: false,
                scheduler: SchedulerCmd::Unchanged,
            },
        }
    }
}

/// The subscribed flag lives only inside a live connection: whatever events
/// arrive, a session can be subscribed only while Connected, so tearing the
/// session down clears it atomically.
pub proof fn lemma_subscribed_only_while_connected(s: Session)
    ensures
        is_subscribed(s) ==> s.state is Connected,
{
}

/// After a disconnect the controller is back to Advertising with no leaked
/// subscribed flag, whatever the session's history: a subsequent successful
/// connect yields a fresh unsubscribed session on the new handle, and the
/// old connection handle is held nowhere in between.
pub proof fn lemma_disconnect_then_connect(s: Session, reason: i32, conn_handle: u16)
    ensures
        next_session(s, GapEvent::Disconnect { reason }).state is Advertising,
        !is_subscribed(next_session(s, GapEvent::Disconnect { reason })),
        next_session(
            next_session(s, GapEvent::Disconnect { reason }),
            GapEvent::Connect { status: 0, conn_handle },
        ).state == (SessionState::Connected { conn_handle, subscribed: false }),
{
}

/// Toggling subscribe off for the heart-rate measurement handle leaves the
/// Subscribed state at once: the session is no longer subscribed, so no
/// further notification is owed.
pub proof fn lemma_unsubscribe_leaves_subscribed_state(s: Session)
    ensures
        !is_subscribed(
            next_session(
                s,
                GapEvent::Subscribe { attr_handle: s.hr_measurement_handle, cur_notify: false },
            ),
        ),
{
}

} // verus!
