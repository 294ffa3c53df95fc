//! The notification scheduler: the periodic tick that builds a heart-rate
//! sample, advances the simulated bpm, and decides whether a notification
//! goes out and whether the timer is re-armed.

use vstd::prelude::*;
use crate::session::{
    Session, SessionState, session_wf, is_subscribed, conn_handle_of, BASE_BPM, MAX_BPM,
};

verus! {

/// Flags byte of every heart-rate measurement sample: sensor contact
/// detected, 8-bit value format.
pub const SAMPLE_FLAGS: u8 = 0x06;

/// The scheduler's fixed period in milliseconds; the shell re-arms its timer
/// for this long after every emitted notification.
pub const TICK_PERIOD_MS: u32 = 1000;

/// The bpm a tick leaves behind: one higher, wrapping back to the base
/// after the top of the ramp.
pub open spec fn next_bpm(b: u8) -> u8 {
    if b >= MAX_BPM {
        BASE_BPM
    } else {
        (b + 1) as u8
    }
}

/// The two-byte payload of one heart-rate measurement sample.
pub open spec fn sample_payload(bpm: u8) -> Seq<u8> {
    seq![SAMPLE_FLAGS, bpm]
}

/// A notification handed to the stack: the live connection, the heart-rate
/// measurement value handle, and the sample bytes.
#[derive(Clone, PartialEq, Eq, Debug)]
pub struct Notification {
    pub conn_handle: u16,
    pub attr_handle: u16,
    pub payload: Vec<u8>,
}

/// What one tick decides: emit a notification (and re-arm the timer for the
/// next period), or stop the timer.
#[derive(Clone, PartialEq, Eq, Debug)]
pub enum TickOutcome {
    Emit(Notification),
    Stop,
}

/// What a tick does to the session: only the sample generator moves.  While
/// subscribed it advances along the ramp; otherwise it resets to the base.
pub open spec fn tick_bpm(s: Session) -> u8 {
    if is_subscribed(s) {
        next_bpm(s.bpm)
    } else {
        BASE_BPM
    }
}

/// The outcome a tick owes for the session it saw: exactly in the Subscribed
/// state, a notification carrying the sample of the bpm before the tick,
/// addressed to the live connection and the heart-rate measurement handle.
pub open spec fn tick_outcome_ok(s: Session, o: TickOutcome) -> bool {
    if is_subscribed(s) {
        &&& o matches TickOutcome::Emit(n)
        &&& n.conn_handle == conn_handle_of(s)
        &&& n.attr_handle == s.hr_measurement_handle
        &&& n.payload@ == sample_payload(s.bpm)
    } else {
        o is Stop
    }
}

/// One scheduler tick.  When the session is subscribed it builds the
/// two-byte sample of the current bpm, advances the bpm along the ramp, and
/// emits; otherwise it stops the timer and resets the generator, emitting
/// nothing.  A notification is returned if and only if the session is in the
/// Subscribed state.
pub fn tick(session: &mut Session) -> (o: TickOutcome)
    requires
        session_wf(*old(session)),
    ensures
        *final(session) == (Session { bpm: tick_bpm(*old(session)), ..*old(session) }),
        session_wf(*final(session)),
        tick_outcome_ok(*old(session), o),
        o is Emit <==> is_subscribed(*old(session)),
{
    let subscribed_handle: Option<u16> = match session.state {
        SessionState::Connected { conn_handle, subscribed } => if subscribed {
            Some(conn_handle)
        } else {
            None
        },
        _ => None,
    };
    match subscribed_handle {
        Some(conn_handle) => {
            let mut payload: Vec<u8> = Vec::new();
            payload.push(SAMPLE_FLAGS);
            payload.push(session.bpm);
            session.bpm = if session.bpm >= MAX_BPM {
                BASE_BPM
            } else {
                session.bpm + 1
            };
            assert(payload@ =~= sample_payload(old(session).bpm));
            TickOutcome::Emit(
                Notification {
                    conn_handle,
                    attr_handle: session.hr_measurement_handle,
                    payload,
                },
            )
        },
        None => {
            session.bpm = BASE_BPM;
            TickOutcome::Stop
        },
    }
}

/// The bpm after k ticks spent in the Subscribed state, starting from the
/// base value.
pub open spec fn bpm_after(k: nat) -> u8
    decreases k,
{
    if k == 0 {
        BASE_BPM
    } else {
        next_bpm(bpm_after((k - 1) as nat))
    }
}

/// The sample values cycle: starting at 90 and incrementing by one per
/// subscribed tick, the bpm runs 90, 91, ..., 159 and wraps back to 90
/// exactly when it would reach 160.
pub proof fn lemma_bpm_cycles(k: nat)
    ensures
        bpm_after(k) == BASE_BPM + k % 70,
    decreases k,
{
    if k > 0 {
        lemma_bpm_cycles((k - 1) as nat);
        let km1 = (k - 1) as int;
        vstd::arithmetic::div_mod::lemma_fundamental_div_mod(km1, 70);
        vstd::arithmetic::div_mod::lemma_mod_bound(km1, 70);
        let q = km1 / 70;
        let r = km1 % 70;
        if r == 69 {
            vstd::arithmetic::div_mod::lemma_fundamental_div_mod_converse(
                km1 + 1,
                70,
                q + 1,
                0,
            );
        } else {
            vstd::arithmetic::div_mod::lemma_fundamental_div_mod_converse(km1 + 1, 70, q, r + 1);
        }
    }
}

/// A notification is emitted if and only if the session the tick saw was in
/// the Subscribed state; in every other state a tick emits nothing at all.
pub proof fn lemma_notify_iff_subscribed(s: Session, o: TickOutcome)
    requires
        tick_outcome_ok(s, o),
    ensures
        o is Emit <==> is_subscribed(s),
{
}

/// While subscribed, a tick advances the sample generator one step along
/// that cycle.
pub proof fn lemma_tick_advances_cycle(s: Session, k: nat)
    requires
        is_subscribed(s),
        s.bpm == bpm_after(k),
    ensures
        tick_bpm(s) == bpm_after(k + 1),
{
}

} // verus!
