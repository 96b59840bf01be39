//! The decisions of the flight controller's control loop that come before any attitude math:
//! whether the control link is alive, arming and disarming, when to hold or re-take the heading,
//! and when to cut the motors.
//!
//! Each tick, the loop first calls [`ControlState::begin_tick`] with the latest control packet
//! and its age, then (once it has an attitude estimate and the quad is armed)
//! [`ControlState::plan_flight`].
use vstd::prelude::*;

use crate::control::{has_bit, ControlPacket, ARMED_MASK};

verus! {

/// A control packet older than this (in microseconds) no longer counts: the link is in
/// failsafe.
pub const FAILSAFE_TIMEOUT_US: u64 = 500_000;

/// Below this throttle (percent; 0.15 of full throttle) the quad is taken to be near the ground:
/// the heading target keeps tracking the actual heading so handling the quad builds no yaw error.
pub const GROUND_THROTTLE: u8 = 15;

/// Below this throttle (percent; 0.05 of full throttle) the motors are cut instead of mixed.
pub const CUTOFF_THROTTLE: u8 = 5;

/// How the armed state changed on this tick.
#[derive(Debug, Clone, Copy, PartialEq, Eq, Structural)]
pub enum ArmEdge {
    /// Disarmed on the last tick, armed now: the rate controllers restart and the heading is
    /// taken anew.
    Armed,
    /// Armed on the last tick, disarmed now.
    Disarmed,
    /// No change.
    Unchanged,
}

/// What the start of a tick decided.
#[derive(Debug, Clone, Copy, PartialEq, Eq, Structural)]
pub struct TickStart {
    /// Whether a control packet arrived within the failsafe timeout; telemetry reports the
    /// failsafe as its negation.
    pub fresh: bool,
    /// Whether the quad flies this tick: the link is fresh and the packet asks to be armed.
    /// When not, the motors are turned off.
    pub armed: bool,
    /// How the armed state changed.
    pub edge: ArmEdge,
}

/// What an armed tick does with the pilot's commands.
#[derive(Debug, Clone, Copy, PartialEq, Eq, Structural)]
pub struct FlightPlan {
    /// Whether the heading target is set to the actual heading this tick.
    pub retarget_yaw: bool,
    /// Whether the motors are turned off instead of mixed this tick.
    pub cut_motors: bool,
}

/// State the control loop keeps from tick to tick, besides its controllers.
#[derive(Debug, Clone, Copy, PartialEq, Eq, Structural)]
pub struct ControlState {
    /// Whether the last tick was armed.
    pub last_armed: bool,
    /// Whether the heading target has been taken since the quad was last armed.
    pub yaw_init: bool,
}

/// Whether the latest packet, received `age` microseconds ago, keeps the link alive.
pub open spec fn link_fresh(latest: Option<(ControlPacket, u64)>) -> bool {
    match latest {
        Some((_, age)) => age < FAILSAFE_TIMEOUT_US,
        None => false,
    }
}

/// Whether the quad is armed given the latest packet: the link is fresh and the packet says so.
pub open spec fn link_armed(latest: Option<(ControlPacket, u64)>) -> bool {
    match latest {
        Some((p, _)) => link_fresh(latest) && has_bit(p.flag_byte(), ARMED_MASK),
        None => false,
    }
}

/// How the armed state changes from `last` to `now`.
pub open spec fn arm_edge(last: bool, now: bool) -> ArmEdge {
    if !last && now {
        ArmEdge::Armed
    } else if last && !now {
        ArmEdge::Disarmed
    } else {
        ArmEdge::Unchanged
    }
}

/// The state after the start of a tick that found the quad `armed`.
pub open spec fn state_after_begin(s: ControlState, armed: bool) -> ControlState {
    ControlState {
        last_armed: armed,
        yaw_init: if arm_edge(s.last_armed, armed) == ArmEdge::Armed {
            false
        } else {
            s.yaw_init
        },
    }
}

/// Whether an armed tick takes the actual heading as its target: on the first armed tick, near
/// the ground, and while the pilot pushes the yaw stick (heading hold only once it is released).
pub open spec fn retargets_yaw(s: ControlState, throttle: u8, yaw_stick_active: bool) -> bool {
    !s.yaw_init || throttle < GROUND_THROTTLE || yaw_stick_active
}

impl ControlState {
    /// The state before the first tick: disarmed, no heading taken.
    pub fn new() -> (r: Self)
        ensures
            !r.last_armed,
            !r.yaw_init,
    {
        ControlState { last_armed: false, yaw_init: false }
    }

    /// Starts a tick with the latest control packet, if one was ever received, and its age in
    /// microseconds.
    pub fn begin_tick(&mut self, latest: Option<(ControlPacket, u64)>) -> (r: TickStart)
        ensures
            r.fresh == link_fresh(latest),
            r.armed == link_armed(latest),
            r.edge == arm_edge(old(self).last_armed, r.armed),
            *final(self) == state_after_begin(*old(self), r.armed),
            latest is None ==> !r.fresh && !r.armed,
            latest matches Some((p, age)) ==> r.fresh == (age < 500_000) && r.armed == (age
                < 500_000 && p.flag_byte() & 0x01 != 0),
            (r.edge == ArmEdge::Armed) == (!old(self).last_armed && r.armed),
            (r.edge == ArmEdge::Disarmed) == (old(self).last_armed && !r.armed),
            final(self).last_armed == r.armed,
            final(self).yaw_init == (old(self).yaw_init && r.edge != ArmEdge::Armed),
    {
        let (fresh, armed) = match latest {
            Some((p, age)) => {
                let fresh = age < FAILSAFE_TIMEOUT_US;
                (fresh, fresh && p.armed())
            },
            None => (false, false),
        };
        let edge = if !self.last_armed && armed {
            self.yaw_init = false;
            ArmEdge::Armed
        } else if self.last_armed && !armed {
            ArmEdge::Disarmed
        } else {
            ArmEdge::Unchanged
        };
        self.last_armed = armed;
        TickStart { fresh, armed, edge }
    }

    /// Plans an armed tick flown with `pkt`; `yaw_stick_active` says whether the yaw stick is out
    /// of its deadzone.
    pub fn plan_flight(&mut self, pkt: &ControlPacket, yaw_stick_active: bool) -> (r: FlightPlan)
        ensures
            r.retarget_yaw == retargets_yaw(*old(self), pkt.throttle, yaw_stick_active),
            r.cut_motors == (pkt.throttle < CUTOFF_THROTTLE),
            r.retarget_yaw == (!old(self).yaw_init || pkt.throttle < 15 || yaw_stick_active),
            r.cut_motors == (pkt.throttle < 5),
            final(self).yaw_init,
            final(self).last_armed == old(self).last_armed,
    {
        let retarget_yaw = !self.yaw_init || pkt.throttle < GROUND_THROTTLE || yaw_stick_active;
        self.yaw_init = true;
        FlightPlan { retarget_yaw, cut_motors: pkt.throttle < CUTOFF_THROTTLE }
    }
}

/// Proves the failsafe: the quad is armed only on a fresh link, so with no packet, or a packet
/// older than the timeout, it is disarmed and its motors are off.
pub proof fn law_failsafe_disarms(latest: Option<(ControlPacket, u64)>)
    ensures
        link_armed(latest) ==> link_fresh(latest),
        !link_fresh(latest) ==> !link_armed(latest),
        latest is None ==> !link_armed(latest),
{
}

/// Proves that the quad's armed state depends only on the link's freshness and the packet's
/// armed bit (bit 0 of the flag byte): never on the throttle or the stick commands. A fresh
/// packet with the armed bit set arms the quad even at zero throttle, which is what the ground
/// station sends right after arming.
pub proof fn law_armed_is_fresh_armed_bit(p: ControlPacket, age: u64)
    ensures
        link_fresh(Some((p, age))) == (age < 500_000),
        link_armed(Some((p, age))) == (age < 500_000 && p.flag_byte() & 0x01 != 0),
        !link_fresh(None),
        !link_armed(None),
{
    let f = p.flag_byte();
    assert((f & 0x01u8 != 0) == (f & 0x01u8 != 0)) by (bit_vector);
}

/// Proves that the arming edges are what they say: `Armed` exactly when the quad was disarmed
/// and is now armed, `Disarmed` exactly on the reverse, `Unchanged` otherwise.
pub proof fn law_arm_edges(last: bool, now: bool)
    ensures
        (arm_edge(last, now) == ArmEdge::Armed) == (!last && now),
        (arm_edge(last, now) == ArmEdge::Disarmed) == (last && !now),
        (arm_edge(last, now) == ArmEdge::Unchanged) == (last == now),
        state_after_begin(ControlState { last_armed: last, yaw_init: true }, now).yaw_init == (
        last || !now),
        state_after_begin(ControlState { last_armed: last, yaw_init: false }, now).yaw_init
            == false,
        state_after_begin(ControlState { last_armed: last, yaw_init: true }, now).last_armed == now,
{
}

/// Proves that the pilot's yaw stick always moves the heading target: with the stick out of its
/// deadzone an armed tick re-takes the heading, whatever the state and the throttle.
pub proof fn law_yaw_stick_retakes_heading(s: ControlState, throttle: u8)
    ensures
        retargets_yaw(s, throttle, true),
{
}

/// Proves exactly when an armed tick re-takes the heading: on the first tick after arming, below
/// 15 % throttle, or with the yaw stick pushed, and only then.
pub proof fn law_retarget_exactly(s: ControlState, throttle: u8, yaw_stick_active: bool)
    ensures
        retargets_yaw(s, throttle, yaw_stick_active) == (!s.yaw_init || throttle < 15
            || yaw_stick_active),
{
}

/// Proves the motor cutoff and ground thresholds: the motors are cut exactly below 5 % throttle,
/// and the heading tracks the actual one exactly below 15 %.
pub proof fn law_throttle_thresholds()
    ensures
        CUTOFF_THROTTLE == 5,
        GROUND_THROTTLE == 15,
        FAILSAFE_TIMEOUT_US == 500_000,
{
}

/// Proves that arming re-takes the heading: after a tick whose start armed the quad, the first
/// armed tick takes the actual heading as its target, whatever the sticks say.
pub proof fn law_arming_retakes_heading(s: ControlState, throttle: u8, yaw_stick_active: bool)
    requires
        !s.last_armed,
    ensures
        arm_edge(s.last_armed, true) == ArmEdge::Armed,
        retargets_yaw(state_after_begin(s, true), throttle, yaw_stick_active),
{
}

/// Proves that the heading target tracks the actual heading whenever the motors are cut, so a
/// quad idling on the ground builds no yaw error.
pub proof fn law_cut_motors_track_heading(s: ControlState, throttle: u8, yaw_stick_active: bool)
    requires
        throttle < CUTOFF_THROTTLE,
    ensures
        retargets_yaw(s, throttle, yaw_stick_active),
{
}

/// Proves that a steady armed state never re-takes the heading by itself: once armed and the
/// heading taken, only low throttle or the yaw stick move the target.
pub proof fn law_heading_hold(s: ControlState, throttle: u8)
    requires
        s.last_armed,
        s.yaw_init,
        throttle >= GROUND_THROTTLE,
    ensures
        arm_edge(s.last_armed, true) == ArmEdge::Unchanged,
        !retargets_yaw(state_after_begin(s, true), throttle, false),
{
}

} // verus!
