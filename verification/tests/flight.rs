use libs::control::ControlPacket;
use libs::flight::{ArmEdge, ControlState, FAILSAFE_TIMEOUT_US};

fn pkt(throttle: u8, armed: bool) -> ControlPacket {
    ControlPacket::new(throttle, 0, 0, 0, armed)
}

#[test]
fn no_packet_or_stale_packet_is_failsafe() {
    let mut s = ControlState::new();
    let t = s.begin_tick(None);
    assert!(!t.fresh && !t.armed);
    assert_eq!(t.edge, ArmEdge::Unchanged);
    let t = s.begin_tick(Some((pkt(50, true), FAILSAFE_TIMEOUT_US)));
    assert!(!t.fresh && !t.armed);
    let t = s.begin_tick(Some((pkt(50, true), 499_999)));
    assert!(t.fresh && t.armed);
    assert_eq!(t.edge, ArmEdge::Armed);
}

#[test]
fn arming_edges_and_heading_latch() {
    let mut s = ControlState::new();
    let t = s.begin_tick(Some((pkt(50, true), 0)));
    assert_eq!(t.edge, ArmEdge::Armed);
    let plan = s.plan_flight(&pkt(50, true), false);
    assert!(plan.retarget_yaw); // first armed tick takes the heading
    assert!(!plan.cut_motors);
    let t = s.begin_tick(Some((pkt(50, true), 10)));
    assert_eq!(t.edge, ArmEdge::Unchanged);
    let plan = s.plan_flight(&pkt(50, true), false);
    assert!(!plan.retarget_yaw); // heading hold
    assert!(s.plan_flight(&pkt(50, true), true).retarget_yaw); // yaw stick pushed
    assert!(s.plan_flight(&pkt(14, true), false).retarget_yaw); // near the ground
    assert!(!s.plan_flight(&pkt(15, true), false).retarget_yaw);
    let t = s.begin_tick(Some((pkt(50, false), 10)));
    assert!(t.fresh && !t.armed);
    assert_eq!(t.edge, ArmEdge::Disarmed);
    let t = s.begin_tick(Some((pkt(50, true), 10)));
    assert_eq!(t.edge, ArmEdge::Armed);
    assert!(s.plan_flight(&pkt(50, true), false).retarget_yaw); // re-arming retakes the heading
}

#[test]
fn low_throttle_cuts_motors() {
    let mut s = ControlState::new();
    s.begin_tick(Some((pkt(4, true), 0)));
    let plan = s.plan_flight(&pkt(4, true), false);
    assert!(plan.cut_motors);
    assert!(plan.retarget_yaw);
    assert!(!s.plan_flight(&pkt(5, true), false).cut_motors);
}
