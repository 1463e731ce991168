use mock_udp::buffer::Buffer;
use mock_udp::endpoint::{UdpReceiver, UdpSender};
use mock_udp::port_table::{SocketState, UdpPortTable, MAX_NUM_BOUND_PORTS};
use mock_udp::session::{dst_addr, BindOutcome, IpAddr, MockUdp1, PAYLOAD_LEN};

fn session(id: u16, src_port: u16, dst_port: u16) -> MockUdp1 {
    let dgram = Buffer::new(vec![0xaa; PAYLOAD_LEN]);
    MockUdp1::new(id, UdpSender::new(), UdpReceiver::new(), dgram, src_port, dst_port)
}

fn bound_port(s: &MockUdp1) -> Option<u16> {
    match (s.udp_sender().is_bound(), s.udp_receiver().is_bound()) {
        (true, true) => Some(s.src_port()),
        _ => None,
    }
}

#[test]
fn start_binds_and_schedules_first_send() {
    let mut table = UdpPortTable::new();
    let mut s = session(7, 100, 200);
    let (alarm, outcome) = s.start(&mut table, 1_000, 32_768);
    assert_eq!(outcome, BindOutcome::Bound(100));
    assert_eq!(alarm, 1_000 + 5 * 32_768);
    assert_eq!(bound_port(&s), Some(100));
    assert_eq!(table.slot_state(0), SocketState::Bound(100));
    assert_eq!(s.id(), 7);
    assert_eq!(s.dst_port(), 200);
}

#[test]
fn rebind_moves_to_new_port() {
    let mut table = UdpPortTable::new();
    let mut s = session(7, 100, 200);
    s.start(&mut table, 0, 1);
    let outcome = s.rebind(&mut table, 300);
    assert_eq!(outcome, BindOutcome::Bound(300));
    assert_eq!(s.src_port(), 300);
    assert_eq!(bound_port(&s), Some(300));
    assert_eq!(table.slot_state(0), SocketState::Bound(300));
    assert!(!table.is_bound(100));
}

#[test]
fn rebind_to_same_port_succeeds() {
    let mut table = UdpPortTable::new();
    let mut s = session(1, 100, 200);
    s.start(&mut table, 0, 1);
    assert_eq!(s.rebind(&mut table, 100), BindOutcome::Bound(100));
    assert_eq!(table.slot_state(0), SocketState::Bound(100));
}

#[test]
fn repeated_rebinds_stay_bound() {
    let mut table = UdpPortTable::new();
    let mut s = session(1, 100, 200);
    s.start(&mut table, 0, 1);
    for p in [101u16, 102, 103, 100] {
        assert_eq!(s.rebind(&mut table, p), BindOutcome::Bound(p));
        assert_eq!(bound_port(&s), Some(p));
    }
}

#[test]
fn send_encodes_value_big_endian() {
    let mut s = session(7, 100, 200);
    let req = s.send(0x1234).expect("buffer held");
    assert_eq!(req.dgram.to_vec(), vec![0x12, 0x34]);
    assert_eq!(req.dgram.len(), 2);
    assert_eq!(req.dgram.capacity(), PAYLOAD_LEN);
    assert_eq!(req.dst_port, 200);
    assert_eq!(req.dst_addr, dst_addr());
    assert!(!s.has_dgram());
}

#[test]
fn send_extremes() {
    for (v, bytes) in [(0u16, [0u8, 0u8]), (0xffff, [0xff, 0xff]), (0x00ff, [0x00, 0xff]), (0x0100, [0x01, 0x00])] {
        let mut s = session(1, 100, 200);
        let req = s.send(v).unwrap();
        assert_eq!(req.dgram.to_vec(), bytes.to_vec());
    }
}

#[test]
fn second_send_in_flight_is_noop() {
    let mut s = session(7, 100, 200);
    let first = s.send(0x1234).unwrap();
    assert!(s.send(0xbeef).is_none());
    assert!(!s.has_dgram());
    assert_eq!(first.dgram.to_vec(), vec![0x12, 0x34]);
}

#[test]
fn send_done_returns_buffer_and_rearms() {
    let mut s = session(7, 100, 200);
    let req = s.send(0x1234).unwrap();
    let alarm = s.send_done(req.dgram, 50, 10).ok().unwrap();
    assert_eq!(alarm, 100);
    assert!(s.has_dgram());
    let again = s.send(0x0102).unwrap();
    assert_eq!(again.dgram.to_vec(), vec![0x01, 0x02]);
}

#[test]
fn send_done_resets_full_length() {
    let mut s = session(7, 100, 200);
    let req = s.send(1).unwrap();
    s.send_done(req.dgram, 0, 1).ok().unwrap();
    let again = s.send(2).unwrap();
    assert_eq!(again.dgram.capacity(), PAYLOAD_LEN);
}

#[test]
fn send_done_while_holding_buffer_is_refused() {
    let mut s = session(7, 100, 200);
    let extra = Buffer::new(vec![1, 2, 3]);
    let back = s.send_done(extra, 0, 1).err().unwrap();
    assert_eq!(back.to_vec(), vec![1, 2, 3]);
    let req = s.send(9).unwrap();
    assert_eq!(req.dgram.capacity(), PAYLOAD_LEN);
}

#[test]
fn send_done_refuses_short_buffer() {
    let mut s = session(7, 100, 200);
    let _req = s.send(1).unwrap();
    assert!(s.send_done(Buffer::new(vec![1]), 0, 1).is_err());
    assert!(!s.has_dgram());
}

#[test]
fn fired_sends_id() {
    let mut s = session(0x0a0b, 100, 200);
    let req = s.fired().unwrap();
    assert_eq!(req.dgram.to_vec(), vec![0x0a, 0x0b]);
}

#[test]
fn period_is_five_units_with_immediate_completion() {
    let mut table = UdpPortTable::new();
    let mut s = session(7, 100, 200);
    let (mut alarm, _) = s.start(&mut table, 0, 1000);
    let mut fires = Vec::new();
    for _ in 0..4 {
        fires.push(alarm);
        let req = s.fired().unwrap();
        alarm = s.send_done(req.dgram, alarm, 1000).ok().unwrap();
    }
    assert_eq!(fires, vec![5000, 10000, 15000, 20000]);
}

#[test]
fn alarm_wraps() {
    let mut s = session(7, 100, 200);
    let req = s.send(1).unwrap();
    let alarm = s.send_done(req.dgram, u32::MAX - 1, 2).ok().unwrap();
    assert_eq!(alarm, 8);
}

#[test]
fn mismatched_bindings_leave_everything_unchanged() {
    let mut table = UdpPortTable::new();
    let mut a = session(1, 100, 200);
    let mut b = session(2, 101, 201);
    assert_eq!(a.start(&mut table, 0, 1).1, BindOutcome::Bound(100));
    assert_eq!(b.start(&mut table, 0, 1).1, BindOutcome::Bound(101));
    let a_send = a.udp_sender_mut().get_binding().unwrap();
    let b_send = b.udp_sender_mut().get_binding().unwrap();
    a.udp_sender_mut().set_binding(b_send);
    b.udp_sender_mut().set_binding(a_send);

    assert_eq!(a.rebind(&mut table, 300), BindOutcome::UnbindMismatch);
    assert_eq!(a.src_port(), 100);
    assert_eq!(a.dst_port(), 200);
    assert!(a.udp_sender().is_bound());
    assert!(a.udp_receiver().is_bound());
    assert_eq!(table.slot_state(0), SocketState::Bound(100));
    assert_eq!(table.slot_state(1), SocketState::Bound(101));
    assert!(!table.is_bound(300));
}

#[test]
fn start_with_port_zero_fails_and_releases_socket() {
    let mut table = UdpPortTable::new();
    let mut s = session(7, 0, 200);
    let (alarm, outcome) = s.start(&mut table, 3, 1);
    assert_eq!(alarm, 8);
    assert_eq!(outcome, BindOutcome::BindFailed(0));
    assert_eq!(bound_port(&s), None);
    assert_eq!(table.slot_state(0), SocketState::Free);
}

#[test]
fn start_on_taken_port_fails() {
    let mut table = UdpPortTable::new();
    let mut a = session(1, 100, 200);
    let mut b = session(2, 100, 200);
    a.start(&mut table, 0, 1);
    assert_eq!(b.start(&mut table, 0, 1).1, BindOutcome::BindFailed(100));
    assert_eq!(table.slot_state(1), SocketState::Free);
    assert!(!b.udp_sender().is_bound());
}

#[test]
fn start_without_free_socket_fails() {
    let mut table = UdpPortTable::new();
    let mut held = Vec::new();
    for _ in 0..MAX_NUM_BOUND_PORTS {
        held.push(table.create_socket().ok().unwrap());
    }
    let mut s = session(7, 100, 200);
    let (alarm, outcome) = s.start(&mut table, 0, 2);
    assert_eq!(alarm, 10);
    assert_eq!(outcome, BindOutcome::SocketFailed);
    assert_eq!(bound_port(&s), None);
}

#[test]
fn rebind_to_taken_port_unbinds() {
    let mut table = UdpPortTable::new();
    let mut a = session(1, 100, 200);
    let mut b = session(2, 101, 200);
    a.start(&mut table, 0, 1);
    b.start(&mut table, 0, 1);
    assert_eq!(a.rebind(&mut table, 101), BindOutcome::BindFailed(101));
    assert_eq!(a.src_port(), 101);
    assert_eq!(bound_port(&a), None);
    assert_eq!(table.slot_state(0), SocketState::Free);
    assert!(!table.is_bound(100));
}

#[test]
fn rebind_to_zero_unbinds() {
    let mut table = UdpPortTable::new();
    let mut a = session(1, 100, 200);
    a.start(&mut table, 0, 1);
    assert_eq!(a.rebind(&mut table, 0), BindOutcome::BindFailed(0));
    assert!(!a.udp_receiver().is_bound());
}

#[test]
fn set_dst_changes_next_send() {
    let mut s = session(7, 100, 200);
    s.set_dst(4242);
    assert_eq!(s.dst_port(), 4242);
    assert_eq!(s.send(1).unwrap().dst_port, 4242);
}

#[test]
fn receive_reports_datagram() {
    let s = session(7, 100, 200);
    let from = IpAddr([1; 16]);
    let r = s.receive(from, dst_addr(), 555, 100, &[9, 8, 7]);
    assert_eq!(r.src_addr, from);
    assert_eq!(r.src_port, 555);
    assert_eq!(r.payload, vec![9, 8, 7]);
    let empty = s.receive(from, dst_addr(), 1, 100, &[]);
    assert!(empty.payload.is_empty());
}

#[test]
fn dst_addr_is_fixed() {
    let expected: Vec<u8> = (0x10u8..0x20).collect();
    assert_eq!(dst_addr().0.to_vec(), expected);
}

#[test]
fn unbind_of_unpaired_bindings_fails() {
    let mut table = UdpPortTable::new();
    let s1 = table.create_socket().ok().unwrap();
    let s2 = table.create_socket().ok().unwrap();
    let (tx1, rx1) = table.bind(s1, 10).ok().unwrap();
    let (tx2, rx2) = table.bind(s2, 11).ok().unwrap();
    let (tx1, rx2) = table.unbind(tx1, rx2).err().unwrap();
    assert_eq!(tx1.get_port(), 10);
    assert_eq!(rx2.get_port(), 11);
    assert!(table.unbind(tx2, rx1).is_err());
    assert_eq!(table.slot_state(0), SocketState::Bound(10));
}

#[test]
fn buffer_slice_and_reset() {
    let mut b = Buffer::new(vec![1, 2, 3, 4]);
    b.set(0, 9);
    b.slice(2);
    assert_eq!(b.to_vec(), vec![9, 2]);
    b.reset();
    assert_eq!(b.to_vec(), vec![9, 2, 3, 4]);
}
