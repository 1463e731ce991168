use vstd::prelude::*;
use crate::buffer::Buffer;
use crate::endpoint::{lemma_receiver_ext, lemma_sender_ext, UdpReceiver, UdpSender};
use crate::port_table::{
    has_free_slot, paired, port_available, port_in_use, SocketState, UdpPortTable,
    UdpSocket,
};

verus! {

/// Capacity of the datagram buffer that a session is usually given.
pub const PAYLOAD_LEN: usize = 192;

/// Timer units between the end of one send and the start of the next.
pub const SEND_PERIOD: u32 = 5;

/// A 16-byte network address.
#[derive(Clone, Copy, Debug, PartialEq, Eq)]
pub struct IpAddr(pub [u8; 16]);

pub open spec fn dst_addr_bytes() -> Seq<u8> {
    seq![
        0x10u8, 0x11u8, 0x12u8, 0x13u8, 0x14u8, 0x15u8, 0x16u8, 0x17u8,
        0x18u8, 0x19u8, 0x1au8, 0x1bu8, 0x1cu8, 0x1du8, 0x1eu8, 0x1fu8,
    ]
}

/// The fixed address that every send of a session goes to.
pub fn dst_addr() -> (r: IpAddr)
    ensures
        r.0@ == dst_addr_bytes(),
{
    let r = IpAddr([
        0x10, 0x11, 0x12, 0x13, 0x14, 0x15, 0x16, 0x17, 0x18, 0x19, 0x1a, 0x1b, 0x1c, 0x1d, 0x1e,
        0x1f,
    ]);
    assert(r.0@ =~= dst_addr_bytes());
    r
}

/// `value` in two bytes, high byte first.
pub open spec fn be_bytes(value: u16) -> Seq<u8> {
    seq![(value / 256) as u8, (value % 256) as u8]
}

/// The tick at which the alarm goes off `SEND_PERIOD` units after `now`, on a
/// clock of `ticks_per_unit` ticks per unit that wraps at 2^32.
pub open spec fn alarm_deadline(now: u32, ticks_per_unit: u32) -> u32 {
    ((now + SEND_PERIOD * ticks_per_unit) % 0x1_0000_0000) as u32
}

/// `i` is the first free slot of `slots`.
pub open spec fn first_free(slots: Seq<SocketState>, i: int) -> bool {
    &&& 0 <= i < slots.len()
    &&& slots[i] == SocketState::Free
    &&& forall|j: int| 0 <= j < i ==> slots[j] != SocketState::Free
}

/// Replacing a slot that holds no port by another that holds none leaves
/// every port as bound as it was.
proof fn lemma_port_in_use_keeps(slots: Seq<SocketState>, i: int, st: SocketState)
    requires
        0 <= i < slots.len(),
        slots[i] is Free || slots[i] is Unbound,
        st is Free || st is Unbound,
    ensures
        forall|p: u16| #[trigger] port_in_use(slots.update(i, st), p) == port_in_use(slots, p),
{
    assert forall|p: u16| #[trigger] port_in_use(slots.update(i, st), p) == port_in_use(slots, p) by {
        if port_in_use(slots, p) {
            let k = choose|k: int| 0 <= k < slots.len() && slots[k] == SocketState::Bound(p);
            assert(slots.update(i, st)[k] == SocketState::Bound(p));
        }
        if port_in_use(slots.update(i, st), p) {
            let k = choose|k: int|
                0 <= k < slots.len() && slots.update(i, st)[k] == SocketState::Bound(p);
            assert(slots[k] == SocketState::Bound(p));
        }
    }
}

/// The tick `SEND_PERIOD` units after `now`.
fn next_alarm(now: u32, ticks_per_unit: u32) -> (r: u32)
    requires
        SEND_PERIOD * ticks_per_unit <= u32::MAX,
    ensures
        r == alarm_deadline(now, ticks_per_unit),
{
    now.wrapping_add(SEND_PERIOD * ticks_per_unit)
}

/// `new` and `r` are what a send of `value` from `old` leaves: with the
/// buffer held, the buffer goes out holding exactly the two bytes of `value`;
/// with it in flight, nothing goes out and nothing changes.
pub open spec fn send_step(old: MockUdp1, new: MockUdp1, value: u16, r: Option<SendRequest>) -> bool {
    match old.dgram() {
        Some(b) => {
            &&& r matches Some(req)
            &&& req.dgram@ == be_bytes(value)
            &&& req.dgram.wf()
            &&& req.dgram.storage() == b.storage().update(0, be_bytes(value)[0]).update(
                1,
                be_bytes(value)[1],
            )
            &&& req.dst_port == old.spec_dst_port()
            &&& req.dst_addr.0@ == dst_addr_bytes()
            &&& new.dgram() is None
            &&& new.spec_id() == old.spec_id()
            &&& new.spec_src_port() == old.spec_src_port()
            &&& new.spec_dst_port() == old.spec_dst_port()
            &&& new.sender() == old.sender()
            &&& new.receiver() == old.receiver()
        },
        None => r is None && new == old,
    }
}

/// How a bind, a rebind or the socket request before them ended.
#[derive(PartialEq, Eq, Structural, Clone, Copy, Debug)]
pub enum BindOutcome {
    /// The socket is bound to the port.
    Bound(u16),
    /// The port table had no free socket.
    SocketFailed,
    /// The port table refused the port; the socket was released.
    BindFailed(u16),
    /// The installed bindings are not a pair; nothing changed.
    UnbindMismatch,
}

/// A datagram that the session hands to the transport.
pub struct SendRequest {
    pub dst_addr: IpAddr,
    pub dst_port: u16,
    pub dgram: Buffer,
}

/// What the session reports of a datagram that arrived.
pub struct Received {
    pub src_addr: IpAddr,
    pub src_port: u16,
    pub payload: Vec<u8>,
}

/// One UDP socket's session: it binds a source port, sends to a destination
/// port each time its alarm goes off, and reports what it receives.
pub struct MockUdp1 {
    id: u16,
    udp_sender: UdpSender,
    udp_receiver: UdpReceiver,
    udp_dgram: Option<Buffer>,
    src_port: u16,
    dst_port: u16,
}

/// The sender and receiver hold a pair of bindings to `port`.
pub open spec fn bound_to(sender: UdpSender, receiver: UdpReceiver, port: u16) -> bool {
    &&& sender.binding() matches Some(s)
    &&& receiver.binding() matches Some(r)
    &&& paired(s, r)
    &&& s.spec_port() == port
}

impl MockUdp1 {
    pub closed spec fn spec_id(&self) -> u16 {
        self.id
    }

    pub closed spec fn sender(&self) -> UdpSender {
        self.udp_sender
    }

    pub closed spec fn receiver(&self) -> UdpReceiver {
        self.udp_receiver
    }

    pub closed spec fn spec_src_port(&self) -> u16 {
        self.src_port
    }

    pub closed spec fn spec_dst_port(&self) -> u16 {
        self.dst_port
    }

    /// The buffer while the session holds it; `None` while it is in flight.
    pub closed spec fn dgram(&self) -> Option<Buffer> {
        self.udp_dgram
    }

    pub open spec fn wf(&self) -> bool {
        self.dgram() matches Some(b) ==> b.wf() && b.spec_capacity() >= 2
    }

    /// Both bindings are installed and form a pair.
    pub open spec fn is_bound_to(&self, port: u16) -> bool {
        bound_to(self.sender(), self.receiver(), port)
    }

    pub open spec fn is_unbound(&self) -> bool {
        self.sender().binding() is None && self.receiver().binding() is None
    }

    /// Apart from the bindings, the session equals `other`.
    pub open spec fn same_but_bindings(&self, other: &MockUdp1) -> bool {
        &&& self.spec_id() == other.spec_id()
        &&& self.dgram() == other.dgram()
        &&& self.spec_src_port() == other.spec_src_port()
        &&& self.spec_dst_port() == other.spec_dst_port()
    }

    pub fn new(
        id: u16,
        udp_sender: UdpSender,
        udp_receiver: UdpReceiver,
        udp_dgram: Buffer,
        src_port: u16,
        dst_port: u16,
    ) -> (r: MockUdp1)
        requires
            udp_dgram.wf(),
            udp_dgram.spec_capacity() >= 2,
        ensures
            r.wf(),
            r.spec_id() == id,
            r.sender() == udp_sender,
            r.receiver() == udp_receiver,
            r.dgram() == Some(udp_dgram),
            r.spec_src_port() == src_port,
            r.spec_dst_port() == dst_port,
    {
        MockUdp1 {
            id,
            udp_sender,
            udp_receiver,
            udp_dgram: Some(udp_dgram),
            src_port,
            dst_port,
        }
    }

    pub fn id(&self) -> (r: u16)
        ensures
            r == self.spec_id(),
    {
        self.id
    }

    pub fn src_port(&self) -> (r: u16)
        ensures
            r == self.spec_src_port(),
    {
        self.src_port
    }

    pub fn dst_port(&self) -> (r: u16)
        ensures
            r == self.spec_dst_port(),
    {
        self.dst_port
    }

    pub fn udp_sender(&self) -> (r: &UdpSender)
        ensures
            *r == self.sender(),
    {
        &self.udp_sender
    }

    pub fn udp_receiver(&self) -> (r: &UdpReceiver)
        ensures
            *r == self.receiver(),
    {
        &self.udp_receiver
    }

    /// The sender, to install or take its binding.
    pub fn udp_sender_mut(&mut self) -> (r: &mut UdpSender)
        ensures
            *r == old(self).sender(),
            final(self).sender() == *final(r),
            final(self).receiver() == old(self).receiver(),
            final(self).same_but_bindings(old(self)),
    {
        &mut self.udp_sender
    }

    /// The receiver, to install or take its binding.
    pub fn udp_receiver_mut(&mut self) -> (r: &mut UdpReceiver)
        ensures
            *r == old(self).receiver(),
            final(self).receiver() == *final(r),
            final(self).sender() == old(self).sender(),
            final(self).same_but_bindings(old(self)),
    {
        &mut self.udp_receiver
    }

    /// The bindings are installed, form a pair, and name a slot of `table`:
    /// the port table will unbind them.
    pub open spec fn can_unbind(&self, table: Seq<SocketState>) -> bool {
        &&& self.sender().binding() matches Some(s)
        &&& self.receiver().binding() matches Some(v)
        &&& paired(s, v)
        &&& s.slot() < table.len()
    }

    /// The slot that the installed sender binding names.
    pub open spec fn bound_slot(&self) -> int {
        self.sender().binding().unwrap().slot() as int
    }

    /// Binds `socket` to the session's source port and installs the bindings,
    /// or releases the socket when the port table refuses.
    fn bind_src(&mut self, table: &mut UdpPortTable, socket: UdpSocket) -> (r: BindOutcome)
        requires
            old(self).is_unbound(),
        ensures
            final(self).same_but_bindings(old(self)),
            ({
                let port = old(self).spec_src_port();
                if socket.slot() < old(table)@.len() && port_available(old(table)@, port) {
                    &&& r == BindOutcome::Bound(port)
                    &&& final(self).is_bound_to(port)
                    &&& final(self).bound_slot() == socket.slot()
                    &&& final(table)@ == old(table)@.update(
                        socket.slot() as int,
                        SocketState::Bound(port),
                    )
                } else {
                    &&& r == BindOutcome::BindFailed(port)
                    &&& final(self).is_unbound()
                    &&& socket.slot() < old(table)@.len() ==> final(table)@ == old(table)@.update(
                        socket.slot() as int,
                        SocketState::Free,
                    )
                    &&& socket.slot() >= old(table)@.len() ==> final(table)@ == old(table)@
                }
            }),
    {
        match table.bind(socket, self.src_port) {
            Ok((send_bind, rcv_bind)) => {
                self.udp_sender.set_binding(send_bind);
                self.udp_receiver.set_binding(rcv_bind);
                BindOutcome::Bound(self.src_port)
            },
            Err(sock) => {
                table.destroy_socket(sock);
                BindOutcome::BindFailed(self.src_port)
            },
        }
    }

    /// Schedules the first send `SEND_PERIOD` units from `now`, then takes a
    /// socket from the port table and binds it to the source port. Returns the
    /// alarm's tick and how the bind ended.
    pub fn start(&mut self, table: &mut UdpPortTable, now: u32, ticks_per_unit: u32) -> (r: (
        u32,
        BindOutcome,
    ))
        requires
            old(self).is_unbound(),
            SEND_PERIOD * ticks_per_unit <= u32::MAX,
        ensures
            r.0 == alarm_deadline(now, ticks_per_unit),
            final(self).same_but_bindings(old(self)),
            r.1 is Bound ==> final(self).can_unbind(final(table)@),
            !has_free_slot(old(table)@) ==> {
                &&& r.1 == BindOutcome::SocketFailed
                &&& final(self).is_unbound()
                &&& final(table)@ == old(table)@
            },
            has_free_slot(old(table)@) && port_available(old(table)@, old(self).spec_src_port())
                ==> {
                &&& r.1 == BindOutcome::Bound(old(self).spec_src_port())
                &&& final(self).is_bound_to(old(self).spec_src_port())
                &&& first_free(old(table)@, final(self).bound_slot())
                &&& final(table)@ == old(table)@.update(
                    final(self).bound_slot(),
                    SocketState::Bound(old(self).spec_src_port()),
                )
            },
            has_free_slot(old(table)@) && !port_available(old(table)@, old(self).spec_src_port())
                ==> {
                &&& r.1 == BindOutcome::BindFailed(old(self).spec_src_port())
                &&& final(self).is_unbound()
                &&& final(table)@ == old(table)@
            },
    {
        let alarm = next_alarm(now, ticks_per_unit);
        match table.create_socket() {
            Ok(sock) => {
                proof {
                    lemma_port_in_use_keeps(old(table)@, sock.slot() as int, SocketState::Unbound);
                }
                let outcome = self.bind_src(table, sock);
                proof {
                    if outcome is BindFailed {
                        assert(table@ =~= old(table)@);
                    }
                }
                (alarm, outcome)
            },
            Err(()) => (alarm, BindOutcome::SocketFailed),
        }
    }

    /// Unbinds the installed bindings and binds their socket to `src_port`.
    /// When the bindings are not a pair nothing changes, the source port
    /// included.
    pub fn rebind(&mut self, table: &mut UdpPortTable, src_port: u16) -> (r: BindOutcome)
        requires
            old(self).sender().binding() is Some,
            old(self).receiver().binding() is Some,
        ensures
            !old(self).can_unbind(old(table)@) ==> {
                &&& r == BindOutcome::UnbindMismatch
                &&& *final(self) == *old(self)
                &&& final(table)@ == old(table)@
            },
            old(self).can_unbind(old(table)@) ==> ({
                let slot = old(self).bound_slot();
                let mid = old(table)@.update(slot, SocketState::Unbound);
                &&& final(self).spec_src_port() == src_port
                &&& final(self).spec_id() == old(self).spec_id()
                &&& final(self).spec_dst_port() == old(self).spec_dst_port()
                &&& final(self).dgram() == old(self).dgram()
                &&& port_available(mid, src_port) ==> {
                    &&& r == BindOutcome::Bound(src_port)
                    &&& final(self).is_bound_to(src_port)
                    &&& final(self).bound_slot() == slot
                    &&& final(table)@ == mid.update(slot, SocketState::Bound(src_port))
                }
                &&& !port_available(mid, src_port) ==> {
                    &&& r == BindOutcome::BindFailed(src_port)
                    &&& final(self).is_unbound()
                    &&& final(table)@ == mid.update(slot, SocketState::Free)
                }
            }),
            // A pair of bindings rebinds to any port other than 0 that no other
            // slot holds.
            old(self).can_unbind(old(table)@) && src_port != 0 && (forall|j: int|
                0 <= j < old(table)@.len() && j != old(self).bound_slot() ==> old(table)@[j]
                    != SocketState::Bound(src_port)) ==> {
                &&& r == BindOutcome::Bound(src_port)
                &&& final(self).is_bound_to(src_port)
                &&& final(self).spec_src_port() == src_port
            },
    {
        let send_bind = self.udp_sender.get_binding().unwrap();
        let rcv_bind = self.udp_receiver.get_binding().unwrap();
        match table.unbind(send_bind, rcv_bind) {
            Ok(sock) => {
                self.src_port = src_port;
                proof {
                    let slot = old(self).bound_slot();
                    let mid = old(table)@.update(slot, SocketState::Unbound);
                    assert(mid == table@);
                    if src_port != 0 && (forall|j: int|
                        0 <= j < old(table)@.len() && j != slot ==> old(table)@[j]
                            != SocketState::Bound(src_port)) {
                        assert(!port_in_use(mid, src_port));
                    }
                }
                self.bind_src(table, sock)
            },
            Err((send_bind, rcv_bind)) => {
                self.udp_sender.set_binding(send_bind);
                self.udp_receiver.set_binding(rcv_bind);
                proof {
                    lemma_sender_ext(self.udp_sender, old(self).udp_sender);
                    lemma_receiver_ext(self.udp_receiver, old(self).udp_receiver);
                }
                BindOutcome::UnbindMismatch
            },
        }
    }

    /// Sets the port that later sends go to.
    pub fn set_dst(&mut self, dst_port: u16)
        ensures
            final(self).spec_dst_port() == dst_port,
            final(self).spec_id() == old(self).spec_id(),
            final(self).spec_src_port() == old(self).spec_src_port(),
            final(self).dgram() == old(self).dgram(),
            final(self).sender() == old(self).sender(),
            final(self).receiver() == old(self).receiver(),
    {
        self.dst_port = dst_port;
    }

    /// Fills the buffer with `value`, high byte first, cuts it to those two
    /// bytes and hands it out for the transport to send to the destination.
    /// While the buffer is in flight nothing is sent and nothing changes.
    pub fn send(&mut self, value: u16) -> (r: Option<SendRequest>)
        requires
            old(self).wf(),
        ensures
            final(self).wf(),
            send_step(*old(self), *final(self), value, r),
    {
        match self.udp_dgram.take() {
            Some(mut dgram) => {
                dgram.set(0, (value >> 8u16) as u8);
                dgram.set(1, (value & 0x00ffu16) as u8);
                dgram.slice(2);
                proof {
                    assert((value >> 8u16) as u8 == (value / 256) as u8) by (bit_vector);
                    assert((value & 0x00ffu16) as u8 == (value % 256) as u8) by (bit_vector);
                    assert(dgram@ =~= be_bytes(value));
                }
                Some(SendRequest { dst_addr: dst_addr(), dst_port: self.dst_port, dgram })
            },
            None => None,
        }
    }

    /// What the alarm does when it goes off: sends the session's id.
    pub fn fired(&mut self) -> (r: Option<SendRequest>)
        requires
            old(self).wf(),
        ensures
            final(self).wf(),
            send_step(*old(self), *final(self), old(self).spec_id(), r),
    {
        self.send(self.id)
    }

    /// Takes the buffer back from the transport, makes all of it active again,
    /// and schedules the next send `SEND_PERIOD` units from `now`, returning
    /// the alarm's tick. A buffer that arrives while the session still holds
    /// one, or that cannot hold two bytes, is handed back and nothing changes.
    pub fn send_done(&mut self, dgram: Buffer, now: u32, ticks_per_unit: u32) -> (r: Result<
        u32,
        Buffer,
    >)
        requires
            old(self).wf(),
            SEND_PERIOD * ticks_per_unit <= u32::MAX,
        ensures
            final(self).wf(),
            r is Ok <==> old(self).dgram() is None && dgram.spec_capacity() >= 2,
            r matches Ok(t) ==> {
                &&& t == alarm_deadline(now, ticks_per_unit)
                &&& final(self).dgram() matches Some(b)
                &&& b.storage() == dgram.storage()
                &&& b.spec_active_len() == dgram.spec_capacity()
                &&& final(self).spec_id() == old(self).spec_id()
                &&& final(self).spec_src_port() == old(self).spec_src_port()
                &&& final(self).spec_dst_port() == old(self).spec_dst_port()
                &&& final(self).sender() == old(self).sender()
                &&& final(self).receiver() == old(self).receiver()
            },
            r matches Err(b) ==> b == dgram && *final(self) == *old(self),
    {
        if self.udp_dgram.is_some() || dgram.capacity() < 2 {
            return Err(dgram);
        }
        let mut dgram = dgram;
        dgram.reset();
        self.udp_dgram = Some(dgram);
        Ok(next_alarm(now, ticks_per_unit))
    }

    /// Reports a datagram that arrived: where it came from and what it holds.
    /// The session itself does not change.
    pub fn receive(
        &self,
        src_addr: IpAddr,
        dst_addr: IpAddr,
        src_port: u16,
        dst_port: u16,
        payload: &[u8],
    ) -> (r: Received)
        ensures
            r.src_addr == src_addr,
            r.src_port == src_port,
            r.payload@ == payload@,
    {
        let mut copy: Vec<u8> = Vec::new();
        let mut i: usize = 0;
        while i < payload.len()
            invariant
                i <= payload@.len(),
                copy@ == payload@.subrange(0, i as int),
            decreases payload@.len() - i,
        {
            copy.push(payload[i]);
            i = i + 1;
            assert(copy@ =~= payload@.subrange(0, i as int));
        }
        assert(copy@ =~= payload@);
        Received { src_addr, src_port, payload: copy }
    }

    /// Whether the session holds its buffer, that is, no send is in flight.
    pub fn has_dgram(&self) -> (r: bool)
        ensures
            r == self.dgram() is Some,
    {
        self.udp_dgram.is_some()
    }
}

/// While a send is in flight a second send is a no-op: the first datagram
/// keeps the two bytes of its value, nothing more goes out, and the session
/// is left as the first send left it.
pub proof fn lemma_one_buffer_in_flight(
    s0: MockUdp1,
    s1: MockUdp1,
    s2: MockUdp1,
    v1: u16,
    v2: u16,
    r1: Option<SendRequest>,
    r2: Option<SendRequest>,
)
    requires
        s0.dgram() is Some,
        send_step(s0, s1, v1, r1),
        send_step(s1, s2, v2, r2),
    ensures
        r1 matches Some(req) && req.dgram@ == be_bytes(v1),
        s1.dgram() is None,
        r2 is None,
        s2 == s1,
{
}

/// The alarm that a session sets goes off exactly `SEND_PERIOD` units after
/// the tick it was set at, across the wrap of the clock: with completions
/// that come at once, sends are `SEND_PERIOD` units apart.
pub proof fn lemma_send_period(now: u32, ticks_per_unit: u32)
    requires
        SEND_PERIOD * ticks_per_unit <= u32::MAX,
    ensures
        (alarm_deadline(now, ticks_per_unit) - now + 0x1_0000_0000) % 0x1_0000_0000 == SEND_PERIOD
            * ticks_per_unit,
{
}

} // verus!
