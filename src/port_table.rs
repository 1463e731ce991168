use vstd::prelude::*;

verus! {

/// How many sockets a port table holds at once.
pub const MAX_NUM_BOUND_PORTS: usize = 16;

/// What one socket slot of a port table holds.
#[derive(PartialEq, Eq, Structural, Clone, Copy, Debug)]
pub enum SocketState {
    /// No socket lives in the slot.
    Free,
    /// A socket lives in the slot and is bound to no port.
    Unbound,
    /// A socket lives in the slot and is bound to the port.
    Bound(u16),
}

/// The right to bind one socket slot of a port table.
pub struct UdpSocket {
    idx: usize,
}

/// The right to send from a bound port; issued together with a
/// `UdpReceiverBinding` by one bind.
pub struct UdpSenderBinding {
    idx: usize,
    port: u16,
}

/// The right to receive on a bound port; issued together with a
/// `UdpSenderBinding` by one bind.
pub struct UdpReceiverBinding {
    idx: usize,
    port: u16,
}

impl UdpSocket {
    pub closed spec fn slot(&self) -> nat {
        self.idx as nat
    }
}

impl UdpSenderBinding {
    pub closed spec fn slot(&self) -> nat {
        self.idx as nat
    }

    pub closed spec fn spec_port(&self) -> u16 {
        self.port
    }

    pub fn get_port(&self) -> (r: u16)
        ensures
            r == self.spec_port(),
    {
        self.port
    }
}

impl UdpReceiverBinding {
    pub closed spec fn slot(&self) -> nat {
        self.idx as nat
    }

    pub closed spec fn spec_port(&self) -> u16 {
        self.port
    }

    pub fn get_port(&self) -> (r: u16)
        ensures
            r == self.spec_port(),
    {
        self.port
    }
}

/// Two handles form a pair when one bind issued both.
pub open spec fn paired(s: UdpSenderBinding, r: UdpReceiverBinding) -> bool {
    s.slot() == r.slot() && s.spec_port() == r.spec_port()
}

/// Some slot of `slots` is bound to `port`.
pub open spec fn port_in_use(slots: Seq<SocketState>, port: u16) -> bool {
    exists|i: int| 0 <= i < slots.len() && slots[i] == SocketState::Bound(port)
}

/// Some slot of `slots` is free.
pub open spec fn has_free_slot(slots: Seq<SocketState>) -> bool {
    exists|i: int| 0 <= i < slots.len() && slots[i] == SocketState::Free
}

/// A port can be bound when it is not 0 and no slot holds it.
pub open spec fn port_available(slots: Seq<SocketState>, port: u16) -> bool {
    port != 0 && !port_in_use(slots, port)
}

/// Allocates socket slots and binds them to ports, no port twice.
pub struct UdpPortTable {
    slots: Vec<SocketState>,
}

impl UdpPortTable {
    pub closed spec fn view(&self) -> Seq<SocketState> {
        self.slots@
    }

    /// A table of `MAX_NUM_BOUND_PORTS` free slots.
    pub fn new() -> (r: UdpPortTable)
        ensures
            r@.len() == MAX_NUM_BOUND_PORTS,
            forall|i: int| 0 <= i < r@.len() ==> r@[i] == SocketState::Free,
    {
        let mut slots: Vec<SocketState> = Vec::new();
        let mut i: usize = 0;
        while i < MAX_NUM_BOUND_PORTS
            invariant
                i <= MAX_NUM_BOUND_PORTS,
                slots@.len() == i,
                forall|j: int| 0 <= j < i ==> slots@[j] == SocketState::Free,
            decreases MAX_NUM_BOUND_PORTS - i,
        {
            slots.push(SocketState::Free);
            i = i + 1;
        }
        UdpPortTable { slots }
    }

    /// What slot `i` holds.
    pub fn slot_state(&self, i: usize) -> (r: SocketState)
        requires
            i < self@.len(),
        ensures
            r == self@[i as int],
    {
        self.slots[i]
    }

    /// Takes the first free slot for a new socket, or fails when none is free.
    pub fn create_socket(&mut self) -> (r: Result<UdpSocket, ()>)
        ensures
            r is Ok <==> has_free_slot(old(self)@),
            r matches Ok(s) ==> {
                &&& s.slot() < old(self)@.len()
                &&& old(self)@[s.slot() as int] == SocketState::Free
                &&& forall|j: int| 0 <= j < s.slot() ==> old(self)@[j] != SocketState::Free
                &&& final(self)@ == old(self)@.update(s.slot() as int, SocketState::Unbound)
            },
            r is Err ==> final(self)@ == old(self)@,
    {
        let mut i: usize = 0;
        while i < self.slots.len()
            invariant
                i <= self.slots@.len(),
                self.slots@ == old(self).slots@,
                forall|j: int| 0 <= j < i ==> self.slots@[j] != SocketState::Free,
            decreases self.slots@.len() - i,
        {
            match self.slots[i] {
                SocketState::Free => {
                    self.slots.set(i, SocketState::Unbound);
                    return Ok(UdpSocket { idx: i });
                },
                _ => {},
            }
            i = i + 1;
        }
        Err(())
    }

    /// Whether some slot is bound to `port`.
    pub fn is_bound(&self, port: u16) -> (r: bool)
        ensures
            r == port_in_use(self@, port),
    {
        let mut i: usize = 0;
        while i < self.slots.len()
            invariant
                i <= self.slots@.len(),
                forall|j: int| 0 <= j < i ==> self.slots@[j] != SocketState::Bound(port),
            decreases self.slots@.len() - i,
        {
            match self.slots[i] {
                SocketState::Bound(p) => {
                    if p == port {
                        return true;
                    }
                },
                _ => {},
            }
            i = i + 1;
        }
        false
    }

    /// Binds the socket to `port`, issuing a sender and receiver binding pair.
    /// Fails, handing the socket back, when the port is 0 or already bound, or
    /// the socket is not one of this table's slots.
    pub fn bind(&mut self, socket: UdpSocket, port: u16) -> (r: Result<
        (UdpSenderBinding, UdpReceiverBinding),
        UdpSocket,
    >)
        ensures
            r is Ok <==> socket.slot() < old(self)@.len() && port_available(old(self)@, port),
            r matches Ok((s, v)) ==> {
                &&& s.slot() == socket.slot()
                &&& s.spec_port() == port
                &&& paired(s, v)
                &&& final(self)@ == old(self)@.update(
                    socket.slot() as int,
                    SocketState::Bound(port),
                )
            },
            r matches Err(s) ==> s == socket && final(self)@ == old(self)@,
    {
        if socket.idx >= self.slots.len() || port == 0 || self.is_bound(port) {
            return Err(socket);
        }
        self.slots.set(socket.idx, SocketState::Bound(port));
        Ok((UdpSenderBinding { idx: socket.idx, port }, UdpReceiverBinding { idx: socket.idx, port }))
    }

    /// Releases the port of a binding pair and hands back its socket, unbound.
    /// Fails, handing both bindings back, when they are not a pair.
    pub fn unbind(&mut self, sender: UdpSenderBinding, receiver: UdpReceiverBinding) -> (r: Result<
        UdpSocket,
        (UdpSenderBinding, UdpReceiverBinding),
    >)
        ensures
            r is Ok <==> paired(sender, receiver) && sender.slot() < old(self)@.len(),
            r matches Ok(s) ==> {
                &&& s.slot() == sender.slot()
                &&& final(self)@ == old(self)@.update(sender.slot() as int, SocketState::Unbound)
            },
            r matches Err(p) ==> p == (sender, receiver) && final(self)@ == old(self)@,
    {
        if sender.idx != receiver.idx || sender.port != receiver.port || sender.idx
            >= self.slots.len() {
            return Err((sender, receiver));
        }
        self.slots.set(sender.idx, SocketState::Unbound);
        Ok(UdpSocket { idx: sender.idx })
    }

    /// Frees the socket's slot.
    pub fn destroy_socket(&mut self, socket: UdpSocket)
        ensures
            socket.slot() < old(self)@.len() ==> final(self)@ == old(self)@.update(
                socket.slot() as int,
                SocketState::Free,
            ),
            socket.slot() >= old(self)@.len() ==> final(self)@ == old(self)@,
    {
        if socket.idx < self.slots.len() {
            self.slots.set(socket.idx, SocketState::Free);
        }
    }
}

} // verus!
