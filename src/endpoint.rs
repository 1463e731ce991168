use vstd::prelude::*;
use crate::port_table::{UdpReceiverBinding, UdpSenderBinding};

verus! {

/// The sending side of a socket: holds the binding that sends go out on.
pub struct UdpSender {
    binding: Option<UdpSenderBinding>,
}

/// The receiving side of a socket: holds the binding that datagrams arrive on.
pub struct UdpReceiver {
    binding: Option<UdpReceiverBinding>,
}

impl UdpSender {
    pub closed spec fn binding(&self) -> Option<UdpSenderBinding> {
        self.binding
    }

    /// A sender that holds no binding.
    pub fn new() -> (r: UdpSender)
        ensures
            r.binding() is None,
    {
        UdpSender { binding: None }
    }

    /// Installs `b` and hands back the binding it replaces.
    pub fn set_binding(&mut self, b: UdpSenderBinding) -> (r: Option<UdpSenderBinding>)
        ensures
            final(self).binding() == Some(b),
            r == old(self).binding(),
    {
        let r = self.binding.take();
        self.binding = Some(b);
        r
    }

    /// Takes the binding out, leaving none installed.
    pub fn get_binding(&mut self) -> (r: Option<UdpSenderBinding>)
        ensures
            final(self).binding() is None,
            r == old(self).binding(),
    {
        self.binding.take()
    }

    pub fn is_bound(&self) -> (r: bool)
        ensures
            r == self.binding() is Some,
    {
        self.binding.is_some()
    }
}

/// Senders that hold the same binding are the same sender.
pub proof fn lemma_sender_ext(a: UdpSender, b: UdpSender)
    requires
        a.binding() == b.binding(),
    ensures
        a == b,
{
}

/// Receivers that hold the same binding are the same receiver.
pub proof fn lemma_receiver_ext(a: UdpReceiver, b: UdpReceiver)
    requires
        a.binding() == b.binding(),
    ensures
        a == b,
{
}

impl UdpReceiver {
    pub closed spec fn binding(&self) -> Option<UdpReceiverBinding> {
        self.binding
    }

    /// A receiver that holds no binding.
    pub fn new() -> (r: UdpReceiver)
        ensures
            r.binding() is None,
    {
        UdpReceiver { binding: None }
    }

    /// Installs `b` and hands back the binding it replaces.
    pub fn set_binding(&mut self, b: UdpReceiverBinding) -> (r: Option<UdpReceiverBinding>)
        ensures
            final(self).binding() == Some(b),
            r == old(self).binding(),
    {
        let r = self.binding.take();
        self.binding = Some(b);
        r
    }

    /// Takes the binding out, leaving none installed.
    pub fn get_binding(&mut self) -> (r: Option<UdpReceiverBinding>)
        ensures
            final(self).binding() is None,
            r == old(self).binding(),
    {
        self.binding.take()
    }

    pub fn is_bound(&self) -> (r: bool)
        ensures
            r == self.binding() is Some,
    {
        self.binding.is_some()
    }
}

} // verus!
