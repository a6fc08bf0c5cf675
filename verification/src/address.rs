//! Network addresses as plain values: the IP (compared by the manager when a
//! login page is opened) and the texts that the logic copies into tokens and
//! server names.

use vstd::prelude::*;
use crate::keyed_map::MapKey;

verus! {

/// An IP address; version 4 as its 32-bit number, version 6 as its 128-bit
/// number.
#[derive(Clone, Copy, Debug, PartialEq, Eq, Structural)]
pub enum IpAddress {
    V4(u32),
    V6(u128),
}

/// A socket address of a peer: its IP and port, with the text of the whole
/// address (as `SocketAddr` displays it) and of the IP alone.
#[derive(Debug)]
pub struct PeerAddr {
    pub ip: IpAddress,
    pub port: u16,
    pub text: String,
    pub ip_text: String,
}

impl PeerAddr {
    pub fn new(ip: IpAddress, port: u16, text: String, ip_text: String) -> (r: PeerAddr)
        ensures
            r.ip == ip,
            r.port == port,
            r.text@ == text@,
            r.ip_text@ == ip_text@,
    {
        PeerAddr { ip, port, text, ip_text }
    }

    /// A copy with equal fields.
    pub fn duplicate(&self) -> (r: PeerAddr)
        ensures
            r.ip == self.ip,
            r.port == self.port,
            r.text@ == self.text@,
            r.ip_text@ == self.ip_text@,
    {
        PeerAddr { ip: self.ip, port: self.port, text: self.text.clone(), ip_text: self.ip_text.clone() }
    }

    /// Whether both addresses have the same IP, whatever their ports.
    pub fn same_ip(&self, other: &PeerAddr) -> (r: bool)
        ensures
            r == (self.ip == other.ip),
    {
        self.ip == other.ip
    }
}

/// Socket addresses are told apart by IP and port.
impl MapKey for PeerAddr {
    type Model = (IpAddress, u16);

    open spec fn model(&self) -> (IpAddress, u16) {
        (self.ip, self.port)
    }

    fn same_key(&self, other: &Self) -> (r: bool) {
        self.ip == other.ip && self.port == other.port
    }

    fn copy_key(&self) -> (r: Self) {
        self.duplicate()
    }
}

} // verus!
