//! Metadata describing one logical socket send/receive event, and the
//! error taxonomy of the capture writer.

use vstd::prelude::*;

verus! {

/// The direction of a packet.
#[derive(Clone, Copy, Debug, PartialEq, Eq, Structural)]
pub enum PacketDirection {
    /// The packet is coming from us, destined for a server.
    Send,
    /// A server has sent this packet to us.
    Receive,
}

impl PacketDirection {
    /// The opposite direction, used for synthesized peer acknowledgements.
    pub open spec fn flip(self) -> PacketDirection {
        match self {
            PacketDirection::Send => PacketDirection::Receive,
            PacketDirection::Receive => PacketDirection::Send,
        }
    }
}

/// The transport protocol of a packet.
#[derive(Clone, Copy, Debug, PartialEq, Eq, Structural)]
pub enum PacketProtocol {
    TCP,
    UDP,
}

/// An IP address held as its raw big-endian bytes: 4 octets for v4,
/// 16 octets for v6.
#[derive(Clone, Debug, PartialEq)]
pub enum IpAddress {
    V4(Vec<u8>),
    V6(Vec<u8>),
}

impl IpAddress {
    /// The address bytes have the length its family demands.
    pub open spec fn wf(self) -> bool {
        match self {
            IpAddress::V4(b) => b@.len() == 4,
            IpAddress::V6(b) => b@.len() == 16,
        }
    }

    pub open spec fn is_v4(self) -> bool {
        match self {
            IpAddress::V4(_) => true,
            IpAddress::V6(_) => false,
        }
    }

    /// The raw address bytes, for either family.
    pub open spec fn bytes(self) -> Seq<u8> {
        match self {
            IpAddress::V4(b) => b@,
            IpAddress::V6(b) => b@,
        }
    }
}

/// One endpoint of a logical connection.
#[derive(Clone, Debug, PartialEq)]
pub struct Endpoint {
    pub ip: IpAddress,
    pub port: u16,
}

/// Info about a packet we have sent or received.
#[derive(Clone, Debug, PartialEq)]
pub struct PacketInfo {
    pub direction: PacketDirection,
    pub protocol: PacketProtocol,
    pub remote_address: Endpoint,
    pub local_address: Endpoint,
}

impl PacketInfo {
    /// Both endpoints are well-formed and share one address family.
    /// Mixing families within a session is a caller error.
    pub open spec fn wf(self) -> bool {
        &&& self.local_address.ip.wf()
        &&& self.remote_address.ip.wf()
        &&& (self.local_address.ip.is_v4() <==> self.remote_address.ip.is_v4())
    }

    pub open spec fn is_v4(self) -> bool {
        self.local_address.ip.is_v4()
    }

    /// The endpoint a record travelling in direction `dir` comes from.
    pub open spec fn src(self, dir: PacketDirection) -> Endpoint {
        match dir {
            PacketDirection::Send => self.local_address,
            PacketDirection::Receive => self.remote_address,
        }
    }

    /// The endpoint a record travelling in direction `dir` goes to.
    pub open spec fn dst(self, dir: PacketDirection) -> Endpoint {
        match dir {
            PacketDirection::Send => self.remote_address,
            PacketDirection::Receive => self.local_address,
        }
    }
}

/// Runtime check for `PacketInfo::wf`, for callers that cannot prove it.
pub fn packet_info_wf(info: &PacketInfo) -> (b: bool)
    ensures
        b == info.wf(),
{
    let local_ok = match &info.local_address.ip {
        IpAddress::V4(b) => b.len() == 4,
        IpAddress::V6(b) => b.len() == 16,
    };
    let remote_ok = match &info.remote_address.ip {
        IpAddress::V4(b) => b.len() == 4,
        IpAddress::V6(b) => b.len() == 16,
    };
    let local_v4 = match &info.local_address.ip {
        IpAddress::V4(_) => true,
        IpAddress::V6(_) => false,
    };
    let remote_v4 = match &info.remote_address.ip {
        IpAddress::V4(_) => true,
        IpAddress::V6(_) => false,
    };
    local_ok && remote_ok && (local_v4 == remote_v4)
}

/// What can go wrong while mirroring an event into the capture.
#[derive(Clone, Copy, Debug, PartialEq, Eq, Structural)]
pub enum CaptureError {
    /// The payload exceeds the fixed per-frame budget.
    PayloadTooLarge,
    /// The endpoints are malformed or mix address families.
    InvalidEndpoints,
    /// The underlying capture stream refused a record.
    StreamWrite,
}

} // verus!
