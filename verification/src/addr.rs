//! The AF_CAN socket address: the family tag and the kernel index of the
//! interface the socket binds to.

use vstd::prelude::*;

verus! {

/// The AF_CAN address family number of the Linux ABI.
pub const AF_CAN: u16 = 29;

/// A socket address for the AF_CAN family. The family is always AF_CAN;
/// an address used for bind carries the nonzero index of a live interface.
#[derive(Clone, Copy, Debug, PartialEq, Eq, Structural)]
pub struct CanAddr {
    /// The address family tag, fixed to AF_CAN.
    pub family: u16,
    /// The kernel index of the CAN interface.
    pub ifindex: u32,
}

impl CanAddr {
    /// An address for the interface with the given kernel index.
    pub fn new(ifindex: u32) -> (r: CanAddr)
        ensures
            r.family == AF_CAN,
            r.ifindex == ifindex,
    {
        let mut addr = CanAddr::default();
        addr.ifindex = ifindex;
        addr
    }
}

impl Default for CanAddr {
    /// A zeroed address whose family tag is already AF_CAN.
    fn default() -> (r: CanAddr)
        ensures
            r.family == AF_CAN,
            r.ifindex == 0,
    {
        CanAddr { family: AF_CAN, ifindex: 0 }
    }
}

} // verus!
