//! IPv4 address model and the address-selection rules.
//!
//! The daemon is IPv4-only by design.  Addresses are held as their 32-bit
//! value; interface entries and resolver results are modelled as plain
//! enums so that the selection rules over them can be verified.

use vstd::prelude::*;

verus! {

/// An IPv4 address, stored as its 32-bit big-endian value.
#[derive(Clone, Copy, PartialEq, Eq, Structural, Debug)]
pub struct Ipv4Addr {
    pub bits: u32,
}

impl Ipv4Addr {
    /// Assemble an address from its four dotted-quad octets.
    pub fn from_octets(a: u8, b: u8, c: u8, d: u8) -> (r: Ipv4Addr)
        ensures
            r.bits == ((a as u32) << 24 | (b as u32) << 16 | (c as u32) << 8 | (d as u32)),
    {
        Ipv4Addr { bits: (a as u32) << 24 | (b as u32) << 16 | (c as u32) << 8 | (d as u32) }
    }

    /// The four dotted-quad octets, most significant first.
    pub fn octets(&self) -> (r: (u8, u8, u8, u8))
        ensures
            r.0 == (self.bits >> 24) as u8,
            r.1 == (self.bits >> 16) as u8,
            r.2 == (self.bits >> 8) as u8,
            r.3 == self.bits as u8,
    {
        ((self.bits >> 24) as u8, (self.bits >> 16) as u8, (self.bits >> 8) as u8, self.bits as u8)
    }
}

/// An address as a resolver hands it back: IPv4, or IPv6 (whose contents
/// this IPv4-only protocol never reads).
#[derive(Clone, Copy, PartialEq, Eq, Structural, Debug)]
pub enum IpAddr {
    V4(Ipv4Addr),
    V6,
}

/// One configured address of a network interface: an IPv4 entry carrying
/// address and netmask, or an entry of any other kind.
#[derive(Clone, Copy, PartialEq, Eq, Structural, Debug)]
pub enum IfAddr {
    V4 { addr: Ipv4Addr, mask: Ipv4Addr },
    Other,
}

/// The broadcast address of a network: the explicitly configured one when
/// present, else the host address combined with the complement of the netmask.
pub open spec fn spec_broadcast_addr(explicit: Option<Ipv4Addr>, ip: Ipv4Addr, mask: Ipv4Addr) -> Ipv4Addr {
    match explicit {
        Option::Some(b) => b,
        Option::None => Ipv4Addr { bits: ip.bits | !mask.bits },
    }
}

/// Compute the broadcast address to target (see `spec_broadcast_addr`).
pub fn broadcast_addr(explicit: Option<Ipv4Addr>, ip: Ipv4Addr, mask: Ipv4Addr) -> (r: Ipv4Addr)
    ensures
        r == spec_broadcast_addr(explicit, ip, mask),
{
    match explicit {
        Option::Some(b) => b,
        Option::None => Ipv4Addr { bits: ip.bits | !mask.bits },
    }
}

/// Extract the IPv4 address from a resolved address known to be IPv4.
pub fn unwrap_ipv4(addr: IpAddr) -> (r: Ipv4Addr)
    requires
        addr is V4,
    ensures
        addr == IpAddr::V4(r),
{
    match addr {
        IpAddr::V4(ip) => ip,
        IpAddr::V6 => vstd::pervasive::unreached(),
    }
}

/// The first IPv4 entry of an interface's address list, with its netmask;
/// entries of other kinds are skipped, and `None` means the list has no
/// IPv4 entry at all.
pub open spec fn spec_ipv4_addr(addresses: Seq<IfAddr>) -> Option<(Ipv4Addr, Ipv4Addr)>
    decreases addresses.len(),
{
    if addresses.len() == 0 {
        Option::None
    } else {
        match addresses[0] {
            IfAddr::V4 { addr, mask } => Option::Some((addr, mask)),
            IfAddr::Other => spec_ipv4_addr(addresses.drop_first()),
        }
    }
}

proof fn lemma_spec_ipv4_addr_step(addresses: Seq<IfAddr>, i: int)
    requires
        0 <= i < addresses.len(),
        forall|j: int| 0 <= j < i ==> !(addresses[j] is V4),
    ensures
        spec_ipv4_addr(addresses) == spec_ipv4_addr(addresses.skip(i)),
    decreases i,
{
    if i > 0 {
        lemma_spec_ipv4_addr_step(addresses, i - 1);
        assert(addresses.skip(i - 1).drop_first() =~= addresses.skip(i));
        assert(addresses.skip(i - 1)[0] == addresses[i - 1]);
    } else {
        assert(addresses.skip(0) =~= addresses);
    }
}

/// Find the IPv4 address and netmask in the given list of interface addresses.
pub fn ipv4_addr(addresses: &Vec<IfAddr>) -> (r: Option<(Ipv4Addr, Ipv4Addr)>)
    ensures
        r == spec_ipv4_addr(addresses@),
{
    let n = addresses.len();
    let mut i: usize = 0;
    while i < n
        invariant
            n == addresses@.len(),
            0 <= i <= n,
            forall|j: int| 0 <= j < i ==> !(addresses@[j] is V4),
        decreases n - i,
    {
        match addresses[i] {
            IfAddr::V4 { addr, mask } => {
                proof {
                    lemma_spec_ipv4_addr_step(addresses@, i as int);
                    assert(addresses@.skip(i as int)[0] == addresses@[i as int]);
                }
                return Some((addr, mask));
            }
            IfAddr::Other => {
                i = i + 1;
            }
        }
    }
    proof {
        if addresses@.len() > 0 {
            lemma_spec_ipv4_addr_step(addresses@, n as int - 1);
            let tail = addresses@.skip(n as int - 1);
            assert(tail[0] == addresses@[n as int - 1]);
            assert(tail.drop_first().len() == 0);
            assert(spec_ipv4_addr(tail.drop_first()) is None);
        }
    }
    None
}

/// The first IPv4 entry of a list of resolved addresses, or `None` when
/// every entry is IPv6.
pub open spec fn spec_first_ipv4(addresses: Seq<IpAddr>) -> Option<Ipv4Addr>
    decreases addresses.len(),
{
    if addresses.len() == 0 {
        Option::None
    } else {
        match addresses[0] {
            IpAddr::V4(ip) => Option::Some(ip),
            IpAddr::V6 => spec_first_ipv4(addresses.drop_first()),
        }
    }
}

proof fn lemma_spec_first_ipv4_step(addresses: Seq<IpAddr>, i: int)
    requires
        0 <= i < addresses.len(),
        forall|j: int| 0 <= j < i ==> !(addresses[j] is V4),
    ensures
        spec_first_ipv4(addresses) == spec_first_ipv4(addresses.skip(i)),
    decreases i,
{
    if i > 0 {
        lemma_spec_first_ipv4_step(addresses, i - 1);
        assert(addresses.skip(i - 1).drop_first() =~= addresses.skip(i));
        assert(addresses.skip(i - 1)[0] == addresses[i - 1]);
    } else {
        assert(addresses.skip(0) =~= addresses);
    }
}

/// Pick the first IPv4 address out of a host-name resolution result;
/// absence is not an error, it means "skip this optional address".
pub fn first_ipv4(addresses: &Vec<IpAddr>) -> (r: Option<Ipv4Addr>)
    ensures
        r == spec_first_ipv4(addresses@),
{
    let n = addresses.len();
    let mut i: usize = 0;
    while i < n
        invariant
            n == addresses@.len(),
            0 <= i <= n,
            forall|j: int| 0 <= j < i ==> !(addresses@[j] is V4),
        decreases n - i,
    {
        match addresses[i] {
            IpAddr::V4(ip) => {
                proof {
                    lemma_spec_first_ipv4_step(addresses@, i as int);
                    assert(addresses@.skip(i as int)[0] == addresses@[i as int]);
                }
                return Some(ip);
            }
            IpAddr::V6 => {
                i = i + 1;
            }
        }
    }
    proof {
        if addresses@.len() > 0 {
            lemma_spec_first_ipv4_step(addresses@, n as int - 1);
            let tail = addresses@.skip(n as int - 1);
            assert(tail[0] == addresses@[n as int - 1]);
            assert(tail.drop_first().len() == 0);
            assert(spec_first_ipv4(tail.drop_first()) is None);
        }
    }
    None
}

} // verus!
