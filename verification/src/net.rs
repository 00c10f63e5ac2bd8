//! Socket addresses, as far as the daemon looks into them.
use vstd::prelude::*;

verus! {

/// An IP address.
#[derive(Clone, Copy, Debug, PartialEq, Eq)]
pub enum IpAddr {
    /// The four octets of an IPv4 address.
    V4([u8; 4]),
    /// The eight 16-bit segments of an IPv6 address.
    V6([u16; 8]),
}

/// An IP address and a TCP port.
#[derive(Clone, Copy, Debug, PartialEq, Eq)]
pub struct SocketAddr {
    /// The host part.
    pub ip: IpAddr,
    /// The TCP port.
    pub port: u16,
}

/// The addresses that never leave the host: `127.0.0.0/8` and `::1`.
pub open spec fn loopback(ip: IpAddr) -> bool {
    match ip {
        IpAddr::V4(octets) => octets@[0] == 127,
        IpAddr::V6(segments) => segments@ == seq![0u16, 0, 0, 0, 0, 0, 0, 1],
    }
}

impl IpAddr {
    /// `127.0.0.1`.
    pub fn localhost() -> (r: IpAddr)
        ensures
            r matches IpAddr::V4(octets) && octets@ == seq![127u8, 0, 0, 1],
            loopback(r),
    {
        IpAddr::V4([127, 0, 0, 1])
    }

    /// Whether the address is a loopback address.
    pub fn is_loopback(&self) -> (r: bool)
        ensures
            r == loopback(*self),
    {
        match self {
            IpAddr::V4(octets) => octets[0] == 127,
            IpAddr::V6(segments) => {
                let expected: [u16; 8] = [0, 0, 0, 0, 0, 0, 0, 1];
                let mut i: usize = 0;
                while i < 8
                    invariant
                        i <= 8,
                        expected@ == seq![0u16, 0, 0, 0, 0, 0, 0, 1],
                        *self == IpAddr::V6(*segments),
                        forall|j: int| 0 <= j < i ==> segments@[j] == expected@[j],
                    decreases 8 - i,
                {
                    if segments[i] != expected[i] {
                        return false;
                    }
                    i += 1;
                }
                assert(segments@ =~= expected@);
                true
            },
        }
    }
}

/// The number that the octets of an IPv4 address stand for.
pub open spec fn v4_number(octets: [u8; 4]) -> int {
    ((octets@[0] * 256 + octets@[1]) * 256 + octets@[2]) * 256 + octets@[3]
}

/// The number that the segments of an IPv6 address stand for.
pub open spec fn v6_number(segments: Seq<u16>) -> int
    decreases segments.len(),
{
    if segments.len() == 0 {
        0
    } else {
        v6_number(segments.drop_last()) * 65536 + segments.last()
    }
}

/// The IPv4 loopback addresses are the numbers from `127.0.0.0` to
/// `127.255.255.255`.
pub proof fn law_loopback_is_a_range(octets: [u8; 4])
    ensures
        loopback(IpAddr::V4(octets)) <==> 0x7f00_0000 <= v4_number(octets) <= 0x7fff_ffff,
{
}

/// The IPv6 loopback address is the number 1, and no other is one.
pub proof fn law_loopback_is_one(segments: [u16; 8])
    ensures
        loopback(IpAddr::V6(segments)) <==> v6_number(segments@) == 1,
{
    let s = segments@;
    lemma_v6_number(s);
    lemma_v6_number(s.drop_last());
    if loopback(IpAddr::V6(segments)) {
        assert(forall|i: int| 0 <= i < 7 ==> s.drop_last()[i] == 0);
    }
    if v6_number(s) == 1 {
        assert(forall|i: int| 0 <= i < 7 ==> s.drop_last()[i] == 0);
        assert(s =~= seq![0u16, 0, 0, 0, 0, 0, 0, 1]) by {
            assert forall|i: int| 0 <= i < 7 implies s[i] == 0 by {
                assert(s.drop_last()[i] == s[i]);
            }
        }
    }
}

/// A number of segments is not negative, and zero exactly when they all are.
proof fn lemma_v6_number(s: Seq<u16>)
    ensures
        v6_number(s) >= 0,
        v6_number(s) == 0 <==> forall|i: int| 0 <= i < s.len() ==> s[i] == 0,
    decreases s.len(),
{
    if s.len() > 0 {
        let t = s.drop_last();
        lemma_v6_number(t);
        if v6_number(s) == 0 {
            assert forall|i: int| 0 <= i < s.len() implies s[i] == 0 by {
                if i < t.len() {
                    assert(t[i] == s[i]);
                }
            }
        } else if forall|i: int| 0 <= i < s.len() ==> s[i] == 0 {
            assert forall|i: int| 0 <= i < t.len() implies t[i] == 0 by {
                assert(t[i] == s[i]);
            }
        }
    }
}

} // verus!
