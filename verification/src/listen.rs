//! The addresses that the development server announces: the addresses it is bound to, with an
//! unspecified address standing for every interface address of its family, in ascending order
//! and each once.
use vstd::prelude::*;

verus! {

/// An IP address: four octets, or eight 16-bit segments.
#[derive(Clone, Copy, Debug, PartialEq, Eq, Structural)]
pub enum IpAddress {
    V4(u8, u8, u8, u8),
    V6(u16, u16, u16, u16, u16, u16, u16, u16),
}

/// An IP address and a port.
#[derive(Clone, Copy, Debug, PartialEq, Eq, Structural)]
pub struct SocketAddress {
    pub ip: IpAddress,
    pub port: u16,
}

/// The address as a number: the octets, or the segments, read as one big-endian number.
pub open spec fn ip_value(ip: IpAddress) -> int {
    match ip {
        IpAddress::V4(a, b, c, d) => ((a * 256 + b) * 256 + c) * 256 + d,
        IpAddress::V6(s0, s1, s2, s3, s4, s5, s6, s7) => ((((((s0 * 65536 + s1) * 65536 + s2) * 65536 + s3)
            * 65536 + s4) * 65536 + s5) * 65536 + s6) * 65536 + s7,
    }
}

/// The key by which socket addresses sort: the family (IPv4 first), the address, the port.
pub open spec fn addr_key(a: SocketAddress) -> (int, int, int) {
    (if a.ip is V4 { 0 } else { 1 }, ip_value(a.ip), a.port as int)
}

/// `x` sorts strictly before `y`, component by component.
pub open spec fn key_lt(x: (int, int, int), y: (int, int, int)) -> bool {
    x.0 < y.0 || (x.0 == y.0 && (x.1 < y.1 || (x.1 == y.1 && x.2 < y.2)))
}

/// `a` sorts strictly before `b`.
pub open spec fn addr_lt(a: SocketAddress, b: SocketAddress) -> bool {
    key_lt(addr_key(a), addr_key(b))
}

/// Every address sorts strictly before every later one.
pub open spec fn strictly_ascending(s: Seq<SocketAddress>) -> bool {
    forall|i: int, j: int| 0 <= i < j < s.len() ==> addr_lt(#[trigger] s[i], #[trigger] s[j])
}

/// The address that listens on every interface of its family.
pub open spec fn unspecified(ip: IpAddress) -> bool {
    match ip {
        IpAddress::V4(a, b, c, d) => a == 0 && b == 0 && c == 0 && d == 0,
        IpAddress::V6(s0, s1, s2, s3, s4, s5, s6, s7) => s0 == 0 && s1 == 0 && s2 == 0 && s3 == 0 && s4 == 0
            && s5 == 0 && s6 == 0 && s7 == 0,
    }
}

/// A loopback address: `127.0.0.0/8`, or `::1`.
pub open spec fn loopback(ip: IpAddress) -> bool {
    match ip {
        IpAddress::V4(a, _, _, _) => a == 127,
        IpAddress::V6(s0, s1, s2, s3, s4, s5, s6, s7) => s0 == 0 && s1 == 0 && s2 == 0 && s3 == 0 && s4 == 0
            && s5 == 0 && s6 == 0 && s7 == 1,
    }
}

/// Whether a bound address stands for the address `x`: it is `x`, or it is unspecified and `x`
/// is an interface address of the same family with its port.
pub open spec fn stands_for(bound: SocketAddress, interfaces: Seq<IpAddress>, x: SocketAddress) -> bool {
    if unspecified(bound.ip) {
        x.port == bound.port && (x.ip is V4 == bound.ip is V4) && interfaces.contains(x.ip)
    } else {
        x == bound
    }
}

/// Whether the address is announced: some bound address stands for it.
pub open spec fn announced_address(bound: Seq<SocketAddress>, interfaces: Seq<IpAddress>, x: SocketAddress) -> bool {
    exists|i: int| 0 <= i < bound.len() && stands_for(#[trigger] bound[i], interfaces, x)
}

/// Whether the address is a loopback address.
pub fn is_loopback(ip: &IpAddress) -> (res: bool)
    ensures
        res == loopback(*ip),
{
    match ip {
        IpAddress::V4(a, _, _, _) => *a == 127,
        IpAddress::V6(s0, s1, s2, s3, s4, s5, s6, s7) => *s0 == 0 && *s1 == 0 && *s2 == 0 && *s3 == 0 && *s4 == 0
            && *s5 == 0 && *s6 == 0 && *s7 == 1,
    }
}

fn is_unspecified(ip: &IpAddress) -> (res: bool)
    ensures
        res == unspecified(*ip),
{
    match ip {
        IpAddress::V4(a, b, c, d) => *a == 0 && *b == 0 && *c == 0 && *d == 0,
        IpAddress::V6(s0, s1, s2, s3, s4, s5, s6, s7) => *s0 == 0 && *s1 == 0 && *s2 == 0 && *s3 == 0
            && *s4 == 0 && *s5 == 0 && *s6 == 0 && *s7 == 0,
    }
}

fn step16(x: u128, s: u16, bound: Ghost<int>) -> (res: u128)
    requires
        x < bound@,
        bound@ * 65536 <= 0x1_0000_0000_0000_0000_0000_0000_0000_0000,
    ensures
        res == x * 65536 + s,
        res < bound@ * 65536,
{
    proof {
        assert(x * 65536 + s < bound@ * 65536) by (nonlinear_arith)
            requires
                x < bound@,
                s < 65536,
        {
        }
    }
    x * 65536 + s as u128
}

/// The address as a number.
fn ip_number(ip: &IpAddress) -> (res: u128)
    ensures
        res == ip_value(*ip),
{
    match ip {
        IpAddress::V4(a, b, c, d) => {
            let x: u128 = (((*a as u128) * 256 + (*b as u128)) * 256 + (*c as u128)) * 256 + (*d as u128);
            x
        },
        IpAddress::V6(s0, s1, s2, s3, s4, s5, s6, s7) => {
            let x = step16(0, *s0, Ghost(1));
            let x = step16(x, *s1, Ghost(0x1_0000));
            let x = step16(x, *s2, Ghost(0x1_0000_0000));
            let x = step16(x, *s3, Ghost(0x1_0000_0000_0000));
            let x = step16(x, *s4, Ghost(0x1_0000_0000_0000_0000));
            let x = step16(x, *s5, Ghost(0x1_0000_0000_0000_0000_0000));
            let x = step16(x, *s6, Ghost(0x1_0000_0000_0000_0000_0000_0000));
            let x = step16(x, *s7, Ghost(0x1_0000_0000_0000_0000_0000_0000_0000));
            x
        },
    }
}

/// The family of an address: 0 for IPv4, 1 for IPv6.
fn family(ip: &IpAddress) -> (res: u8)
    ensures
        res == (if *ip is V4 { 0u8 } else { 1u8 }),
{
    match ip {
        IpAddress::V4(..) => 0,
        IpAddress::V6(..) => 1,
    }
}

/// Whether `a` sorts strictly before `b`, and whether they have the same key.
fn compare(a: &SocketAddress, b: &SocketAddress) -> (res: (bool, bool))
    ensures
        res.0 == addr_lt(*a, *b),
        res.1 == (addr_key(*a) == addr_key(*b)),
{
    let fa = family(&a.ip);
    let fb = family(&b.ip);
    let ia = ip_number(&a.ip);
    let ib = ip_number(&b.ip);
    let lt = fa < fb || (fa == fb && (ia < ib || (ia == ib && a.port < b.port)));
    let eq = fa == fb && ia == ib && a.port == b.port;
    (lt, eq)
}

proof fn lemma_key_order(x: (int, int, int), y: (int, int, int), z: (int, int, int))
    ensures
        !key_lt(x, x),
        key_lt(x, y) && key_lt(y, z) ==> key_lt(x, z),
        x == y || key_lt(x, y) || key_lt(y, x),
{
}

/// Insert `x` into the strictly ascending `v`, unless an address with its key is there.
fn insert_ascending(v: &mut Vec<SocketAddress>, x: SocketAddress)
    requires
        strictly_ascending(old(v)@),
    ensures
        strictly_ascending(final(v)@),
        exists|i: int| 0 <= i < final(v)@.len() && addr_key(#[trigger] final(v)@[i]) == addr_key(x),
        forall|y: SocketAddress| final(v)@.contains(y) ==> old(v)@.contains(y) || y == x,
        forall|y: SocketAddress| old(v)@.contains(y) ==> final(v)@.contains(y),
{
    let ghost ov = v@;
    let mut p: usize = 0;
    while p < v.len()
        invariant
            p <= v.len(),
            v@ == ov,
            forall|j: int| 0 <= j < p ==> addr_lt(#[trigger] ov[j], x),
        ensures
            p <= v.len(),
            v@ == ov,
            forall|j: int| 0 <= j < p ==> addr_lt(#[trigger] ov[j], x),
            p < v.len() ==> !addr_lt(ov[p as int], x),
        decreases v.len() - p,
    {
        let (lt, _) = compare(&v[p], &x);
        if !lt {
            break;
        }
        p = p + 1;
    }
    if p < v.len() {
        let (_, same) = compare(&v[p], &x);
        if same {
            return;
        }
        proof {
            lemma_key_order(addr_key(ov[p as int]), addr_key(x), addr_key(x));
        }
    }
    v.insert(p, x);
    let ghost nv = v@;
    assert(nv =~= ov.insert(p as int, x));
    assert forall|i: int, j: int| 0 <= i < j < nv.len() implies addr_lt(#[trigger] nv[i], #[trigger] nv[j]) by {
        if j < p {
            assert(nv[i] == ov[i] && nv[j] == ov[j]);
        } else if j == p {
            assert(nv[i] == ov[i]);
        } else if i == p {
            assert(nv[j] == ov[j - 1]);
            if j - 1 > p {
                assert(addr_lt(ov[p as int], ov[j - 1]));
                lemma_key_order(addr_key(x), addr_key(ov[p as int]), addr_key(ov[j - 1]));
            }
        } else if i < p {
            assert(nv[i] == ov[i] && nv[j] == ov[j - 1]);
            lemma_key_order(addr_key(ov[i]), addr_key(x), addr_key(ov[p as int]));
            if j - 1 > p {
                lemma_key_order(addr_key(ov[i]), addr_key(ov[p as int]), addr_key(ov[j - 1]));
            }
        } else {
            assert(nv[i] == ov[i - 1] && nv[j] == ov[j - 1]);
        }
    }
    assert(nv[p as int] == x);
    assert forall|y: SocketAddress| nv.contains(y) implies ov.contains(y) || y == x by {
        let k = choose|k: int| 0 <= k < nv.len() && nv[k] == y;
        if k < p {
            assert(ov[k] == y);
        } else if k > p {
            assert(ov[k - 1] == y);
        }
    }
    assert forall|y: SocketAddress| ov.contains(y) implies nv.contains(y) by {
        let k = choose|k: int| 0 <= k < ov.len() && ov[k] == y;
        if k < p {
            assert(nv[k] == y);
        } else {
            assert(nv[k + 1] == y);
        }
    }
}

/// Some address of `out` has the key of `y`.
pub open spec fn covered(out: Seq<SocketAddress>, y: SocketAddress) -> bool {
    exists|m: int| 0 <= m < out.len() && addr_key(#[trigger] out[m]) == addr_key(y)
}

/// One of the first `n` bound addresses stands for `y`.
pub open spec fn stood_for(bound: Seq<SocketAddress>, interfaces: Seq<IpAddress>, n: int, y: SocketAddress) -> bool {
    exists|k: int| 0 <= k < n && stands_for(#[trigger] bound[k], interfaces, y)
}

/// `y` is one of the first `n` interface addresses, of the family of `b`, with its port.
pub open spec fn from_interfaces(interfaces: Seq<IpAddress>, n: int, b: SocketAddress, y: SocketAddress) -> bool {
    y.port == b.port && (y.ip is V4 == b.ip is V4) && exists|k: int| 0 <= k < n && y.ip == #[trigger] interfaces[k]
}

proof fn lemma_still_covered(before: Seq<SocketAddress>, after: Seq<SocketAddress>, y: SocketAddress)
    requires
        covered(before, y),
        forall|z: SocketAddress| before.contains(z) ==> after.contains(z),
    ensures
        covered(after, y),
{
    let m = choose|m: int| 0 <= m < before.len() && addr_key(#[trigger] before[m]) == addr_key(y);
    assert(before.contains(before[m]));
    let q = choose|q: int| 0 <= q < after.len() && after[q] == before[m];
    assert(addr_key(after[q]) == addr_key(y));
}

/// The addresses to announce: for each bound address, the address itself, or, when it is
/// unspecified, each interface address of its family with its port; in ascending order (IPv4
/// first, then by address, then by port), each once.
pub fn listening_addresses(bound: &Vec<SocketAddress>, interfaces: &Vec<IpAddress>) -> (res: Vec<SocketAddress>)
    ensures
        strictly_ascending(res@),
        forall|y: SocketAddress| #[trigger] res@.contains(y) ==> announced_address(bound@, interfaces@, y),
        forall|y: SocketAddress| announced_address(bound@, interfaces@, y) ==> #[trigger] covered(res@, y),
{
    let mut out: Vec<SocketAddress> = Vec::new();
    let mut i: usize = 0;
    while i < bound.len()
        invariant
            i <= bound.len(),
            strictly_ascending(out@),
            forall|y: SocketAddress| #[trigger] out@.contains(y) ==> announced_address(bound@, interfaces@, y),
            forall|y: SocketAddress| #[trigger] stood_for(bound@, interfaces@, i as int, y) ==> covered(out@, y),
        decreases bound.len() - i,
    {
        let b = bound[i];
        if is_unspecified(&b.ip) {
            let mut j: usize = 0;
            while j < interfaces.len()
                invariant
                    i < bound.len(),
                    b == bound@[i as int],
                    unspecified(b.ip),
                    j <= interfaces.len(),
                    strictly_ascending(out@),
                    forall|y: SocketAddress| #[trigger] out@.contains(y) ==> announced_address(bound@, interfaces@, y),
                    forall|y: SocketAddress| #[trigger] stood_for(bound@, interfaces@, i as int, y) ==> covered(out@, y),
                    forall|y: SocketAddress| #[trigger] from_interfaces(interfaces@, j as int, b, y) ==> covered(out@, y),
                decreases interfaces.len() - j,
            {
                let ip = interfaces[j];
                if family(&ip) == family(&b.ip) {
                    let x = SocketAddress { ip, port: b.port };
                    proof {
                        assert(interfaces@[j as int] == ip);
                        assert(interfaces@.contains(ip));
                        assert(stands_for(bound@[i as int], interfaces@, x));
                    }
                    let ghost before = out@;
                    insert_ascending(&mut out, x);
                    proof {
                        assert forall|y: SocketAddress| #[trigger] out@.contains(y) implies announced_address(
                            bound@,
                            interfaces@,
                            y,
                        ) by {
                            if !before.contains(y) {
                                assert(y == x);
                            }
                        }
                        assert forall|y: SocketAddress| #[trigger] from_interfaces(interfaces@, j + 1, b, y) implies covered(
                            out@,
                            y,
                        ) by {
                            let k = choose|k: int| 0 <= k < j + 1 && y.ip == #[trigger] interfaces@[k];
                            if k < j {
                                assert(from_interfaces(interfaces@, j as int, b, y));
                                lemma_still_covered(before, out@, y);
                            } else {
                                assert(y == x);
                            }
                        }
                        assert forall|y: SocketAddress| #[trigger] stood_for(bound@, interfaces@, i as int, y) implies covered(
                            out@,
                            y,
                        ) by {
                            lemma_still_covered(before, out@, y);
                        }
                    }
                } else {
                    proof {
                        assert forall|y: SocketAddress| #[trigger] from_interfaces(interfaces@, j + 1, b, y) implies covered(
                            out@,
                            y,
                        ) by {
                            let k = choose|k: int| 0 <= k < j + 1 && y.ip == #[trigger] interfaces@[k];
                            if k == j {
                                assert(y.ip == ip);
                            }
                            assert(from_interfaces(interfaces@, j as int, b, y));
                        }
                    }
                }
                j = j + 1;
            }
            proof {
                assert forall|y: SocketAddress| #[trigger] stood_for(bound@, interfaces@, i + 1, y) implies covered(out@, y) by {
                    let k = choose|k: int| 0 <= k < i + 1 && stands_for(#[trigger] bound@[k], interfaces@, y);
                    if k == i {
                        let q = choose|q: int| 0 <= q < interfaces@.len() && interfaces@[q] == y.ip;
                        assert(from_interfaces(interfaces@, interfaces@.len() as int, b, y));
                    } else {
                        assert(stood_for(bound@, interfaces@, i as int, y));
                    }
                }
            }
        } else {
            let ghost before = out@;
            proof {
                assert(stands_for(bound@[i as int], interfaces@, b));
            }
            insert_ascending(&mut out, b);
            proof {
                assert forall|y: SocketAddress| #[trigger] out@.contains(y) implies announced_address(bound@, interfaces@, y) by {
                    if !before.contains(y) {
                        assert(y == b);
                    }
                }
                assert forall|y: SocketAddress| #[trigger] stood_for(bound@, interfaces@, i + 1, y) implies covered(out@, y) by {
                    let k = choose|k: int| 0 <= k < i + 1 && stands_for(#[trigger] bound@[k], interfaces@, y);
                    if k < i {
                        assert(stood_for(bound@, interfaces@, i as int, y));
                        lemma_still_covered(before, out@, y);
                    } else {
                        assert(y == b);
                    }
                }
            }
        }
        i = i + 1;
    }
    proof {
        assert forall|y: SocketAddress| announced_address(bound@, interfaces@, y) implies #[trigger] covered(out@, y) by {
            assert(stood_for(bound@, interfaces@, bound@.len() as int, y));
        }
    }
    out
}

} // verus!
