//! Socket addresses of peers as they travel in a `PeerResponse` payload: a
//! 32-bit little-endian family tag (0 for four octets, 1 for sixteen), the
//! octets verbatim, then a 16-bit little-endian port. A list of addresses is
//! prefixed with its 64-bit little-endian count.

use vstd::prelude::*;

use crate::wire::{le_u16, le_u32, le_u64, u16_le, u32_le, u64_le};

verus! {

/// A peer's socket address: four octets (IPv4) or sixteen (IPv6), and a port.
#[derive(Clone, Debug)]
pub struct PeerAddr {
    /// The address octets, in network order; four or sixteen of them.
    pub octets: Vec<u8>,
    /// The port number.
    pub port: u16,
}

/// The mathematical image of a peer address.
pub struct PeerAddrV {
    /// The address octets.
    pub octets: Seq<u8>,
    /// The port number.
    pub port: u16,
}

impl View for PeerAddr {
    type V = PeerAddrV;

    open spec fn view(&self) -> PeerAddrV {
        PeerAddrV { octets: self.octets@, port: self.port }
    }
}

/// A peer address is well-formed when it has exactly four or sixteen octets.
pub open spec fn addr_wf(a: PeerAddrV) -> bool {
    a.octets.len() == 4 || a.octets.len() == 16
}

impl PeerAddr {
    /// Well-formedness of the executable value.
    pub open spec fn wf(&self) -> bool {
        addr_wf(self@)
    }

    /// Returns a four-octet address.
    pub fn new_v4(o0: u8, o1: u8, o2: u8, o3: u8, port: u16) -> (r: PeerAddr)
        ensures
            r@ == (PeerAddrV { octets: seq![o0, o1, o2, o3], port: port }),
            r.wf(),
    {
        let mut octets: Vec<u8> = Vec::new();
        octets.push(o0);
        octets.push(o1);
        octets.push(o2);
        octets.push(o3);
        let r = PeerAddr { octets, port };
        assert(r@.octets =~= seq![o0, o1, o2, o3]);
        r
    }
}

/// The wire family tag of an address: 0 for four octets, 1 for sixteen.
pub open spec fn addr_tag(a: PeerAddrV) -> u32 {
    if a.octets.len() == 4 {
        0
    } else {
        1
    }
}

/// The wire image of one peer address.
pub open spec fn addr_bytes(a: PeerAddrV) -> Seq<u8> {
    u32_le(addr_tag(a)) + a.octets + u16_le(a.port)
}

/// The number of wire bytes one peer address occupies.
pub open spec fn addr_len(a: PeerAddrV) -> int {
    4 + a.octets.len() as int + 2
}

/// Parses one peer address at position `at`; `None` when the bytes there do
/// not begin a well-formed address. On success, returns the address and the
/// position just past it.
pub open spec fn parse_addr_at(data: Seq<u8>, at: int) -> Option<(PeerAddrV, int)>
    recommends
        0 <= at <= data.len(),
{
    if at + 4 > data.len() {
        None
    } else {
        let tag = le_u32(data[at], data[at + 1], data[at + 2], data[at + 3]);
        if tag == 0 {
            if at + 10 <= data.len() {
                Some(
                    (
                        PeerAddrV {
                            octets: data.subrange(at + 4, at + 8),
                            port: le_u16(data[at + 8], data[at + 9]),
                        },
                        at + 10,
                    ),
                )
            } else {
                None
            }
        } else if tag == 1 {
            if at + 22 <= data.len() {
                Some(
                    (
                        PeerAddrV {
                            octets: data.subrange(at + 4, at + 20),
                            port: le_u16(data[at + 20], data[at + 21]),
                        },
                        at + 22,
                    ),
                )
            } else {
                None
            }
        } else {
            None
        }
    }
}

/// The wire image of a sequence of peer addresses, without the count prefix.
pub open spec fn addrs_bytes(s: Seq<PeerAddrV>) -> Seq<u8>
    decreases s.len(),
{
    if s.len() == 0 {
        Seq::empty()
    } else {
        addr_bytes(s[0]) + addrs_bytes(s.skip(1))
    }
}

/// Parses `n` peer addresses starting at position `at`.
pub open spec fn parse_addrs_at(data: Seq<u8>, at: int, n: nat) -> Option<(Seq<PeerAddrV>, int)>
    decreases n,
{
    if n == 0 {
        Some((Seq::empty(), at))
    } else {
        match parse_addr_at(data, at) {
            None => None,
            Some((a, next)) => match parse_addrs_at(data, next, (n - 1) as nat) {
                None => None,
                Some((rest, end)) => Some((seq![a] + rest, end)),
            },
        }
    }
}

/// The wire image of a whole peer list: the count, then each address.
pub open spec fn peer_list_bytes(s: Seq<PeerAddrV>) -> Seq<u8> {
    u64_le(s.len() as u64) + addrs_bytes(s)
}

/// Parses a whole peer list from the start of `data`. Trailing bytes after
/// the counted addresses are tolerated, as the consumed position reports.
pub open spec fn parse_peer_list(data: Seq<u8>) -> Option<(Seq<PeerAddrV>, int)> {
    if data.len() < 8 {
        None
    } else {
        let n = le_u64(data.subrange(0, 8));
        parse_addrs_at(data, 8, n as nat)
    }
}

/// Every well-formed sequence of addresses parses back from its wire image.
pub open spec fn addrs_wf(s: Seq<PeerAddrV>) -> bool {
    forall|i: int| 0 <= i < s.len() ==> addr_wf(#[trigger] s[i])
}

/// One well-formed address parses back from its own wire image, wherever it
/// stands in a larger buffer.
pub proof fn lemma_parse_addr_at_roundtrip(data: Seq<u8>, at: int, a: PeerAddrV)
    requires
        addr_wf(a),
        0 <= at,
        at + addr_len(a) <= data.len(),
        data.subrange(at, at + addr_len(a)) == addr_bytes(a),
    ensures
        parse_addr_at(data, at) == Some((a, at + addr_len(a))),
{
    let img = addr_bytes(a);
    let sub = data.subrange(at, at + addr_len(a));
    let tag = addr_tag(a);
    let len = a.octets.len() as int;
    assert(sub[0] == data[at] && sub[1] == data[at + 1] && sub[2] == data[at + 2] && sub[3]
        == data[at + 3]);
    assert(img[0] == u32_le(tag)[0] && img[1] == u32_le(tag)[1] && img[2] == u32_le(tag)[2]
        && img[3] == u32_le(tag)[3]);
    crate::wire::lemma_u32_le_roundtrip(tag);
    assert(le_u32(data[at], data[at + 1], data[at + 2], data[at + 3]) == tag);
    assert(sub[4 + len] == data[at + 4 + len] && sub[5 + len] == data[at + 5 + len]);
    assert(img[4 + len] == u16_le(a.port)[0] && img[5 + len] == u16_le(a.port)[1]);
    crate::wire::lemma_u16_le_roundtrip(a.port);
    assert(le_u16(data[at + 4 + len], data[at + 5 + len]) == a.port);
    assert(parse_addr_at(data, at) is Some);
    let parsed = parse_addr_at(data, at).unwrap().0;
    assert forall|i: int| 0 <= i < len implies parsed.octets[i] == a.octets[i] by {
        assert(sub[4 + i] == data[at + 4 + i]);
        assert(img[4 + i] == a.octets[i]);
    }
    assert(parsed.octets =~= a.octets);
    assert(parsed == a);
}

/// A well-formed sequence of addresses parses back from its wire image,
/// wherever it stands in a larger buffer.
pub proof fn lemma_parse_addrs_at_roundtrip(data: Seq<u8>, at: int, s: Seq<PeerAddrV>)
    requires
        addrs_wf(s),
        0 <= at,
        at + addrs_bytes(s).len() <= data.len(),
        data.subrange(at, at + addrs_bytes(s).len()) == addrs_bytes(s),
    ensures
        parse_addrs_at(data, at, s.len()) == Some((s, at + addrs_bytes(s).len())),
    decreases s.len(),
{
    if s.len() == 0 {
        assert(parse_addrs_at(data, at, 0) == Some((Seq::<PeerAddrV>::empty(), at)));
        assert(s =~= Seq::<PeerAddrV>::empty());
    } else {
        let a = s[0];
        let rest = s.skip(1);
        let img = addrs_bytes(s);
        let head = addr_bytes(a);
        let tail = addrs_bytes(rest);
        assert(img == head + tail);
        assert(data.subrange(at, at + head.len()) =~= head) by {
            assert forall|i: int| 0 <= i < head.len() implies data[at + i] == head[i] by {
                assert(data.subrange(at, at + img.len())[i] == data[at + i]);
                assert(img[i] == head[i]);
            }
        }
        lemma_parse_addr_at_roundtrip(data, at, a);
        let mid = at + head.len();
        assert(data.subrange(mid, mid + tail.len()) =~= tail) by {
            assert forall|i: int| 0 <= i < tail.len() implies data[mid + i] == tail[i] by {
                assert(data.subrange(at, at + img.len())[head.len() + i] == data[mid + i]);
                assert(img[head.len() + i] == tail[i]);
            }
        }
        lemma_parse_addrs_at_roundtrip(data, mid, rest);
        assert(addr_len(a) == head.len());
        assert(parse_addr_at(data, at) == Some((a, mid)));
        assert(parse_addrs_at(data, mid, rest.len()) == Some((rest, mid + tail.len())));
        assert((s.len() - 1) as nat == rest.len());
        assert(seq![a] + rest =~= s);
    }
}

/// A well-formed peer list parses back from its wire image, consuming all of
/// it, when that image begins the buffer.
pub proof fn lemma_parse_peer_list_roundtrip(data: Seq<u8>, s: Seq<PeerAddrV>)
    requires
        addrs_wf(s),
        s.len() <= 0xffff_ffff_ffff_ffff,
        peer_list_bytes(s).len() <= data.len(),
        data.subrange(0, peer_list_bytes(s).len() as int) == peer_list_bytes(s),
    ensures
        parse_peer_list(data) == Some((s, peer_list_bytes(s).len() as int)),
{
    let img = peer_list_bytes(s);
    let cnt = u64_le(s.len() as u64);
    let body = addrs_bytes(s);
    assert(img == cnt + body);
    assert forall|i: int| 0 <= i < img.len() implies data[i] == img[i] by {
        assert(data.subrange(0, img.len() as int)[i] == data[i]);
    }
    assert(data.subrange(0, 8) =~= cnt);
    crate::wire::lemma_u64_le_roundtrip(s.len() as u64);
    assert(le_u64(data.subrange(0, 8)) == s.len() as u64);
    assert(data.subrange(8, 8 + body.len() as int) =~= body) by {
        assert forall|i: int| 0 <= i < body.len() implies data[8 + i] == body[i] by {
            assert(img[8 + i] == body[i]);
        }
    }
    lemma_parse_addrs_at_roundtrip(data, 8, s);
}

/// The mathematical image of a sequence of executable peer addresses.
pub open spec fn addrs_view(s: Seq<PeerAddr>) -> Seq<PeerAddrV> {
    Seq::new(s.len(), |i: int| s[i]@)
}

/// Appending an address to a sequence appends its bytes to the wire image.
pub proof fn lemma_addrs_bytes_push(s: Seq<PeerAddrV>, a: PeerAddrV)
    ensures
        addrs_bytes(s.push(a)) == addrs_bytes(s) + addr_bytes(a),
    decreases s.len(),
{
    if s.len() == 0 {
        assert(s.push(a)[0] == a);
        assert(s.push(a).skip(1) =~= Seq::<PeerAddrV>::empty());
        assert(addrs_bytes(s.push(a).skip(1)) == Seq::<u8>::empty());
        assert(addrs_bytes(s) == Seq::<u8>::empty());
        assert(addrs_bytes(s.push(a)) == addr_bytes(a) + Seq::<u8>::empty());
        assert(addr_bytes(a) + Seq::<u8>::empty() =~= Seq::<u8>::empty() + addr_bytes(a));
    } else {
        assert(s.push(a)[0] == s[0]);
        assert(s.push(a).skip(1) =~= s.skip(1).push(a));
        lemma_addrs_bytes_push(s.skip(1), a);
        assert(addrs_bytes(s.push(a)) == addr_bytes(s[0]) + (addrs_bytes(s.skip(1)) + addr_bytes(
        a)));
        assert(addr_bytes(s[0]) + (addrs_bytes(s.skip(1)) + addr_bytes(a)) =~= (addr_bytes(s[0])
            + addrs_bytes(s.skip(1))) + addr_bytes(a));
    }
}

/// Appends the wire image of one peer address.
pub fn write_addr(out: &mut Vec<u8>, a: &PeerAddr)
    requires
        a.wf(),
    ensures
        final(out)@ == old(out)@ + addr_bytes(a@),
{
    let tag: u32 = if a.octets.len() == 4 {
        0
    } else {
        1
    };
    crate::wire::write_u32_le(out, tag);
    crate::wire::append_slice(out, a.octets.as_slice());
    crate::wire::write_u16_le(out, a.port);
    assert(out@ =~= old(out)@ + addr_bytes(a@));
}

/// Appends the wire image of a whole peer list: the count, then each address.
pub fn write_peer_list(out: &mut Vec<u8>, addrs: &Vec<PeerAddr>)
    requires
        addrs_wf(addrs_view(addrs@)),
    ensures
        final(out)@ == old(out)@ + peer_list_bytes(addrs_view(addrs@)),
{
    let ghost all = addrs_view(addrs@);
    crate::wire::write_u64_le(out, addrs.len() as u64);
    assert(all.len() == addrs@.len());
    let mut i: usize = 0;
    while i < addrs.len()
        invariant
            i <= addrs@.len(),
            all == addrs_view(addrs@),
            addrs_wf(all),
            out@ == old(out)@ + u64_le(addrs@.len() as u64) + addrs_bytes(all.take(i as int)),
        decreases addrs@.len() - i,
    {
        assert(addr_wf(all[i as int]));
        assert(addrs[i as int]@ == all[i as int]);
        write_addr(out, &addrs[i]);
        proof {
            lemma_addrs_bytes_push(all.take(i as int), all[i as int]);
            assert(all.take(i as int).push(all[i as int]) =~= all.take(i + 1));
            assert(out@ =~= old(out)@ + u64_le(addrs@.len() as u64) + addrs_bytes(all.take(
            i + 1)));
        }
        i = i + 1;
    }
    assert(all.take(addrs@.len() as int) =~= all);
    assert(out@ =~= old(out)@ + peer_list_bytes(all));
}

/// Reads one peer address at position `at` of a buffer, as `parse_addr_at`
/// describes; `None` when the bytes there do not begin one.
pub fn read_addr(data: &[u8], at: usize) -> (r: Option<(PeerAddr, usize)>)
    requires
        at <= data@.len(),
    ensures
        match r {
            Some(pair) => {
                &&& pair.0.wf()
                &&& parse_addr_at(data@, at as int) == Some((pair.0@, pair.1 as int))
                &&& pair.1 <= data@.len()
            },
            None => parse_addr_at(data@, at as int) is None,
        },
{
    if data.len() - at < 4 {
        return None;
    }
    let tag = crate::wire::read_u32_le(data, at);
    if tag == 0 {
        if data.len() - at < 10 {
            return None;
        }
        let octets = crate::wire::copy_range(data, at + 4, at + 8);
        let port = crate::wire::read_u16_le(data, at + 8);
        let a = PeerAddr { octets, port };
        Some((a, at + 10))
    } else if tag == 1 {
        if data.len() - at < 22 {
            return None;
        }
        let octets = crate::wire::copy_range(data, at + 4, at + 20);
        let port = crate::wire::read_u16_le(data, at + 20);
        let a = PeerAddr { octets, port };
        Some((a, at + 22))
    } else {
        None
    }
}

/// Reads a whole peer list from the start of a buffer, as `parse_peer_list`
/// describes: the count, then that many addresses. On success, returns the
/// addresses and the position just past them.
pub fn read_peer_list(data: &[u8]) -> (r: Option<(Vec<PeerAddr>, usize)>)
    ensures
        match r {
            Some(pair) => {
                &&& addrs_wf(addrs_view(pair.0@))
                &&& parse_peer_list(data@) == Some((addrs_view(pair.0@), pair.1 as int))
                &&& pair.1 <= data@.len()
            },
            None => parse_peer_list(data@) is None,
        },
{
    if data.len() < 8 {
        return None;
    }
    let n: u64 = crate::wire::read_u64_le(data, 0);
    let mut acc: Vec<PeerAddr> = Vec::new();
    let mut at: usize = 8;
    let mut count: u64 = 0;
    assert(addrs_view(acc@) =~= Seq::<PeerAddrV>::empty());
    while count < n
        invariant
            count <= n,
            8 <= at <= data@.len(),
            data@.len() >= 8,
            n == le_u64(data@.subrange(0, 8)),
            addrs_wf(addrs_view(acc@)),
            forall|rest: Seq<PeerAddrV>, end: int|
                parse_addrs_at(data@, at as int, (n - count) as nat) == Some((rest, end))
                    ==> parse_addrs_at(data@, 8, n as nat) == Some(
                    (addrs_view(acc@) + rest, end),
                ),
            parse_addrs_at(data@, at as int, (n - count) as nat) is None ==> parse_addrs_at(
                data@,
                8,
                n as nat,
            ) is None,
        decreases n - count,
    {
        let ghost m = (n - count) as nat;
        match read_addr(data, at) {
            None => {
                assert(parse_addrs_at(data@, at as int, m) is None);
                return None;
            },
            Some(pair) => {
                let a = pair.0;
                let next = pair.1;
                let ghost prev_acc = acc@;
                acc.push(a);
                proof {
                    assert(acc@ =~= prev_acc.push(a));
                    assert(addrs_view(acc@) =~= addrs_view(prev_acc).push(a@));
                    assert forall|rest: Seq<PeerAddrV>, end: int|
                        parse_addrs_at(data@, next as int, (m - 1) as nat) == Some(
                            (rest, end),
                        ) implies parse_addrs_at(data@, 8, n as nat) == Some(
                        (addrs_view(acc@) + rest, end),
                    ) by {
                        assert(parse_addrs_at(data@, at as int, m) == Some(
                            (seq![a@] + rest, end),
                        ));
                        assert(addrs_view(prev_acc) + (seq![a@] + rest) =~= addrs_view(acc@)
                            + rest);
                    }
                    assert(parse_addrs_at(data@, next as int, (m - 1) as nat) is None
                        ==> parse_addrs_at(data@, at as int, m) is None);
                }
                at = next;
                count = count + 1;
            },
        }
    }
    assert(parse_addrs_at(data@, at as int, 0) == Some((Seq::<PeerAddrV>::empty(), at as int)));
    assert(addrs_view(acc@) + Seq::<PeerAddrV>::empty() =~= addrs_view(acc@));
    assert(parse_peer_list(data@) == Some((addrs_view(acc@), at as int)));
    Some((acc, at))
}

/// A parsed address re-encodes to exactly the bytes it was parsed from.
pub proof fn lemma_parse_addr_at_exact(data: Seq<u8>, at: int)
    requires
        0 <= at,
        parse_addr_at(data, at) is Some,
    ensures
        ({
            let p = parse_addr_at(data, at).unwrap();
            &&& addr_wf(p.0)
            &&& p.1 == at + addr_len(p.0)
            &&& at <= p.1 <= data.len()
            &&& data.subrange(at, p.1) == addr_bytes(p.0)
        }),
{
    let p = parse_addr_at(data, at).unwrap();
    let a = p.0;
    let tag = le_u32(data[at], data[at + 1], data[at + 2], data[at + 3]);
    crate::wire::lemma_le_u32_roundtrip(data[at], data[at + 1], data[at + 2], data[at + 3]);
    if tag == 0 {
        crate::wire::lemma_le_u16_roundtrip(data[at + 8], data[at + 9]);
        assert(addr_tag(a) == 0);
        assert(u32_le(addr_tag(a)) =~= seq![data[at], data[at + 1], data[at + 2], data[at + 3]]);
        assert(u16_le(a.port) =~= seq![data[at + 8], data[at + 9]]);
        assert(data.subrange(at, p.1) =~= addr_bytes(a)) by {
            assert forall|i: int| 0 <= i < 10 implies data.subrange(at, at + 10)[i] == addr_bytes(
                a,
            )[i] by {
                assert(data.subrange(at, at + 10)[i] == data[at + i]);
                if 4 <= i < 8 {
                    assert(a.octets[i - 4] == data[at + i]);
                    assert(addr_bytes(a)[i] == a.octets[i - 4]);
                }
            }
        }
    } else {
        crate::wire::lemma_le_u16_roundtrip(data[at + 20], data[at + 21]);
        assert(addr_tag(a) == 1);
        assert(u32_le(addr_tag(a)) =~= seq![data[at], data[at + 1], data[at + 2], data[at + 3]]);
        assert(u16_le(a.port) =~= seq![data[at + 20], data[at + 21]]);
        assert(data.subrange(at, p.1) =~= addr_bytes(a)) by {
            assert forall|i: int| 0 <= i < 22 implies data.subrange(at, at + 22)[i] == addr_bytes(
                a,
            )[i] by {
                assert(data.subrange(at, at + 22)[i] == data[at + i]);
                if 4 <= i < 20 {
                    assert(a.octets[i - 4] == data[at + i]);
                    assert(addr_bytes(a)[i] == a.octets[i - 4]);
                }
            }
        }
    }
}

/// A parsed run of addresses re-encodes to exactly the bytes it was parsed
/// from, and holds as many addresses as were asked for.
pub proof fn lemma_parse_addrs_at_exact(data: Seq<u8>, at: int, n: nat)
    requires
        0 <= at <= data.len(),
        parse_addrs_at(data, at, n) is Some,
    ensures
        ({
            let p = parse_addrs_at(data, at, n).unwrap();
            &&& p.0.len() == n
            &&& addrs_wf(p.0)
            &&& p.1 == at + addrs_bytes(p.0).len()
            &&& at <= p.1 <= data.len()
            &&& data.subrange(at, p.1) == addrs_bytes(p.0)
        }),
    decreases n,
{
    if n == 0 {
        let p = parse_addrs_at(data, at, n).unwrap();
        assert(p.0 =~= Seq::<PeerAddrV>::empty());
        assert(addrs_bytes(p.0) == Seq::<u8>::empty());
        assert(data.subrange(at, at) =~= Seq::<u8>::empty());
    } else {
        let p = parse_addrs_at(data, at, n).unwrap();
        let q = parse_addr_at(data, at).unwrap();
        let a = q.0;
        let mid = q.1;
        lemma_parse_addr_at_exact(data, at);
        let rp = parse_addrs_at(data, mid, (n - 1) as nat).unwrap();
        lemma_parse_addrs_at_exact(data, mid, (n - 1) as nat);
        let rest = rp.0;
        let end = rp.1;
        assert(p.0 == seq![a] + rest && p.1 == end);
        assert((seq![a] + rest)[0] == a);
        assert((seq![a] + rest).skip(1) =~= rest);
        assert(addrs_bytes(p.0) == addr_bytes(a) + addrs_bytes(rest));
        assert forall|i: int| 0 <= i < p.0.len() implies addr_wf(#[trigger] p.0[i]) by {
            if i == 0 {
                assert(p.0[0] == a);
            } else {
                assert(p.0[i] == rest[i - 1]);
            }
        }
        assert(data.subrange(at, end) =~= addr_bytes(a) + addrs_bytes(rest)) by {
            assert forall|i: int| 0 <= i < end - at implies data.subrange(at, end)[i] == (
            addr_bytes(a) + addrs_bytes(rest))[i] by {
                assert(data.subrange(at, end)[i] == data[at + i]);
                if i < mid - at {
                    assert(data.subrange(at, mid)[i] == data[at + i]);
                } else {
                    assert(data.subrange(mid, end)[i - (mid - at)] == data[at + i]);
                }
            }
        }
    }
}

/// A parsed peer list re-encodes to exactly the bytes it was parsed from.
pub proof fn lemma_parse_peer_list_exact(data: Seq<u8>)
    requires
        parse_peer_list(data) is Some,
    ensures
        ({
            let p = parse_peer_list(data).unwrap();
            &&& addrs_wf(p.0)
            &&& p.1 == peer_list_bytes(p.0).len()
            &&& 8 <= p.1 <= data.len()
            &&& data.subrange(0, p.1) == peer_list_bytes(p.0)
        }),
{
    let p = parse_peer_list(data).unwrap();
    let n = le_u64(data.subrange(0, 8));
    lemma_parse_addrs_at_exact(data, 8, n as nat);
    crate::wire::lemma_le_u64_roundtrip(data.subrange(0, 8));
    assert(p.0.len() == n);
    assert(p.0.len() as u64 == n);
    assert(u64_le(p.0.len() as u64) =~= data.subrange(0, 8));
    assert(data.subrange(0, p.1) =~= peer_list_bytes(p.0)) by {
        assert forall|i: int| 0 <= i < p.1 implies data.subrange(0, p.1)[i] == peer_list_bytes(
            p.0,
        )[i] by {
            assert(data.subrange(0, p.1)[i] == data[i]);
            if i < 8 {
                assert(data.subrange(0, 8)[i] == data[i]);
            } else {
                assert(data.subrange(8, p.1)[i - 8] == data[i]);
                assert(addrs_bytes(p.0)[i - 8] == data[i]);
            }
        }
    }
}

/// The wire image of a well-formed address run is at least ten bytes per
/// address.
pub proof fn lemma_addrs_bytes_len_lower(s: Seq<PeerAddrV>)
    requires
        addrs_wf(s),
    ensures
        addrs_bytes(s).len() >= 10 * s.len(),
    decreases s.len(),
{
    if s.len() == 0 {
    } else {
        assert(addr_wf(s[0]));
        assert(addrs_wf(s.skip(1))) by {
            assert forall|i: int| 0 <= i < s.skip(1).len() implies addr_wf(
                #[trigger] s.skip(1)[i],
            ) by {
                assert(s.skip(1)[i] == s[i + 1]);
            }
        }
        lemma_addrs_bytes_len_lower(s.skip(1));
    }
}

} // verus!
