use vstd::prelude::*;
use vstd::string::StringExecFns;
use vstd::string::StrSliceExecFns;

verus! {

/// A numeric address, kept as a plain integer: the four octets of a v4
/// address packed big-endian into a `u32`, or the sixteen bytes of a v6
/// address packed big-endian into a `u128`.
#[derive(Clone, Copy, Debug, PartialEq, Eq, Structural)]
pub enum Ip {
    V4(u32),
    V6(u128),
}

/// A resolved socket address: a numeric host and a port.
#[derive(Clone, Copy, Debug, PartialEq, Eq, Structural)]
pub struct Endpoint {
    pub ip: Ip,
    pub port: u16,
}

/// The destination a client presented: numeric, or a still-unresolved
/// domain with a port.  The domain form is preserved when the client gave
/// one; resolving it is the leaf handler's decision.
#[derive(Clone, Debug)]
pub enum SocksAddr {
    Ip(Endpoint),
    Domain(String, u16),
}

/// The per-flow descriptor every handler invocation receives.
#[derive(Clone, Debug)]
pub struct Session {
    pub source: Endpoint,
    pub destination: SocksAddr,
}

/// The decimal digit characters.
pub open spec fn digit_char(d: int) -> char {
    if d == 0 {
        '0'
    } else if d == 1 {
        '1'
    } else if d == 2 {
        '2'
    } else if d == 3 {
        '3'
    } else if d == 4 {
        '4'
    } else if d == 5 {
        '5'
    } else if d == 6 {
        '6'
    } else if d == 7 {
        '7'
    } else if d == 8 {
        '8'
    } else {
        '9'
    }
}

/// The lower-case hexadecimal digit characters.
pub open spec fn hex_char(d: int) -> char {
    if d < 10 {
        digit_char(d)
    } else if d == 10 {
        'a'
    } else if d == 11 {
        'b'
    } else if d == 12 {
        'c'
    } else if d == 13 {
        'd'
    } else if d == 14 {
        'e'
    } else {
        'f'
    }
}

/// The canonical decimal form of an octet: no leading zeros.
pub open spec fn dec_chars(n: int) -> Seq<char> {
    if n < 10 {
        seq![digit_char(n)]
    } else if n < 100 {
        seq![digit_char(n / 10), digit_char(n % 10)]
    } else {
        seq![digit_char(n / 100), digit_char((n / 10) % 10), digit_char(n % 10)]
    }
}

/// The dotted form of a v4 address: four canonical octets joined by dots.
pub open spec fn ipv4_chars(ip: u32) -> Seq<char> {
    dec_chars(ip as int / 0x1000000) + seq!['.'] + dec_chars((ip as int / 0x10000) % 256)
        + seq!['.'] + dec_chars((ip as int / 0x100) % 256) + seq!['.'] + dec_chars(ip as int % 256)
}

/// One sixteen-bit group of a v6 address as four hex digits.
pub open spec fn hex4_chars(g: int) -> Seq<char> {
    seq![
        hex_char(g / 0x1000),
        hex_char((g / 0x100) % 16),
        hex_char((g / 0x10) % 16),
        hex_char(g % 16),
    ]
}

/// The sixteen-bit group of a v6 address at position `k`, counted from
/// the most significant group.
pub open spec fn v6_group(ip: u128, k: int) -> int {
    if k == 0 {
        ip as int / 0x1_0000_0000_0000_0000_0000_0000_0000 % 0x10000
    } else if k == 1 {
        ip as int / 0x1_0000_0000_0000_0000_0000_0000 % 0x10000
    } else if k == 2 {
        ip as int / 0x1_0000_0000_0000_0000_0000 % 0x10000
    } else if k == 3 {
        ip as int / 0x1_0000_0000_0000_0000 % 0x10000
    } else if k == 4 {
        ip as int / 0x1_0000_0000_0000 % 0x10000
    } else if k == 5 {
        ip as int / 0x1_0000_0000 % 0x10000
    } else if k == 6 {
        ip as int / 0x1_0000 % 0x10000
    } else {
        ip as int % 0x10000
    }
}

/// The first `k` groups of the printed v6 form, colon-separated.
pub open spec fn ipv6_prefix(ip: u128, k: int) -> Seq<char>
    decreases k,
{
    if k <= 0 {
        Seq::empty()
    } else if k == 1 {
        hex4_chars(v6_group(ip, 0))
    } else {
        ipv6_prefix(ip, k - 1) + seq![':'] + hex4_chars(v6_group(ip, k - 1))
    }
}

/// The v6 form this library prints: eight colon-separated groups of four
/// hex digits, never compressed.
pub open spec fn ipv6_chars(ip: u128) -> Seq<char> {
    ipv6_prefix(ip, 8)
}

/// The printed form of a numeric host.
pub open spec fn ip_chars(ip: Ip) -> Seq<char> {
    match ip {
        Ip::V4(v) => ipv4_chars(v),
        Ip::V6(v) => ipv6_chars(v),
    }
}

/// One decimal digit as a string slice.
fn digit_str(d: u8) -> (s: &'static str)
    requires
        d < 10,
    ensures
        s@ == seq![digit_char(d as int)],
{
    let s: &'static str = match d {
        0 => "0",
        1 => "1",
        2 => "2",
        3 => "3",
        4 => "4",
        5 => "5",
        6 => "6",
        7 => "7",
        8 => "8",
        _ => "9",
    };
    proof {
        reveal_strlit("0");
        reveal_strlit("1");
        reveal_strlit("2");
        reveal_strlit("3");
        reveal_strlit("4");
        reveal_strlit("5");
        reveal_strlit("6");
        reveal_strlit("7");
        reveal_strlit("8");
        reveal_strlit("9");
        assert(s@ =~= seq![digit_char(d as int)]);
    }
    s
}

/// One lower-case hex digit as a string slice.
fn hex_str(d: u8) -> (s: &'static str)
    requires
        d < 16,
    ensures
        s@ == seq![hex_char(d as int)],
{
    if d < 10 {
        digit_str(d)
    } else {
        let s: &'static str = match d {
            10 => "a",
            11 => "b",
            12 => "c",
            13 => "d",
            14 => "e",
            _ => "f",
        };
        proof {
            reveal_strlit("a");
            reveal_strlit("b");
            reveal_strlit("c");
            reveal_strlit("d");
            reveal_strlit("e");
            reveal_strlit("f");
            assert(s@ =~= seq![hex_char(d as int)]);
        }
        s
    }
}

/// Appends the canonical decimal form of one octet.
fn push_dec(s: &mut String, n: u8)
    ensures
        final(s)@ == old(s)@ + dec_chars(n as int),
{
    if n >= 100 {
        s.append(digit_str(n / 100));
        s.append(digit_str((n / 10) % 10));
        s.append(digit_str(n % 10));
    } else if n >= 10 {
        s.append(digit_str(n / 10));
        s.append(digit_str(n % 10));
    } else {
        s.append(digit_str(n));
    }
    proof {
        assert(s@ =~= old(s)@ + dec_chars(n as int));
    }
}

/// Appends one sixteen-bit group as four hex digits.
fn push_hex4(s: &mut String, g: u16)
    ensures
        final(s)@ == old(s)@ + hex4_chars(g as int),
{
    s.append(hex_str((g / 0x1000) as u8));
    s.append(hex_str(((g / 0x100) % 16) as u8));
    s.append(hex_str(((g / 0x10) % 16) as u8));
    s.append(hex_str((g % 16) as u8));
    proof {
        assert(s@ =~= old(s)@ + hex4_chars(g as int));
    }
}

/// Prints a v4 address in dotted form.
pub fn format_ipv4(ip: u32) -> (s: String)
    ensures
        s@ == ipv4_chars(ip),
{
    let mut s = String::new();
    push_dec(&mut s, (ip / 0x1000000) as u8);
    s.append(".");
    push_dec(&mut s, ((ip / 0x10000) % 256) as u8);
    s.append(".");
    push_dec(&mut s, ((ip / 0x100) % 256) as u8);
    s.append(".");
    push_dec(&mut s, (ip % 256) as u8);
    proof {
        reveal_strlit(".");
        assert(s@ =~= ipv4_chars(ip));
    }
    s
}

/// Prints a v6 address as eight uncompressed hex groups.
#[verifier::rlimit(60)]
pub fn format_ipv6(ip: u128) -> (s: String)
    ensures
        s@ == ipv6_chars(ip),
{
    let mut s = String::new();
    let mut groups: Vec<u16> = Vec::new();
    groups.push((ip / 0x1_0000_0000_0000_0000_0000_0000_0000 % 0x10000) as u16);
    groups.push((ip / 0x1_0000_0000_0000_0000_0000_0000 % 0x10000) as u16);
    groups.push((ip / 0x1_0000_0000_0000_0000_0000 % 0x10000) as u16);
    groups.push((ip / 0x1_0000_0000_0000_0000 % 0x10000) as u16);
    groups.push((ip / 0x1_0000_0000_0000 % 0x10000) as u16);
    groups.push((ip / 0x1_0000_0000 % 0x10000) as u16);
    groups.push((ip / 0x1_0000 % 0x10000) as u16);
    groups.push((ip % 0x10000) as u16);
    let mut k: usize = 0;
    while k < 8
        invariant
            k <= 8,
            groups@.len() == 8,
            forall|i: int| 0 <= i < 8 ==> groups@[i] == v6_group(ip, i),
            s@ == ipv6_prefix(ip, k as int),
        decreases 8 - k,
    {
        if k > 0 {
            s.append(":");
        }
        push_hex4(&mut s, groups[k]);
        proof {
            reveal_strlit(":");
            assert(s@ =~= ipv6_prefix(ip, k as int + 1));
        }
        k += 1;
    }
    s
}

impl SocksAddr {
    /// The host a handler would dial: the printed numeric form, or the
    /// domain exactly as the client presented it.
    pub open spec fn host_chars(self) -> Seq<char> {
        match self {
            SocksAddr::Ip(ep) => ip_chars(ep.ip),
            SocksAddr::Domain(d, _) => d@,
        }
    }

    pub open spec fn port_spec(self) -> u16 {
        match self {
            SocksAddr::Ip(ep) => ep.port,
            SocksAddr::Domain(_, p) => p,
        }
    }

    /// A numeric destination needs no resolution.
    pub open spec fn is_numeric(self) -> bool {
        self is Ip
    }

    pub fn host(&self) -> (h: String)
        ensures
            h@ == self.host_chars(),
    {
        match self {
            SocksAddr::Ip(ep) => match ep.ip {
                Ip::V4(v) => format_ipv4(v),
                Ip::V6(v) => format_ipv6(v),
            },
            SocksAddr::Domain(d, _) => d.clone(),
        }
    }

    pub fn port(&self) -> (p: u16)
        ensures
            p == self.port_spec(),
    {
        match self {
            SocksAddr::Ip(ep) => ep.port,
            SocksAddr::Domain(_, p) => *p,
        }
    }
}


/// A decimal digit character.
pub open spec fn is_digit(c: char) -> bool {
    48 <= c as int <= 57
}

pub open spec fn digit_val(c: char) -> int {
    c as int - 48
}

/// A canonical octet read at position `i`: up to three digits, no
/// leading zero, value at most 255.  Yields the value and the position
/// after the last digit taken.
pub open spec fn parse_octet_at(s: Seq<char>, i: int) -> Option<(int, int)> {
    if 0 <= i < s.len() && is_digit(s[i]) {
        let d0 = digit_val(s[i]);
        if i + 1 < s.len() && is_digit(s[i + 1]) {
            if d0 == 0 {
                None
            } else {
                let d1 = digit_val(s[i + 1]);
                if i + 2 < s.len() && is_digit(s[i + 2]) {
                    let v = d0 * 100 + d1 * 10 + digit_val(s[i + 2]);
                    if v <= 255 {
                        Some((v, i + 3))
                    } else {
                        None
                    }
                } else {
                    Some((d0 * 10 + d1, i + 2))
                }
            }
        } else {
            Some((d0, i + 1))
        }
    } else {
        None
    }
}

/// What a dotted-quad string denotes: four canonical octets joined by
/// dots and nothing else, packed big-endian.
pub open spec fn parse_ipv4_chars(s: Seq<char>) -> Option<u32> {
    match parse_octet_at(s, 0) {
        None => None,
        Some((a, i1)) => if i1 < s.len() && s[i1] == '.' {
            match parse_octet_at(s, i1 + 1) {
                None => None,
                Some((b, i2)) => if i2 < s.len() && s[i2] == '.' {
                    match parse_octet_at(s, i2 + 1) {
                        None => None,
                        Some((c, i3)) => if i3 < s.len() && s[i3] == '.' {
                            match parse_octet_at(s, i3 + 1) {
                                None => None,
                                Some((d, i4)) => if i4 == s.len() {
                                    Some((a * 0x1000000 + b * 0x10000 + c * 0x100 + d) as u32)
                                } else {
                                    None
                                },
                            }
                        } else {
                            None
                        },
                    }
                } else {
                    None
                },
            }
        } else {
            None
        },
    }
}

/// Reads one canonical octet of the dotted form.
fn parse_octet(s: &str, i: usize, len: usize) -> (r: Option<(u8, usize)>)
    requires
        len == s@.len(),
        i <= len,
    ensures
        match r {
            Some(p) => parse_octet_at(s@, i as int) == Some((p.0 as int, p.1 as int)) && i < p.1
                <= len,
            None => parse_octet_at(s@, i as int) is None,
        },
{
    if i >= len {
        return None;
    }
    let c0 = s.get_char(i);
    let v0 = c0 as u32;
    if !(48 <= v0 && v0 <= 57) {
        return None;
    }
    let d0 = (v0 - 48) as u8;
    if i + 1 < len {
        let c1 = s.get_char(i + 1);
        let v1 = c1 as u32;
        if 48 <= v1 && v1 <= 57 {
            if d0 == 0 {
                return None;
            }
            let d1 = (v1 - 48) as u8;
            if i + 2 < len {
                let c2 = s.get_char(i + 2);
                let v2 = c2 as u32;
                if 48 <= v2 && v2 <= 57 {
                    let d2 = (v2 - 48) as u8;
                    let v: u16 = (d0 as u16) * 100 + (d1 as u16) * 10 + (d2 as u16);
                    if v <= 255 {
                        return Some(((v as u8), i + 3));
                    } else {
                        return None;
                    }
                }
            }
            return Some((d0 * 10 + d1, i + 2));
        }
    }
    Some((d0, i + 1))
}

/// Parses a dotted-quad v4 address; returns exactly what the string
/// denotes, and nothing for any other string.
pub fn parse_ipv4(s: &str) -> (r: Option<u32>)
    ensures
        r == parse_ipv4_chars(s@),
{
    let len = s.unicode_len();
    let a = match parse_octet(s, 0, len) {
        Some(p) => p,
        None => {
            return None;
        },
    };
    if !(a.1 < len) || !(s.get_char(a.1) == '.') {
        return None;
    }
    let b = match parse_octet(s, a.1 + 1, len) {
        Some(p) => p,
        None => {
            return None;
        },
    };
    if !(b.1 < len) || !(s.get_char(b.1) == '.') {
        return None;
    }
    let c = match parse_octet(s, b.1 + 1, len) {
        Some(p) => p,
        None => {
            return None;
        },
    };
    if !(c.1 < len) || !(s.get_char(c.1) == '.') {
        return None;
    }
    let d = match parse_octet(s, c.1 + 1, len) {
        Some(p) => p,
        None => {
            return None;
        },
    };
    if d.1 != len {
        return None;
    }
    Some(
        (a.0 as u32) * 0x1000000 + (b.0 as u32) * 0x10000 + (c.0 as u32) * 0x100 + (d.0 as u32),
    )
}


/// Digit characters are digits and decode back to their value.
proof fn lemma_digit_char_val(d: int)
    requires
        0 <= d <= 9,
    ensures
        is_digit(digit_char(d)),
        digit_val(digit_char(d)) == d,
{
}

/// A canonical octet embedded in a string parses to its value and stops
/// right after its last digit.
proof fn lemma_parse_octet_canonical(s: Seq<char>, i: int, v: int)
    requires
        0 <= v <= 255,
        0 <= i,
        i + dec_chars(v).len() <= s.len(),
        forall|k: int| 0 <= k < dec_chars(v).len() ==> s[i + k] == dec_chars(v)[k],
        i + dec_chars(v).len() == s.len() || !is_digit(s[i + dec_chars(v).len()]),
    ensures
        parse_octet_at(s, i) == Some((v, i + dec_chars(v).len())),
{
    if v < 10 {
        lemma_digit_char_val(v);
        assert(s[i] == dec_chars(v)[0]);
    } else if v < 100 {
        lemma_digit_char_val(v / 10);
        lemma_digit_char_val(v % 10);
        assert(s[i] == dec_chars(v)[0]);
        assert(s[i + 1] == dec_chars(v)[1]);
        assert(digit_val(s[i]) * 10 + digit_val(s[i + 1]) == v);
    } else {
        lemma_digit_char_val(v / 100);
        lemma_digit_char_val((v / 10) % 10);
        lemma_digit_char_val(v % 10);
        assert(s[i] == dec_chars(v)[0]);
        assert(s[i + 1] == dec_chars(v)[1]);
        assert(s[i + 2] == dec_chars(v)[2]);
        assert(digit_val(s[i]) * 100 + digit_val(s[i + 1]) * 10 + digit_val(s[i + 2]) == v);
    }
}

/// Printing an address and parsing the result is the identity: the
/// parser accepts exactly the dotted form the printer emits.
pub proof fn lemma_parse_ipv4_round_trip(ip: u32)
    ensures
        parse_ipv4_chars(ipv4_chars(ip)) == Some(ip),
{
    let a = ip as int / 0x1000000;
    let b = (ip as int / 0x10000) % 256;
    let c = (ip as int / 0x100) % 256;
    let d = ip as int % 256;
    let sa = dec_chars(a);
    let sb = dec_chars(b);
    let sc = dec_chars(c);
    let sd = dec_chars(d);
    let dot = seq!['.'];
    let s = ipv4_chars(ip);
    assert(s == sa + dot + sb + dot + sc + dot + sd);
    let la = sa.len() as int;
    let lb = sb.len() as int;
    let lc = sc.len() as int;
    let ld = sd.len() as int;
    let i1 = la;
    let i2 = la + 1 + lb;
    let i3 = la + 1 + lb + 1 + lc;
    assert(s.len() == la + lb + lc + ld + 3);
    assert forall|k: int| 0 <= k < la implies s[k] == sa[k] by {}
    assert(s[i1] == '.');
    assert forall|k: int| 0 <= k < lb implies s[i1 + 1 + k] == sb[k] by {}
    assert(s[i2] == '.');
    assert forall|k: int| 0 <= k < lc implies s[i2 + 1 + k] == sc[k] by {}
    assert(s[i3] == '.');
    assert forall|k: int| 0 <= k < ld implies s[i3 + 1 + k] == sd[k] by {}
    assert(!is_digit('.'));
    lemma_parse_octet_canonical(s, 0, a);
    lemma_parse_octet_canonical(s, i1 + 1, b);
    lemma_parse_octet_canonical(s, i2 + 1, c);
    lemma_parse_octet_canonical(s, i3 + 1, d);
    assert(parse_octet_at(s, 0) == Some((a, i1)));
    assert(parse_octet_at(s, i1 + 1) == Some((b, i2)));
    assert(parse_octet_at(s, i2 + 1) == Some((c, i3)));
    assert(parse_octet_at(s, i3 + 1) == Some((d, s.len() as int)));
    assert(ip / 0x1000000 * 0x1000000 + ip / 0x10000 % 256 * 0x10000 + ip / 0x100 % 256 * 0x100
        + ip % 256 == ip) by (bit_vector);
    assert((a * 0x1000000 + b * 0x10000 + c * 0x100 + d) as u32 == ip);
}


impl PartialEq for SocksAddr {
    /// Equality is structural: same variant, same host form, same port.
    fn eq(&self, other: &SocksAddr) -> (r: bool) {
        match (self, other) {
            (SocksAddr::Ip(a), SocksAddr::Ip(b)) => {
                let ips_equal = match (a.ip, b.ip) {
                    (Ip::V4(x), Ip::V4(y)) => x == y,
                    (Ip::V6(x), Ip::V6(y)) => x == y,
                    _ => false,
                };
                ips_equal && a.port == b.port
            },
            (SocksAddr::Domain(d1, p1), SocksAddr::Domain(d2, p2)) => d1.eq(d2) && p1 == p2,
            _ => false,
        }
    }
}

impl vstd::std_specs::cmp::PartialEqSpecImpl for SocksAddr {
    open spec fn obeys_eq_spec() -> bool {
        true
    }

    open spec fn eq_spec(&self, other: &SocksAddr) -> bool {
        match (self, other) {
            (SocksAddr::Ip(a), SocksAddr::Ip(b)) => a == b,
            (SocksAddr::Domain(d1, p1), SocksAddr::Domain(d2, p2)) => d1@ == d2@ && p1 == p2,
            _ => false,
        }
    }
}


/// A hexadecimal digit, either case.
pub open spec fn is_hex_digit(c: char) -> bool {
    is_digit(c) || 97 <= c as int <= 102 || 65 <= c as int <= 70
}

pub open spec fn hex_val(c: char) -> int {
    if is_digit(c) {
        digit_val(c)
    } else if 97 <= c as int <= 102 {
        c as int - 87
    } else {
        c as int - 55
    }
}

/// A group of one to four hex digits read at `i`, taking as many digits
/// as stand there.  Yields the value and the position after the last
/// digit taken.
pub open spec fn parse_hex_group_at(s: Seq<char>, i: int) -> Option<(u16, int)> {
    if 0 <= i < s.len() && is_hex_digit(s[i]) {
        let d0 = hex_val(s[i]);
        if i + 1 < s.len() && is_hex_digit(s[i + 1]) {
            let d1 = hex_val(s[i + 1]);
            if i + 2 < s.len() && is_hex_digit(s[i + 2]) {
                let d2 = hex_val(s[i + 2]);
                if i + 3 < s.len() && is_hex_digit(s[i + 3]) {
                    let d3 = hex_val(s[i + 3]);
                    Some(((d0 * 0x1000 + d1 * 0x100 + d2 * 0x10 + d3) as u16, i + 4))
                } else {
                    Some(((d0 * 0x100 + d1 * 0x10 + d2) as u16, i + 3))
                }
            } else {
                Some(((d0 * 0x10 + d1) as u16, i + 2))
            }
        } else {
            Some((d0 as u16, i + 1))
        }
    } else {
        None
    }
}

/// A dotted quad that fills the rest of the string, as the last element
/// of a v6 literal: its four octets packed into the two low groups.
pub open spec fn parse_v4_tail(s: Seq<char>, i: int) -> Option<(u16, u16)> {
    match parse_octet_at(s, i) {
        None => None,
        Some((a, i1)) => if i1 < s.len() && s[i1] == '.' {
            match parse_octet_at(s, i1 + 1) {
                None => None,
                Some((b, i2)) => if i2 < s.len() && s[i2] == '.' {
                    match parse_octet_at(s, i2 + 1) {
                        None => None,
                        Some((c, i3)) => if i3 < s.len() && s[i3] == '.' {
                            match parse_octet_at(s, i3 + 1) {
                                None => None,
                                Some((d, i4)) => if i4 == s.len() {
                                    Some((((a * 0x100 + b) as u16), ((c * 0x100 + d) as u16)))
                                } else {
                                    None
                                },
                            }
                        } else {
                            None
                        },
                    }
                } else {
                    None
                },
            }
        } else {
            None
        },
    }
}

/// Packs eight sixteen-bit groups big-endian into one value.
pub open spec fn combine_groups(g: Seq<u16>) -> u128
    recommends
        g.len() == 8,
{
    (g[0] as int * 0x1_0000_0000_0000_0000_0000_0000_0000
        + g[1] as int * 0x1_0000_0000_0000_0000_0000_0000
        + g[2] as int * 0x1_0000_0000_0000_0000_0000 + g[3] as int * 0x1_0000_0000_0000_0000
        + g[4] as int * 0x1_0000_0000_0000 + g[5] as int * 0x1_0000_0000
        + g[6] as int * 0x1_0000 + g[7] as int) as u128
}

/// The zero groups a `::` stood for, restored at its position.
pub open spec fn expand_compressed(g: Seq<u16>, pos: int) -> Seq<u16> {
    g.subrange(0, pos) + Seq::new((8 - g.len()) as nat, |k: int| 0u16) + g.subrange(
        pos,
        g.len() as int,
    )
}

/// Turns collected groups into an address: exactly eight groups, or at
/// most seven with one `::` marking where the zero groups stand.
pub open spec fn finish_v6(groups: Seq<u16>, compress: Option<int>) -> Option<u128> {
    match compress {
        None => if groups.len() == 8 {
            Some(combine_groups(groups))
        } else {
            None
        },
        Some(pos) => if groups.len() <= 7 {
            Some(combine_groups(expand_compressed(groups, pos)))
        } else {
            None
        },
    }
}

/// Walks `group (':' group)*` from `i`: hex groups, one `::` in total,
/// and optionally a dotted quad as the final element.
pub open spec fn parse_v6_rest(
    s: Seq<char>,
    i: int,
    acc: Seq<u16>,
    compress: Option<int>,
) -> Option<u128>
    decreases s.len() - i,
{
    match parse_v4_tail(s, i) {
        Some((hi, lo)) => finish_v6(acc.push(hi).push(lo), compress),
        None => match parse_hex_group_at(s, i) {
            None => None,
            Some((v, j)) => {
                let acc2 = acc.push(v);
                if j == s.len() {
                    finish_v6(acc2, compress)
                } else if s[j] == ':' {
                    if j + 1 < s.len() && s[j + 1] == ':' {
                        if compress is Some {
                            None
                        } else if j + 2 == s.len() {
                            finish_v6(acc2, Some(acc2.len() as int))
                        } else {
                            parse_v6_rest(s, j + 2, acc2, Some(acc2.len() as int))
                        }
                    } else if j + 1 < s.len() {
                        parse_v6_rest(s, j + 1, acc2, compress)
                    } else {
                        None
                    }
                } else {
                    None
                }
            },
        },
    }
}

/// What a v6 literal denotes: colon-separated hex groups, at most one
/// `::` standing for the missing zero groups, optionally ending in a
/// dotted quad for the two low groups.
pub open spec fn parse_ipv6_chars(s: Seq<char>) -> Option<u128> {
    if s.len() >= 2 && s[0] == ':' && s[1] == ':' {
        if s.len() == 2 {
            finish_v6(Seq::empty(), Some(0))
        } else {
            parse_v6_rest(s, 2, Seq::empty(), Some(0))
        }
    } else {
        parse_v6_rest(s, 0, Seq::empty(), None)
    }
}

/// What a numeric host string denotes: a dotted quad, else a v6 literal.
pub open spec fn parse_ip_chars(s: Seq<char>) -> Option<Ip> {
    match parse_ipv4_chars(s) {
        Some(v) => Some(Ip::V4(v)),
        None => match parse_ipv6_chars(s) {
            Some(v) => Some(Ip::V6(v)),
            None => None,
        },
    }
}


/// Spec view of an optional compression position.
pub open spec fn opt_pos(o: Option<usize>) -> Option<int> {
    match o {
        Some(p) => Some(p as int),
        None => None,
    }
}

/// Reads one hex digit, either case.
fn hex_digit_at(s: &str, i: usize) -> (r: Option<u8>)
    requires
        i < s@.len(),
    ensures
        match r {
            Some(v) => is_hex_digit(s@[i as int]) && v as int == hex_val(s@[i as int]) && v < 16,
            None => !is_hex_digit(s@[i as int]),
        },
{
    let c = s.get_char(i);
    let cv = c as u32;
    if 48 <= cv && cv <= 57 {
        Some((cv - 48) as u8)
    } else if 97 <= cv && cv <= 102 {
        Some((cv - 87) as u8)
    } else if 65 <= cv && cv <= 70 {
        Some((cv - 55) as u8)
    } else {
        None
    }
}

/// Reads one hex group of one to four digits.
fn parse_hex_group(s: &str, i: usize, len: usize) -> (r: Option<(u16, usize)>)
    requires
        len == s@.len(),
        i <= len,
    ensures
        match r {
            Some(p) => parse_hex_group_at(s@, i as int) == Some((p.0, p.1 as int)) && i < p.1
                <= len,
            None => parse_hex_group_at(s@, i as int) is None,
        },
{
    if i >= len {
        return None;
    }
    let d0 = match hex_digit_at(s, i) {
        Some(d) => d,
        None => {
            return None;
        },
    };
    if i + 1 < len {
        match hex_digit_at(s, i + 1) {
            Some(d1) => {
                if i + 2 < len {
                    match hex_digit_at(s, i + 2) {
                        Some(d2) => {
                            if i + 3 < len {
                                match hex_digit_at(s, i + 3) {
                                    Some(d3) => {
                                        return Some((
                                            (d0 as u16) * 0x1000 + (d1 as u16) * 0x100 + (d2
                                                as u16) * 0x10 + (d3 as u16),
                                            i + 4,
                                        ));
                                    },
                                    None => {},
                                }
                            }
                            return Some((
                                (d0 as u16) * 0x100 + (d1 as u16) * 0x10 + (d2 as u16),
                                i + 3,
                            ));
                        },
                        None => {},
                    }
                }
                return Some(((d0 as u16) * 0x10 + (d1 as u16), i + 2));
            },
            None => {},
        }
    }
    Some((d0 as u16, i + 1))
}

/// Reads a dotted quad that must fill the rest of the string.
fn parse_v4_tail_exec(s: &str, i: usize, len: usize) -> (r: Option<(u16, u16)>)
    requires
        len == s@.len(),
        i <= len,
    ensures
        r == parse_v4_tail(s@, i as int),
{
    let a = match parse_octet(s, i, len) {
        Some(p) => p,
        None => {
            return None;
        },
    };
    if !(a.1 < len) || !(s.get_char(a.1) == '.') {
        return None;
    }
    let b = match parse_octet(s, a.1 + 1, len) {
        Some(p) => p,
        None => {
            return None;
        },
    };
    if !(b.1 < len) || !(s.get_char(b.1) == '.') {
        return None;
    }
    let c = match parse_octet(s, b.1 + 1, len) {
        Some(p) => p,
        None => {
            return None;
        },
    };
    if !(c.1 < len) || !(s.get_char(c.1) == '.') {
        return None;
    }
    let d = match parse_octet(s, c.1 + 1, len) {
        Some(p) => p,
        None => {
            return None;
        },
    };
    if d.1 != len {
        return None;
    }
    Some(((a.0 as u16) * 0x100 + (b.0 as u16), (c.0 as u16) * 0x100 + (d.0 as u16)))
}

/// Packs eight collected groups big-endian.
fn combine8(g: &Vec<u16>) -> (r: u128)
    requires
        g@.len() == 8,
    ensures
        r == combine_groups(g@),
{
    (g[0] as u128) * 0x1_0000_0000_0000_0000_0000_0000_0000 + (g[1] as u128)
        * 0x1_0000_0000_0000_0000_0000_0000 + (g[2] as u128) * 0x1_0000_0000_0000_0000_0000 + (
    g[3] as u128) * 0x1_0000_0000_0000_0000 + (g[4] as u128) * 0x1_0000_0000_0000 + (g[5] as u128)
        * 0x1_0000_0000 + (g[6] as u128) * 0x1_0000 + (g[7] as u128)
}

/// Checks the group count and restores the groups a `::` stood for.
fn finish_v6_exec(groups: Vec<u16>, compress: Option<usize>) -> (r: Option<u128>)
    requires
        match compress {
            Some(p) => p <= groups@.len(),
            None => true,
        },
    ensures
        r == finish_v6(groups@, opt_pos(compress)),
{
    match compress {
        None => {
            if groups.len() == 8 {
                Some(combine8(&groups))
            } else {
                None
            }
        },
        Some(pos) => {
            if groups.len() <= 7 {
                let mut full: Vec<u16> = Vec::new();
                let mut k: usize = 0;
                while k < pos
                    invariant
                        k <= pos <= groups@.len(),
                        full@ == groups@.subrange(0, k as int),
                    decreases pos - k,
                {
                    full.push(groups[k]);
                    k += 1;
                    proof {
                        assert(full@ =~= groups@.subrange(0, k as int));
                    }
                }
                let zeros: usize = 8 - groups.len();
                let mut z: usize = 0;
                while z < zeros
                    invariant
                        z <= zeros,
                        pos <= groups@.len(),
                        zeros == 8 - groups@.len(),
                        full@ == groups@.subrange(0, pos as int) + Seq::new(
                            z as nat,
                            |q: int| 0u16,
                        ),
                    decreases zeros - z,
                {
                    full.push(0);
                    z += 1;
                    proof {
                        assert(full@ =~= groups@.subrange(0, pos as int) + Seq::new(
                            z as nat,
                            |q: int| 0u16,
                        ));
                    }
                }
                let mut k2: usize = pos;
                while k2 < groups.len()
                    invariant
                        pos <= k2 <= groups@.len(),
                        zeros == 8 - groups@.len(),
                        full@ == groups@.subrange(0, pos as int) + Seq::new(
                            zeros as nat,
                            |q: int| 0u16,
                        ) + groups@.subrange(pos as int, k2 as int),
                    decreases groups@.len() - k2,
                {
                    full.push(groups[k2]);
                    k2 += 1;
                    proof {
                        assert(full@ =~= groups@.subrange(0, pos as int) + Seq::new(
                            zeros as nat,
                            |q: int| 0u16,
                        ) + groups@.subrange(pos as int, k2 as int));
                    }
                }
                proof {
                    assert(full@ =~= expand_compressed(groups@, pos as int));
                }
                Some(combine8(&full))
            } else {
                None
            }
        },
    }
}

/// Walks the groups of a v6 literal, mirroring the grammar exactly.
fn parse_v6_rest_exec(
    s: &str,
    len: usize,
    i: usize,
    acc: Vec<u16>,
    compress: Option<usize>,
) -> (r: Option<u128>)
    requires
        len == s@.len(),
        i <= len,
        match compress {
            Some(p) => p <= acc@.len(),
            None => true,
        },
    ensures
        r == parse_v6_rest(s@, i as int, acc@, opt_pos(compress)),
    decreases len - i,
{
    match parse_v4_tail_exec(s, i, len) {
        Some(t) => {
            let mut acc2 = acc;
            acc2.push(t.0);
            acc2.push(t.1);
            finish_v6_exec(acc2, compress)
        },
        None => {
            let g = match parse_hex_group(s, i, len) {
                Some(g) => g,
                None => {
                    return None;
                },
            };
            let v = g.0;
            let j = g.1;
            let mut acc2 = acc;
            acc2.push(v);
            if j == len {
                finish_v6_exec(acc2, compress)
            } else if s.get_char(j) == ':' {
                if j + 1 < len && s.get_char(j + 1) == ':' {
                    match compress {
                        Some(_) => None,
                        None => {
                            let pos = acc2.len();
                            if j + 2 == len {
                                finish_v6_exec(acc2, Some(pos))
                            } else {
                                parse_v6_rest_exec(s, len, j + 2, acc2, Some(pos))
                            }
                        },
                    }
                } else if j + 1 < len {
                    parse_v6_rest_exec(s, len, j + 1, acc2, compress)
                } else {
                    None
                }
            } else {
                None
            }
        },
    }
}

/// Parses a v6 literal; returns exactly what the string denotes, and
/// nothing for any other string.
pub fn parse_ipv6(s: &str) -> (r: Option<u128>)
    ensures
        r == parse_ipv6_chars(s@),
{
    let len = s.unicode_len();
    if len >= 2 && s.get_char(0) == ':' && s.get_char(1) == ':' {
        if len == 2 {
            finish_v6_exec(Vec::new(), Some(0))
        } else {
            parse_v6_rest_exec(s, len, 2, Vec::new(), Some(0))
        }
    } else {
        parse_v6_rest_exec(s, len, 0, Vec::new(), None)
    }
}

/// Parses a numeric host of either family.
pub fn parse_ip(s: &str) -> (r: Option<Ip>)
    ensures
        r == parse_ip_chars(s@),
{
    match parse_ipv4(s) {
        Some(v) => Some(Ip::V4(v)),
        None => match parse_ipv6(s) {
            Some(v) => Some(Ip::V6(v)),
            None => None,
        },
    }
}

} // verus!
