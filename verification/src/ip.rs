//! Textual IP addresses, read as `str::parse::<std::net::IpAddr>` reads
//! them: a dotted-quad IPv4 address, or an IPv6 address of eight hex groups
//! that may compress one run of zero groups to `::` and may end in an
//! embedded IPv4 address.
use vstd::prelude::*;
use crate::decimal::{all_digits, decimal, digit_char, digit_value, digits_value, is_digit, lemma_decimal_digits};
use crate::text::chars_of;

verus! {

/// An IP address: four octets, or eight 16-bit groups.
#[derive(Debug, Clone, Copy, PartialEq, Eq)]
pub enum ClientIp {
    V4([u8; 4]),
    V6([u16; 8]),
}

/// The kind (`true` for IPv6) and the numbers of an address.
pub open spec fn ip_value(ip: ClientIp) -> (bool, Seq<nat>) {
    match ip {
        ClientIp::V4(o) => (false, Seq::new(4, |i: int| o@[i] as nat)),
        ClientIp::V6(g) => (true, Seq::new(8, |i: int| g@[i] as nat)),
    }
}

/// The fields of `s` between occurrences of `sep`; there is always at
/// least one, and two separators in a row give an empty field.
pub open spec fn split_on(s: Seq<char>, sep: char) -> Seq<Seq<char>>
    decreases s.len(),
{
    if s.len() == 0 {
        seq![Seq::<char>::empty()]
    } else {
        let r = split_on(s.drop_last(), sep);
        if s.last() == sep {
            r.push(Seq::<char>::empty())
        } else {
            r.update(r.len() - 1, r.last().push(s.last()))
        }
    }
}

/// Whether `c` is a hex digit of either case.
pub open spec fn is_hex(c: char) -> bool {
    ('0' <= c && c <= '9') || ('a' <= c && c <= 'f') || ('A' <= c && c <= 'F')
}

/// The value of a hex digit.
pub open spec fn hex_char_value(c: char) -> nat {
    if '0' <= c && c <= '9' {
        (c as int - 48) as nat
    } else if 'a' <= c && c <= 'f' {
        (c as int - 87) as nat
    } else {
        (c as int - 55) as nat
    }
}

/// The number that a string of hex digits denotes.
pub open spec fn hex_value(s: Seq<char>) -> nat
    decreases s.len(),
{
    if s.len() == 0 {
        0
    } else {
        hex_value(s.drop_last()) * 16 + hex_char_value(s.last())
    }
}

/// One to four hex digits: a group of an IPv6 address.
pub open spec fn hex_group(s: Seq<char>) -> bool {
    1 <= s.len() <= 4 && forall|i: int| 0 <= i < s.len() ==> is_hex(#[trigger] s[i])
}

/// One to three decimal digits with no leading zero, at most 255: an octet
/// of an IPv4 address.
pub open spec fn dec_octet(s: Seq<char>) -> bool {
    &&& 1 <= s.len() <= 3
    &&& all_digits(s)
    &&& (s.len() == 1 || s[0] != '0')
    &&& digits_value(s) <= 255
}

/// The octets of a dotted-quad IPv4 address.
pub open spec fn parse_ipv4(s: Seq<char>) -> Option<Seq<nat>> {
    let f = split_on(s, '.');
    if f.len() == 4 && forall|i: int| 0 <= i < 4 ==> dec_octet(#[trigger] f[i]) {
        Some(Seq::new(4, |i: int| digits_value(f[i])))
    } else {
        None
    }
}

/// Every field is a hex group.
pub open spec fn hex_fields(f: Seq<Seq<char>>) -> bool {
    forall|i: int| 0 <= i < f.len() ==> hex_group(#[trigger] f[i])
}

/// The values of hex fields.
pub open spec fn hex_values(f: Seq<Seq<char>>) -> Seq<nat> {
    Seq::new(f.len(), |i: int| hex_value(f[i]))
}

/// The two groups that an embedded IPv4 address stands for.
pub open spec fn v4_groups(o: Seq<nat>) -> Seq<nat> {
    seq![o[0] * 256 + o[1], o[2] * 256 + o[3]]
}

/// The groups of colon-separated fields of which all but the last are hex
/// groups and the last is a hex group or an embedded IPv4 address.
pub open spec fn tail_groups(f: Seq<Seq<char>>) -> Option<Seq<nat>> {
    if f.len() > 0 && hex_fields(f.drop_last()) {
        if hex_group(f.last()) {
            Some(hex_values(f))
        } else {
            match parse_ipv4(f.last()) {
                Some(o) => Some(hex_values(f.drop_last()) + v4_groups(o)),
                None => None,
            }
        }
    } else {
        None
    }
}

/// Whether `::` starts at position `i` of `s`.
pub open spec fn double_colon_at(s: Seq<char>, i: int) -> bool {
    0 <= i && i + 1 < s.len() && s[i] == ':' && s[i + 1] == ':'
}

/// Position of the first `::` of `s` at or after `k`, or -1.
pub open spec fn find_double_colon(s: Seq<char>, k: int) -> int
    decreases s.len() - k,
{
    if k < 0 || k + 1 >= s.len() {
        -1
    } else if double_colon_at(s, k) {
        k
    } else {
        find_double_colon(s, k + 1)
    }
}

/// The eight groups of a textual IPv6 address: either eight groups (the
/// last two possibly an embedded IPv4 address), or groups before and
/// after a single `::` that stands for at least one zero group.
pub open spec fn parse_ipv6(s: Seq<char>) -> Option<Seq<nat>> {
    let p = find_double_colon(s, 0);
    if p < 0 {
        match tail_groups(split_on(s, ':')) {
            Some(g) => if g.len() == 8 {
                Some(g)
            } else {
                None
            },
            None => None,
        }
    } else {
        let h = s.take(p);
        let t = s.skip(p + 2);
        let hg = if h.len() == 0 {
            Some(Seq::<nat>::empty())
        } else if hex_fields(split_on(h, ':')) {
            Some(hex_values(split_on(h, ':')))
        } else {
            None
        };
        let tg = if t.len() == 0 {
            Some(Seq::<nat>::empty())
        } else {
            tail_groups(split_on(t, ':'))
        };
        match (hg, tg) {
            (Some(a), Some(b)) => if a.len() + b.len() <= 7 {
                Some(a + Seq::new((8 - a.len() - b.len()) as nat, |i: int| 0nat) + b)
            } else {
                None
            },
            _ => None,
        }
    }
}

/// The address that `s` spells: IPv4 first, then IPv6.
pub open spec fn parse_ip(s: Seq<char>) -> Option<(bool, Seq<nat>)> {
    match parse_ipv4(s) {
        Some(o) => Some((false, o)),
        None => match parse_ipv6(s) {
            Some(g) => Some((true, g)),
            None => None,
        },
    }
}

proof fn lemma_split_nonempty(s: Seq<char>, sep: char)
    ensures
        split_on(s, sep).len() >= 1,
    decreases s.len(),
{
    if s.len() > 0 {
        lemma_split_nonempty(s.drop_last(), sep);
    }
}

/// The character sequences held by a list of character vectors.
pub open spec fn views(f: Seq<Vec<char>>) -> Seq<Seq<char>> {
    Seq::new(f.len(), |i: int| f[i]@)
}

/// The numbers held by a list of groups.
pub open spec fn group_values(g: Seq<u16>) -> Seq<nat> {
    Seq::new(g.len(), |i: int| g[i] as nat)
}

/// The fields of `v` between occurrences of `sep`.
fn split_fields(v: &Vec<char>, sep: char) -> (r: Vec<Vec<char>>)
    ensures
        r@.len() == split_on(v@, sep).len(),
        forall|i: int| 0 <= i < r@.len() ==> (#[trigger] r@[i])@ == split_on(v@, sep)[i],
        views(r@) == split_on(v@, sep),
{
    let mut done: Vec<Vec<char>> = Vec::new();
    let mut current: Vec<char> = Vec::new();
    let mut i: usize = 0;
    assert(v@.take(0) =~= Seq::<char>::empty());
    while i < v.len()
        invariant
            0 <= i <= v@.len(),
            done@.len() + 1 == split_on(v@.take(i as int), sep).len(),
            forall|j: int| 0 <= j < done@.len() ==> (#[trigger] done@[j])@ == split_on(v@.take(i as int), sep)[j],
            current@ == split_on(v@.take(i as int), sep).last(),
        decreases v@.len() - i,
    {
        let c = v[i];
        let ghost prev = v@.take(i as int);
        let ghost next = v@.take(i + 1);
        proof {
            assert(next.drop_last() =~= prev);
            assert(next.last() == c);
            lemma_split_nonempty(prev, sep);
        }
        if c == sep {
            done.push(current);
            current = Vec::new();
        } else {
            current.push(c);
        }
        i = i + 1;
    }
    assert(v@.take(v@.len() as int) =~= v@);
    done.push(current);
    assert(views(done@) =~= split_on(v@, sep));
    done
}

/// Reads a hex group.
fn read_hex_group(f: &Vec<char>) -> (r: Option<u16>)
    ensures
        match r {
            Some(g) => hex_group(f@) && g as nat == hex_value(f@),
            None => !hex_group(f@),
        },
{
    if f.len() == 0 || f.len() > 4 {
        return None;
    }
    let mut value: u32 = 0;
    let mut i: usize = 0;
    assert(f@.take(0) =~= Seq::<char>::empty());
    while i < f.len()
        invariant
            1 <= f@.len() <= 4,
            0 <= i <= f@.len(),
            forall|j: int| 0 <= j < i ==> is_hex(#[trigger] f@[j]),
            value as nat == hex_value(f@.take(i as int)),
            value < (if i == 0 { 1u32 } else if i == 1 { 16u32 } else if i == 2 { 256u32 } else if i == 3 { 4096u32 } else { 65536u32 }),
        decreases f@.len() - i,
    {
        let c = f[i];
        let d: u32 = if '0' <= c && c <= '9' {
            c as u32 - 48
        } else if 'a' <= c && c <= 'f' {
            c as u32 - 87
        } else if 'A' <= c && c <= 'F' {
            c as u32 - 55
        } else {
            return None;
        };
        proof {
            let next = f@.take(i + 1);
            assert(next.drop_last() =~= f@.take(i as int));
            assert(next.last() == c);
        }
        value = value * 16 + d;
        i = i + 1;
    }
    assert(f@.take(f@.len() as int) =~= f@);
    Some(value as u16)
}

/// Reads an IPv4 octet.
fn read_dec_octet(f: &Vec<char>) -> (r: Option<u8>)
    ensures
        match r {
            Some(o) => dec_octet(f@) && o as nat == digits_value(f@),
            None => !dec_octet(f@),
        },
{
    if f.len() == 0 || f.len() > 3 {
        return None;
    }
    if f.len() > 1 && f[0] == '0' {
        return None;
    }
    let mut value: u32 = 0;
    let mut i: usize = 0;
    assert(f@.take(0) =~= Seq::<char>::empty());
    while i < f.len()
        invariant
            1 <= f@.len() <= 3,
            0 <= i <= f@.len(),
            forall|j: int| 0 <= j < i ==> is_digit(#[trigger] f@[j]),
            value as nat == digits_value(f@.take(i as int)),
            value < (if i == 0 { 1u32 } else if i == 1 { 10u32 } else if i == 2 { 100u32 } else { 1000u32 }),
        decreases f@.len() - i,
    {
        let c = f[i];
        if !('0' <= c && c <= '9') {
            return None;
        }
        let d: u32 = c as u32 - 48;
        proof {
            let next = f@.take(i + 1);
            assert(next.drop_last() =~= f@.take(i as int));
            assert(next.last() == c);
            assert(digit_value(c) == d);
        }
        value = value * 10 + d;
        i = i + 1;
    }
    assert(f@.take(f@.len() as int) =~= f@);
    if value > 255 {
        return None;
    }
    Some(value as u8)
}

/// Reads a dotted-quad IPv4 address.
fn read_ipv4(v: &Vec<char>) -> (r: Option<[u8; 4]>)
    ensures
        match r {
            Some(o) => parse_ipv4(v@) == Some(Seq::new(4, |i: int| o@[i] as nat)),
            None => parse_ipv4(v@) is None,
        },
{
    let f = split_fields(v, '.');
    if f.len() != 4 {
        return None;
    }
    let a = match read_dec_octet(&f[0]) { Some(x) => x, None => return None };
    let b = match read_dec_octet(&f[1]) { Some(x) => x, None => return None };
    let c = match read_dec_octet(&f[2]) { Some(x) => x, None => return None };
    let d = match read_dec_octet(&f[3]) { Some(x) => x, None => return None };
    let o = [a, b, c, d];
    proof {
        let fs = split_on(v@, '.');
        assert(f@[0]@ == fs[0]);
        assert(f@[1]@ == fs[1]);
        assert(f@[2]@ == fs[2]);
        assert(f@[3]@ == fs[3]);
        assert forall|i: int| 0 <= i < 4 implies dec_octet(#[trigger] fs[i]) by {
            if i == 0 {} else if i == 1 {} else if i == 2 {} else {}
        }
        assert(Seq::new(4, |i: int| o@[i] as nat) =~= Seq::new(4, |i: int| digits_value(fs[i])));
    }
    Some(o)
}

/// The characters of `v` from `lo` up to `hi`.
fn sub_chars(v: &Vec<char>, lo: usize, hi: usize) -> (r: Vec<char>)
    requires
        lo <= hi <= v@.len(),
    ensures
        r@ == v@.subrange(lo as int, hi as int),
{
    let mut r: Vec<char> = Vec::new();
    let mut i = lo;
    while i < hi
        invariant
            lo <= i <= hi <= v@.len(),
            r@ == v@.subrange(lo as int, i as int),
        decreases hi - i,
    {
        r.push(v[i]);
        i = i + 1;
        assert(r@ =~= v@.subrange(lo as int, i as int));
    }
    r
}

/// Reads the first `n` fields as hex groups.
fn read_hex_fields(f: &Vec<Vec<char>>, n: usize) -> (r: Option<Vec<u16>>)
    requires
        n <= f@.len(),
    ensures
        match r {
            Some(g) => hex_fields(views(f@).take(n as int)) && group_values(g@) == hex_values(views(f@).take(n as int)),
            None => !hex_fields(views(f@).take(n as int)),
        },
{
    let ghost fs = views(f@).take(n as int);
    let mut g: Vec<u16> = Vec::new();
    let mut i: usize = 0;
    while i < n
        invariant
            n <= f@.len(),
            fs == views(f@).take(n as int),
            0 <= i <= n,
            g@.len() == i,
            forall|j: int| 0 <= j < i ==> hex_group(#[trigger] fs[j]),
            forall|j: int| 0 <= j < i ==> (#[trigger] g@[j]) as nat == hex_value(fs[j]),
        decreases n - i,
    {
        assert(fs[i as int] == f@[i as int]@);
        match read_hex_group(&f[i]) {
            Some(x) => g.push(x),
            None => return None,
        }
        i = i + 1;
    }
    assert(group_values(g@) =~= hex_values(fs));
    Some(g)
}

/// Reads fields whose last one may be an embedded IPv4 address.
fn read_tail_groups(f: &Vec<Vec<char>>) -> (r: Option<Vec<u16>>)
    ensures
        match r {
            Some(g) => tail_groups(views(f@)) == Some(group_values(g@)),
            None => tail_groups(views(f@)) is None,
        },
{
    let ghost fs = views(f@);
    if f.len() == 0 {
        return None;
    }
    let last = f.len() - 1;
    assert(fs.drop_last() =~= fs.take(last as int));
    assert(fs.last() == f@[last as int]@);
    let mut g = match read_hex_fields(f, last) {
        Some(g) => g,
        None => return None,
    };
    match read_hex_group(&f[last]) {
        Some(x) => {
            let ghost before = g@;
            g.push(x);
            proof {
                assert forall|j: int| 0 <= j < fs.len() implies hex_group(#[trigger] fs[j]) by {
                    if j < last {
                        assert(fs.take(last as int)[j] == fs[j]);
                    }
                }
                assert(group_values(before).len() == before.len());
                assert(before.len() == last);
                assert(g@.len() == fs.len());
                assert forall|j: int| 0 <= j < g@.len() implies group_values(g@)[j] == hex_values(fs)[j] by {
                    if j < last {
                        assert(g@[j] == before[j]);
                        assert(group_values(before)[j] == hex_values(fs.take(last as int))[j]);
                        assert(fs.take(last as int)[j] == fs[j]);
                    }
                }
                assert(group_values(g@) =~= hex_values(fs));
            }
            Some(g)
        },
        None => {
            match read_ipv4(&f[last]) {
                Some(o) => {
                    let ghost before = g@;
                    let hi = (o[0] as u16) * 256 + (o[1] as u16);
                    let lo = (o[2] as u16) * 256 + (o[3] as u16);
                    g.push(hi);
                    g.push(lo);
                    proof {
                        let ov = Seq::new(4, |i: int| o@[i] as nat);
                        assert(group_values(g@) =~= group_values(before) + v4_groups(ov));
                    }
                    Some(g)
                },
                None => None,
            }
        },
    }
}

/// Position of the first `::` in `v`.
fn find_double_colon_in(v: &Vec<char>) -> (r: Option<usize>)
    ensures
        match r {
            Some(p) => find_double_colon(v@, 0) == p as int && p + 2 <= v@.len(),
            None => find_double_colon(v@, 0) == -1,
        },
{
    let mut i: usize = 0;
    while i < v.len()
        invariant
            0 <= i <= v@.len(),
            find_double_colon(v@, 0) == find_double_colon(v@, i as int),
        decreases v@.len() - i,
    {
        if i + 1 < v.len() && v[i] == ':' && v[i + 1] == ':' {
            return Some(i);
        }
        i = i + 1;
    }
    None
}

/// Eight groups as an array.
fn to_groups(g: &Vec<u16>) -> (a: [u16; 8])
    requires
        g@.len() == 8,
    ensures
        group_values(a@) == group_values(g@),
{
    let a = [g[0], g[1], g[2], g[3], g[4], g[5], g[6], g[7]];
    assert(group_values(a@) =~= group_values(g@));
    a
}

/// Reads a textual IPv6 address.
fn read_ipv6(v: &Vec<char>) -> (r: Option<[u16; 8]>)
    ensures
        match r {
            Some(a) => parse_ipv6(v@) == Some(group_values(a@)),
            None => parse_ipv6(v@) is None,
        },
{
    match find_double_colon_in(v) {
        None => {
            let f = split_fields(v, ':');
            match read_tail_groups(&f) {
                Some(g) => {
                    if g.len() != 8 {
                        None
                    } else {
                        Some(to_groups(&g))
                    }
                },
                None => None,
            }
        },
        Some(p) => {
            let n = v.len();
            let h = sub_chars(v, 0, p);
            let t = sub_chars(v, p + 2, n);
            assert(h@ =~= v@.take(p as int));
            assert(t@ =~= v@.skip(p + 2));
            let hg: Vec<u16> = if h.len() == 0 {
                let e: Vec<u16> = Vec::new();
                assert(group_values(e@) =~= Seq::<nat>::empty());
                e
            } else {
                let hf = split_fields(&h, ':');
                assert(views(hf@).take(hf@.len() as int) =~= views(hf@));
                match read_hex_fields(&hf, hf.len()) {
                    Some(g) => g,
                    None => return None,
                }
            };
            let tg: Vec<u16> = if t.len() == 0 {
                let e: Vec<u16> = Vec::new();
                assert(group_values(e@) =~= Seq::<nat>::empty());
                e
            } else {
                let tf = split_fields(&t, ':');
                match read_tail_groups(&tf) {
                    Some(g) => g,
                    None => return None,
                }
            };
            if hg.len() > 7 || tg.len() > 7 - hg.len() {
                return None;
            }
            let mut out: Vec<u16> = Vec::new();
            let mut i: usize = 0;
            while i < hg.len()
                invariant
                    0 <= i <= hg@.len(),
                    out@ == hg@.take(i as int),
                decreases hg@.len() - i,
            {
                out.push(hg[i]);
                i = i + 1;
                assert(out@ =~= hg@.take(i as int));
            }
            let zeros = 8 - hg.len() - tg.len();
            let mut z: usize = 0;
            while z < zeros
                invariant
                    z <= zeros,
                    out@ == hg@.take(hg@.len() as int) + Seq::new(z as nat, |k: int| 0u16),
                decreases zeros - z,
            {
                out.push(0);
                z = z + 1;
                assert(out@ =~= hg@.take(hg@.len() as int) + Seq::new(z as nat, |k: int| 0u16));
            }
            let mut j: usize = 0;
            while j < tg.len()
                invariant
                    0 <= j <= tg@.len(),
                    out@ == hg@.take(hg@.len() as int) + Seq::new(zeros as nat, |k: int| 0u16) + tg@.take(j as int),
                decreases tg@.len() - j,
            {
                out.push(tg[j]);
                j = j + 1;
                assert(out@ =~= hg@.take(hg@.len() as int) + Seq::new(zeros as nat, |k: int| 0u16) + tg@.take(j as int));
            }
            proof {
                assert(hg@.take(hg@.len() as int) =~= hg@);
                assert(tg@.take(tg@.len() as int) =~= tg@);
                assert(group_values(out@) =~= group_values(hg@) + Seq::new(zeros as nat, |k: int| 0nat) + group_values(tg@));
            }
            Some(to_groups(&out))
        },
    }
}

/// Splitting text that holds no separator gives the text as its one field.
proof fn lemma_split_without_sep(t: Seq<char>, sep: char)
    requires
        forall|i: int| 0 <= i < t.len() ==> t[i] != sep,
    ensures
        split_on(t, sep) == seq![t],
    decreases t.len(),
{
    if t.len() == 0 {
        assert(t =~= Seq::<char>::empty());
    } else {
        lemma_split_without_sep(t.drop_last(), sep);
        let r = split_on(t.drop_last(), sep);
        assert(r.len() == 1 && r.last() == t.drop_last());
        assert(t.last() != sep);
        assert(split_on(t, sep) == r.update(r.len() - 1, r.last().push(t.last())));
        assert(t.drop_last().push(t.last()) =~= t);
        assert(seq![t.drop_last()].update(0, t.drop_last().push(t.last())) =~= seq![t]);
    }
}

/// Appending a separator and a field without separators adds that field.
proof fn lemma_split_last_field(x: Seq<char>, y: Seq<char>, sep: char)
    requires
        forall|i: int| 0 <= i < y.len() ==> y[i] != sep,
    ensures
        split_on(x + seq![sep] + y, sep) == split_on(x, sep).push(y),
    decreases y.len(),
{
    let u = x + seq![sep] + y;
    if y.len() == 0 {
        assert(y =~= Seq::<char>::empty());
        assert(u.drop_last() =~= x);
        assert(u.last() == sep);
    } else {
        lemma_split_last_field(x, y.drop_last(), sep);
        assert(u.drop_last() =~= x + seq![sep] + y.drop_last());
        assert(u.last() == y.last());
        let r = split_on(x, sep).push(y.drop_last());
        assert(y.drop_last().push(y.last()) =~= y);
        assert(y.last() != sep);
        assert(split_on(u, sep) == split_on(u.drop_last(), sep).update(split_on(u.drop_last(), sep).len() - 1, split_on(u.drop_last(), sep).last().push(u.last())));
        assert(r.last() == y.drop_last());
        assert(r.update(r.len() - 1, r.last().push(y.last())) =~= split_on(x, sep).push(y));
    }
}

/// The decimal text of a number up to 255 is an octet of an IPv4 address
/// with that value, and holds no dot.
proof fn lemma_octet_text(n: nat)
    requires
        n <= 255,
    ensures
        dec_octet(decimal(n)),
        digits_value(decimal(n)) == n,
        forall|i: int| 0 <= i < decimal(n).len() ==> decimal(n)[i] != '.',
{
    lemma_decimal_digits(n);
    reveal_with_fuel(decimal, 3);
    if n >= 10 {
        if n < 100 {
            assert(decimal(n / 10) == seq![digit_char(n / 10)]);
            assert(decimal(n)[0] == digit_char(n / 10));
        } else {
            assert(n / 10 / 10 == n / 100);
            assert(decimal(n / 10 / 10) == seq![digit_char(n / 100)]);
            assert(decimal(n)[0] == digit_char(n / 100));
        }
    }
    assert forall|i: int| 0 <= i < decimal(n).len() implies decimal(n)[i] != '.' by {
        assert(is_digit(decimal(n)[i]));
    }
}

/// Every dotted quad of numbers up to 255, written in decimal without
/// leading zeros, reads as the IPv4 address of those four numbers.
pub proof fn lemma_dotted_quad_reads_back(a: nat, b: nat, c: nat, d: nat)
    requires
        a <= 255,
        b <= 255,
        c <= 255,
        d <= 255,
    ensures
        parse_ip(decimal(a) + seq!['.'] + decimal(b) + seq!['.'] + decimal(c) + seq!['.'] + decimal(d))
            == Some((false, seq![a, b, c, d])),
{
    lemma_octet_text(a);
    lemma_octet_text(b);
    lemma_octet_text(c);
    lemma_octet_text(d);
    let x1 = decimal(a);
    let x2 = x1 + seq!['.'] + decimal(b);
    let x3 = x2 + seq!['.'] + decimal(c);
    let x4 = x3 + seq!['.'] + decimal(d);
    lemma_split_without_sep(x1, '.');
    lemma_split_last_field(x1, decimal(b), '.');
    lemma_split_last_field(x2, decimal(c), '.');
    lemma_split_last_field(x3, decimal(d), '.');
    let f = split_on(x4, '.');
    assert(f =~= seq![decimal(a), decimal(b), decimal(c), decimal(d)]);
    assert(forall|i: int| 0 <= i < 4 ==> dec_octet(#[trigger] f[i]));
    assert(Seq::new(4, |i: int| digits_value(f[i])) =~= seq![a, b, c, d]);
}

/// Reads `s` as an IP address, as `s.parse::<std::net::IpAddr>().ok()`
/// does: an IPv4 address if it is one, otherwise an IPv6 address.
pub fn parse_client_ip(s: &str) -> (r: Option<ClientIp>)
    ensures
        match r {
            Some(ip) => parse_ip(s@) == Some(ip_value(ip)),
            None => parse_ip(s@) is None,
        },
{
    let v = chars_of(s);
    match read_ipv4(&v) {
        Some(o) => {
            assert(Seq::new(4, |i: int| o@[i] as nat) =~= ip_value(ClientIp::V4(o)).1);
            Some(ClientIp::V4(o))
        },
        None => match read_ipv6(&v) {
            Some(g) => {
                assert(group_values(g@) =~= ip_value(ClientIp::V6(g)).1);
                Some(ClientIp::V6(g))
            },
            None => None,
        },
    }
}

} // verus!
