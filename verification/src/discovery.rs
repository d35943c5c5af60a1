//! Finding the SquareLaunch WebSocket service (`_openlaunch-ws._tcp.local.`):
//! the mDNS query the connector multicasts, the answers it reads back, and the
//! lines that the `dns-sd` tool prints.
use vstd::prelude::*;
use vstd::string::StringSliceAdditionalSpecFns;
use vstd::utf8::{decode_utf8, valid_utf8};

use crate::text::{
    chars_of, decimal_text, utf8_text, eq_ignore_case, has_prefix, is_whitespace, is_ws, join_text,
    occurs_at, matches_at, parse_unsigned, push_decimal, push_str, same_text, same_text_ignore_case,
    starts_with, string_from_chars, trim, trim_end, trim_end_char, trim_ws, unsigned_text,
    copy_range,
};

verus! {

#[derive(Debug, Clone, PartialEq, Eq)]
pub struct DiscoveredSquareLaunchEndpoint {
    pub host: String,
    pub port: u16,
}

pub struct EndpointView {
    pub host: Seq<char>,
    pub port: u16,
}

impl View for DiscoveredSquareLaunchEndpoint {
    type V = EndpointView;

    open spec fn view(&self) -> EndpointView {
        EndpointView { host: self.host@, port: self.port }
    }
}

pub open spec fn opt_endpoint(o: Option<DiscoveredSquareLaunchEndpoint>) -> Option<EndpointView> {
    match o {
        Some(e) => Some(e@),
        None => None,
    }
}

// ------------------------------------------------------------------
// Whitespace-separated words
// ------------------------------------------------------------------

/// The words of `s[i..]` given the word `cur` in progress and the words
/// `acc` already complete (what `str::split_whitespace` yields).
pub open spec fn words_from(s: Seq<char>, i: int, cur: Seq<char>, acc: Seq<Seq<char>>) -> Seq<
    Seq<char>,
>
    decreases s.len() - i,
{
    if i < 0 || i >= s.len() {
        if cur.len() > 0 {
            acc.push(cur)
        } else {
            acc
        }
    } else if is_ws(s[i]) {
        words_from(
            s,
            i + 1,
            Seq::empty(),
            if cur.len() > 0 {
                acc.push(cur)
            } else {
                acc
            },
        )
    } else {
        words_from(s, i + 1, cur.push(s[i]), acc)
    }
}

pub open spec fn words(s: Seq<char>) -> Seq<Seq<char>> {
    words_from(s, 0, Seq::empty(), Seq::empty())
}

pub fn split_words(s: &Vec<char>) -> (r: Vec<Vec<char>>)
    ensures
        r@.map_values(|w: Vec<char>| w@) == words(s@),
{
    let mut acc: Vec<Vec<char>> = Vec::new();
    let mut cur: Vec<char> = Vec::new();
    let mut i: usize = 0;
    assert(acc@.map_values(|w: Vec<char>| w@) =~= Seq::<Seq<char>>::empty());
    while i < s.len()
        invariant
            i <= s.len(),
            words(s@) == words_from(s@, i as int, cur@, acc@.map_values(|w: Vec<char>| w@)),
        decreases s.len() - i,
    {
        let ghost acc_v = acc@.map_values(|w: Vec<char>| w@);
        if is_whitespace(s[i]) {
            if cur.len() > 0 {
                let ghost cur_v = cur@;
                let done = cur;
                acc.push(done);
                cur = Vec::new();
                assert(acc@.map_values(|w: Vec<char>| w@) =~= acc_v.push(cur_v));
            } else {
                assert(cur@ =~= Seq::<char>::empty());
            }
        } else {
            cur.push(s[i]);
        }
        i = i + 1;
    }
    if cur.len() > 0 {
        let ghost acc_v = acc@.map_values(|w: Vec<char>| w@);
        let ghost cur_v = cur@;
        acc.push(cur);
        assert(acc@.map_values(|w: Vec<char>| w@) =~= acc_v.push(cur_v));
    }
    acc
}

fn join_words(parts: &Vec<Vec<char>>, from: usize, sep: &Vec<char>) -> (r: Vec<char>)
    requires
        from <= parts.len(),
    ensures
        r@ == join_text(parts@.map_values(|w: Vec<char>| w@).subrange(from as int, parts.len() as int), sep@),
{
    let ghost all = parts@.map_values(|w: Vec<char>| w@);
    let mut out: Vec<char> = Vec::new();
    let mut i: usize = from;
    assert(all.subrange(from as int, from as int) =~= Seq::<Seq<char>>::empty());
    while i < parts.len()
        invariant
            from <= i <= parts.len(),
            all == parts@.map_values(|w: Vec<char>| w@),
            out@ == join_text(all.subrange(from as int, i as int), sep@),
        decreases parts.len() - i,
    {
        let ghost before = all.subrange(from as int, i as int);
        let ghost after = all.subrange(from as int, i + 1);
        assert(after.drop_last() =~= before);
        if i > from {
            let mut s = copy_range(sep, 0, sep.len());
            out.append(&mut s);
        } else {
            assert(after =~= seq![all[i as int]]);
        }
        let mut w = copy_range(&parts[i], 0, parts[i].len());
        out.append(&mut w);
        i = i + 1;
    }
    out
}

// ------------------------------------------------------------------
// dns-sd output
// ------------------------------------------------------------------

/// Index of the first word, at or after `k`, that names the service type.
pub open spec fn service_word(ws: Seq<Seq<char>>, k: int) -> Option<int>
    decreases ws.len() - k,
{
    if k < 0 || k >= ws.len() {
        None
    } else if trim_end_char(ws[k], '.') == "_openlaunch-ws._tcp"@ {
        Some(k)
    } else {
        service_word(ws, k + 1)
    }
}

/// A browse line (`dns-sd -B`): the words after the service type, joined
/// with single spaces, form the instance name.
pub open spec fn browse_instance(line: Seq<char>) -> Option<Seq<char>> {
    let ws = words(line);
    match service_word(ws, 0) {
        None => None,
        Some(k) => {
            let inst = join_text(ws.subrange(k + 1, ws.len() as int), " "@);
            if trim_ws(inst).len() > 0 {
                Some(trim_ws(inst))
            } else {
                None
            }
        },
    }
}

pub fn parse_dns_sd_browse_instance(line: &str) -> (r: Option<String>)
    ensures
        match r {
            Some(s) => browse_instance(line@) == Some(s@),
            None => browse_instance(line@) is None,
        },
{
    let ws = split_words(&chars_of(line));
    let ghost wv = ws@.map_values(|w: Vec<char>| w@);
    let service = chars_of("_openlaunch-ws._tcp");
    let mut k: usize = 0;
    while k < ws.len()
        invariant
            k <= ws.len(),
            wv == ws@.map_values(|w: Vec<char>| w@),
            wv == words(line@),
            service@ == "_openlaunch-ws._tcp"@,
            service_word(wv, 0) == service_word(wv, k as int),
        decreases ws.len() - k,
    {
        if same_text(&trim_end(&ws[k], '.'), &service) {
            let inst = join_words(&ws, k + 1, &chars_of(" "));
            let t = trim(&inst);
            if t.len() > 0 {
                return Some(string_from_chars(&t));
            } else {
                return None;
            }
        }
        k = k + 1;
    }
    None
}

/// Index of the first occurrence of `p` in `s`, searching from `i`.
pub open spec fn first_occurrence(s: Seq<char>, p: Seq<char>, i: int) -> Option<int>
    decreases s.len() + 1 - i,
{
    if i < 0 || i > s.len() {
        None
    } else if occurs_at(s, p, i) {
        Some(i)
    } else {
        first_occurrence(s, p, i + 1)
    }
}

/// Index of the last `c` in `s[..j]`.
pub open spec fn last_index_of(s: Seq<char>, c: char, j: int) -> Option<int>
    decreases j,
{
    if j <= 0 || j > s.len() {
        None
    } else if s[j - 1] == c {
        Some(j - 1)
    } else {
        last_index_of(s, c, j - 1)
    }
}

/// A resolve line (`dns-sd -L`): after the first ` can be reached at `, the
/// next word is `host:port`, split at its last colon; trailing dots leave the
/// host, which must not end up empty.
pub open spec fn resolved_endpoint(line: Seq<char>) -> Option<EndpointView> {
    let marker = " can be reached at "@;
    match first_occurrence(line, marker, 0) {
        None => None,
        Some(at) => {
            let rest_words = words(line.subrange(at + marker.len(), line.len() as int));
            if rest_words.len() == 0 {
                None
            } else {
                let w = rest_words[0];
                match last_index_of(w, ':', w.len() as int) {
                    None => None,
                    Some(c) => match unsigned_text(w.subrange(c + 1, w.len() as int), 10, 65535) {
                        None => None,
                        Some(port) => {
                            let host = trim_end_char(w.subrange(0, c), '.');
                            if host.len() > 0 {
                                Some(EndpointView { host, port: port as u16 })
                            } else {
                                None
                            }
                        },
                    },
                }
            }
        },
    }
}

fn find_first(s: &Vec<char>, p: &Vec<char>) -> (r: Option<usize>)
    ensures
        match r {
            Some(i) => first_occurrence(s@, p@, 0) == Some(i as int) && i + p.len() <= s.len(),
            None => first_occurrence(s@, p@, 0) is None,
        },
{
    let mut i: usize = 0;
    while i <= s.len()
        invariant
            i <= s.len() + 1,
            first_occurrence(s@, p@, 0) == first_occurrence(s@, p@, i as int),
        decreases s.len() + 1 - i,
    {
        if matches_at(s, p, i) {
            return Some(i);
        }
        if i == s.len() {
            assert(first_occurrence(s@, p@, (i + 1) as int) is None);
            return None;
        }
        i = i + 1;
    }
    None
}

fn find_last(s: &Vec<char>, c: char) -> (r: Option<usize>)
    ensures
        match r {
            Some(i) => last_index_of(s@, c, s.len() as int) == Some(i as int) && i < s.len(),
            None => last_index_of(s@, c, s.len() as int) is None,
        },
{
    let mut j: usize = s.len();
    while j > 0
        invariant
            j <= s.len(),
            last_index_of(s@, c, s.len() as int) == last_index_of(s@, c, j as int),
        decreases j,
    {
        if s[j - 1] == c {
            return Some(j - 1);
        }
        j = j - 1;
    }
    None
}

pub fn parse_dns_sd_resolve_endpoint(line: &str) -> (r: Option<DiscoveredSquareLaunchEndpoint>)
    ensures
        opt_endpoint(r) == resolved_endpoint(line@),
{
    let s = chars_of(line);
    let marker = chars_of(" can be reached at ");
    let at = match find_first(&s, &marker) {
        Some(at) => at,
        None => return None,
    };
    let rest = copy_range(&s, at + marker.len(), s.len());
    let ws = split_words(&rest);
    if ws.len() == 0 {
        return None;
    }
    let w = &ws[0];
    let colon = match find_last(w, ':') {
        Some(c) => c,
        None => return None,
    };
    let port = match parse_unsigned(&copy_range(w, colon + 1, w.len()), 10, 65535) {
        Some(p) => p as u16,
        None => return None,
    };
    let host = trim_end(&copy_range(w, 0, colon), '.');
    if host.len() > 0 {
        Some(DiscoveredSquareLaunchEndpoint { host: string_from_chars(&host), port })
    } else {
        None
    }
}

/// A failure line from `dns-sd`: trimmed, it starts with
/// `DNSServiceBrowse failed`, `DNSServiceResolve failed` or
/// `DNSServiceQueryRecord failed`; the trimmed line is the report.
pub open spec fn dns_sd_failure(line: Seq<char>) -> Option<Seq<char>> {
    let t = trim_ws(line);
    if has_prefix(t, "DNSServiceBrowse failed"@) || has_prefix(t, "DNSServiceResolve failed"@)
        || has_prefix(t, "DNSServiceQueryRecord failed"@) {
        Some(t)
    } else {
        None
    }
}

pub fn parse_dns_sd_error(line: &str) -> (r: Option<String>)
    ensures
        match r {
            Some(s) => dns_sd_failure(line@) == Some(s@),
            None => dns_sd_failure(line@) is None,
        },
{
    let t = trim(&chars_of(line));
    if starts_with(&t, &chars_of("DNSServiceBrowse failed")) || starts_with(
        &t,
        &chars_of("DNSServiceResolve failed"),
    ) || starts_with(&t, &chars_of("DNSServiceQueryRecord failed")) {
        Some(string_from_chars(&t))
    } else {
        None
    }
}

// ------------------------------------------------------------------
// mDNS query
// ------------------------------------------------------------------

/// `s` without trailing `c` bytes.
pub open spec fn trim_end_byte(s: Seq<u8>, c: u8) -> Seq<u8>
    decreases s.len(),
{
    if s.len() > 0 && s.last() == c {
        trim_end_byte(s.drop_last(), c)
    } else {
        s
    }
}

/// The pieces of `s[i..]` between `sep` bytes, given the piece `cur` in
/// progress and the pieces `acc` already complete (what `str::split` yields:
/// there is always one piece more than separators).
pub open spec fn split_from(s: Seq<u8>, sep: u8, i: int, cur: Seq<u8>, acc: Seq<Seq<u8>>) -> Seq<Seq<u8>>
    decreases s.len() - i,
{
    if i < 0 || i >= s.len() {
        acc.push(cur)
    } else if s[i] == sep {
        split_from(s, sep, i + 1, Seq::empty(), acc.push(cur))
    } else {
        split_from(s, sep, i + 1, cur.push(s[i]), acc)
    }
}

/// The labels of a DNS name: its bytes without trailing dots, split at dots.
pub open spec fn name_labels_of(name: Seq<u8>) -> Seq<Seq<u8>> {
    split_from(trim_end_byte(name, 0x2e), 0x2e, 0, Seq::empty(), Seq::empty())
}

/// Each label as a length byte and at most 63 of its bytes, then a zero byte.
pub open spec fn encode_labels(labels: Seq<Seq<u8>>) -> Seq<u8>
    decreases labels.len(),
{
    if labels.len() == 0 {
        seq![0u8]
    } else {
        let l = labels[0];
        let n = if l.len() < 63 {
            l.len() as int
        } else {
            63
        };
        seq![n as u8] + l.subrange(0, n) + encode_labels(labels.drop_first())
    }
}

pub open spec fn wire_name(name: Seq<u8>) -> Seq<u8> {
    encode_labels(name_labels_of(name))
}

/// A standard query with one question: the PTR record (type 12) of `name`,
/// class IN with the unicast-response bit set (0x8001).
pub open spec fn ptr_query(name: Seq<u8>) -> Seq<u8> {
    seq![0u8, 0u8, 0u8, 0u8, 0u8, 1u8, 0u8, 0u8, 0u8, 0u8, 0u8, 0u8] + wire_name(name) + seq![
        0u8,
        12u8,
        0x80u8,
        0x01u8,
    ]
}

fn split_dots(s: &Vec<u8>) -> (r: Vec<Vec<u8>>)
    ensures
        r@.map_values(|w: Vec<u8>| w@) == split_from(s@, 0x2e, 0, Seq::empty(), Seq::empty()),
{
    let mut acc: Vec<Vec<u8>> = Vec::new();
    let mut cur: Vec<u8> = Vec::new();
    let mut i: usize = 0;
    assert(acc@.map_values(|w: Vec<u8>| w@) =~= Seq::<Seq<u8>>::empty());
    while i < s.len()
        invariant
            i <= s.len(),
            split_from(s@, 0x2e, 0, Seq::empty(), Seq::empty()) == split_from(
                s@,
                0x2e,
                i as int,
                cur@,
                acc@.map_values(|w: Vec<u8>| w@),
            ),
        decreases s.len() - i,
    {
        if s[i] == 0x2e {
            let ghost acc_v = acc@.map_values(|w: Vec<u8>| w@);
            let ghost cur_v = cur@;
            let done = cur;
            acc.push(done);
            cur = Vec::new();
            assert(acc@.map_values(|w: Vec<u8>| w@) =~= acc_v.push(cur_v));
        } else {
            cur.push(s[i]);
        }
        i = i + 1;
    }
    let ghost acc_v = acc@.map_values(|w: Vec<u8>| w@);
    let ghost cur_v = cur@;
    acc.push(cur);
    assert(acc@.map_values(|w: Vec<u8>| w@) =~= acc_v.push(cur_v));
    acc
}

/// Appends `name` in DNS wire form (see `wire_name`).
pub fn encode_dns_name(name: &str, out: &mut Vec<u8>)
    ensures
        final(out)@ == old(out)@ + wire_name(name.spec_bytes()),
{
    let bytes = name.as_bytes();
    let mut end: usize = bytes.len();
    assert(bytes@.subrange(0, bytes@.len() as int) =~= bytes@);
    while end > 0 && bytes[end - 1] == 0x2e
        invariant
            end <= bytes@.len(),
            trim_end_byte(bytes@, 0x2e) == trim_end_byte(bytes@.subrange(0, end as int), 0x2e),
        decreases end,
    {
        assert(bytes@.subrange(0, end as int).drop_last() =~= bytes@.subrange(0, end - 1));
        end = end - 1;
    }
    let mut trimmed: Vec<u8> = Vec::new();
    let mut i: usize = 0;
    while i < end
        invariant
            i <= end <= bytes@.len(),
            trimmed@ == bytes@.subrange(0, i as int),
        decreases end - i,
    {
        trimmed.push(bytes[i]);
        i = i + 1;
        assert(trimmed@ =~= bytes@.subrange(0, i as int));
    }
    assert(trim_end_byte(trimmed@, 0x2e) == trimmed@);
    let labels = split_dots(&trimmed);
    let ghost lv = labels@.map_values(|w: Vec<u8>| w@);
    let mut k: usize = 0;
    assert(lv.subrange(0, lv.len() as int) =~= lv);
    while k < labels.len()
        invariant
            k <= labels.len(),
            lv == labels@.map_values(|w: Vec<u8>| w@),
            lv == name_labels_of(name.spec_bytes()),
            old(out)@ + encode_labels(lv) == out@ + encode_labels(lv.subrange(k as int, lv.len() as int)),
        decreases labels.len() - k,
    {
        let label = &labels[k];
        let n: usize = if label.len() < 63 {
            label.len()
        } else {
            63
        };
        let ghost before = out@;
        let ghost rest = lv.subrange(k as int, lv.len() as int);
        assert(rest.drop_first() =~= lv.subrange(k + 1, lv.len() as int));
        assert(rest[0] == label@);
        out.push(n as u8);
        let mut j: usize = 0;
        while j < n
            invariant
                j <= n <= label.len(),
                out@ == before.push(n as u8) + label@.subrange(0, j as int),
            decreases n - j,
        {
            out.push(label[j]);
            j = j + 1;
            assert(out@ =~= before.push(n as u8) + label@.subrange(0, j as int));
        }
        assert(before + encode_labels(rest) =~= out@ + encode_labels(rest.drop_first()));
        k = k + 1;
    }
    let ghost before = out@;
    out.push(0);
    assert(lv.subrange(labels.len() as int, lv.len() as int) =~= Seq::<Seq<u8>>::empty());
    assert(out@ =~= before + encode_labels(Seq::<Seq<u8>>::empty()));
}

/// The query the connector multicasts to find the SquareLaunch service.
pub fn build_mdns_ptr_query(name: &str) -> (r: Vec<u8>)
    ensures
        r@ == ptr_query(name.spec_bytes()),
{
    let mut out = vec![0u8, 0u8, 0u8, 0u8, 0u8, 1u8, 0u8, 0u8, 0u8, 0u8, 0u8, 0u8];
    encode_dns_name(name, &mut out);
    out.push(0u8);
    out.push(12u8);
    out.push(0x80u8);
    out.push(0x01u8);
    assert(out@ =~= ptr_query(name.spec_bytes()));
    out
}

// ------------------------------------------------------------------
// mDNS answers
// ------------------------------------------------------------------

pub open spec fn be16(hi: u8, lo: u8) -> int {
    hi as int * 256 + lo as int
}

/// The labels of the DNS name at `off`, following compression pointers (a
/// length byte of 0xc0 or more points to offset `(len - 0xc0) * 256 + next`)
/// at most 16 times. Every label must be valid UTF-8.
pub open spec fn name_labels(p: Seq<u8>, off: int, jumps: int) -> Option<Seq<Seq<char>>>
    decreases 17 - jumps, p.len() - off,
{
    if jumps < 0 || jumps > 16 || off < 0 || off >= p.len() {
        None
    } else if p[off] >= 0xc0 {
        if off + 1 >= p.len() || jumps + 1 > 16 {
            None
        } else {
            name_labels(p, (p[off] - 0xc0) * 256 + p[off + 1], jumps + 1)
        }
    } else if p[off] == 0 {
        Some(Seq::empty())
    } else {
        let end = off + 1 + p[off];
        if end > p.len() || !valid_utf8(p.subrange(off + 1, end)) {
            None
        } else {
            match name_labels(p, end, jumps) {
                Some(rest) => Some(seq![decode_utf8(p.subrange(off + 1, end))] + rest),
                None => None,
            }
        }
    }
}

/// Where the name at `off` ends in place: after its first pointer, or after
/// its terminating zero byte.
pub open spec fn name_end(p: Seq<u8>, off: int) -> int
    decreases p.len() - off,
{
    if off < 0 || off >= p.len() {
        off
    } else if p[off] >= 0xc0 {
        off + 2
    } else if p[off] == 0 {
        off + 1
    } else {
        let end = off + 1 + p[off];
        if end > p.len() {
            end
        } else {
            name_end(p, end)
        }
    }
}

/// The name at `off` (labels joined by dots, with a final dot) and the
/// offset just after it.
pub open spec fn dns_name(p: Seq<u8>, off: int) -> Option<(Seq<char>, int)> {
    match name_labels(p, off, 0) {
        Some(ls) => Some((join_text(ls, "."@) + "."@, name_end(p, off))),
        None => None,
    }
}

pub open spec fn prefixed(pre: Seq<Seq<char>>, r: Option<Seq<Seq<char>>>) -> Option<Seq<Seq<char>>> {
    match r {
        Some(rest) => Some(pre + rest),
        None => None,
    }
}

pub fn decode_dns_name(packet: &[u8], offset: usize) -> (r: Option<(String, usize)>)
    ensures
        match r {
            Some((name, next)) => dns_name(packet@, offset as int) == Some((name@, next as int)),
            None => dns_name(packet@, offset as int) is None,
        },
{
    let ghost p = packet@;
    let mut labels: Vec<Vec<char>> = Vec::new();
    let mut off: usize = offset;
    let mut jumped = false;
    let mut next: usize = offset;
    let mut jumps: usize = 0;
    assert(labels@.map_values(|w: Vec<char>| w@) =~= Seq::<Seq<char>>::empty());
    assert(Seq::<Seq<char>>::empty() + name_labels(p, offset as int, 0)->Some_0 =~= name_labels(p, offset as int, 0)->Some_0);
    loop
        invariant
            p == packet@,
            jumps <= 16,
            name_labels(p, offset as int, 0) == prefixed(
                labels@.map_values(|w: Vec<char>| w@),
                name_labels(p, off as int, jumps as int),
            ),
            !jumped ==> jumps == 0 && name_end(p, offset as int) == name_end(p, off as int),
            jumped ==> next == name_end(p, offset as int),
        ensures
            name_labels(p, offset as int, 0) == Some(labels@.map_values(|w: Vec<char>| w@)),
            next == name_end(p, offset as int),
        decreases 17 - jumps, packet.len() - off,
    {
        let ghost lv = labels@.map_values(|w: Vec<char>| w@);
        if off >= packet.len() {
            return None;
        }
        let len = packet[off];
        if len >= 0xc0 {
            if off + 1 >= packet.len() {
                return None;
            }
            let b2 = packet[off + 1];
            let ptr: usize = ((len - 0xc0) as usize) * 256 + (b2 as usize);
            if !jumped {
                next = off + 2;
            }
            off = ptr;
            jumped = true;
            jumps = jumps + 1;
            if jumps > 16 {
                return None;
            }
            continue;
        }
        if len == 0 {
            if !jumped {
                next = off + 1;
            }
            break;
        }
        let start = off + 1;
        if packet.len() - start < len as usize {
            return None;
        }
        let end = start + len as usize;
        let piece = vstd::slice::slice_subrange(packet, start, end);
        let label = match utf8_text(piece) {
            Some(l) => l,
            None => return None,
        };
        let ghost rest = name_labels(p, end as int, jumps as int);
        labels.push(chars_of(label.as_str()));
        assert(labels@.map_values(|w: Vec<char>| w@) =~= lv.push(decode_utf8(p.subrange(start as int, end as int))));
        assert(match rest {
            Some(r) => lv + (seq![decode_utf8(p.subrange(start as int, end as int))] + r) =~= lv.push(decode_utf8(p.subrange(start as int, end as int))) + r,
            None => true,
        });
        off = end;
    }
    let ghost lv = labels@.map_values(|w: Vec<char>| w@);
    assert(lv + Seq::<Seq<char>>::empty() =~= lv);
    let mut text = join_words(&labels, 0, &chars_of("."));
    assert(lv.subrange(0, lv.len() as int) =~= lv);
    push_str(&mut text, ".");
    Some((string_from_chars(&text), next))
}

/// What the connector keeps from mDNS answers: service instance names (PTR),
/// service locations (SRV: instance, target host, port) and host addresses (A).
#[derive(Debug, Clone, PartialEq, Eq)]
pub struct MdnsRecords {
    pub instances: Vec<String>,
    pub srvs: Vec<(String, String, u16)>,
    pub addrs: Vec<(String, (u8, u8, u8, u8))>,
}

pub struct MdnsView {
    pub instances: Seq<Seq<char>>,
    pub srvs: Seq<(Seq<char>, Seq<char>, u16)>,
    pub addrs: Seq<(Seq<char>, (u8, u8, u8, u8))>,
}

impl View for MdnsRecords {
    type V = MdnsView;

    open spec fn view(&self) -> MdnsView {
        MdnsView {
            instances: self.instances@.map_values(|s: String| s@),
            srvs: self.srvs@.map_values(|t: (String, String, u16)| (t.0@, t.1@, t.2)),
            addrs: self.addrs@.map_values(|t: (String, (u8, u8, u8, u8))| (t.0@, t.1)),
        }
    }
}

impl Default for MdnsRecords {
    fn default() -> (r: Self)
        ensures
            r@.instances.len() == 0 && r@.srvs.len() == 0 && r@.addrs.len() == 0,
    {
        MdnsRecords { instances: Vec::new(), srvs: Vec::new(), addrs: Vec::new() }
    }
}

/// What one resource record adds: an A record with four bytes of data gives
/// an address, a PTR record an instance, an SRV record with at least six
/// bytes of data a location (port in data bytes 4 and 5, target from byte 6).
pub open spec fn record_effect(p: Seq<u8>, name: Seq<char>, rr_type: int, rd_len: int, rdata: int, f: MdnsView) -> MdnsView {
    if rr_type == 1 && rd_len == 4 {
        MdnsView { addrs: f.addrs.push((name, (p[rdata], p[rdata + 1], p[rdata + 2], p[rdata + 3]))), ..f }
    } else if rr_type == 12 {
        match dns_name(p, rdata) {
            Some((ptr, _)) => MdnsView { instances: f.instances.push(ptr), ..f },
            None => f,
        }
    } else if rr_type == 33 && rd_len >= 6 {
        match dns_name(p, rdata + 6) {
            Some((target, _)) => MdnsView {
                srvs: f.srvs.push((name, target, be16(p[rdata + 4], p[rdata + 5]) as u16)),
                ..f
            },
            None => f,
        }
    } else {
        f
    }
}

/// Skips `n` questions (a name and four bytes each) from `off`.
pub open spec fn skip_questions(p: Seq<u8>, off: int, n: int) -> Option<int>
    decreases n,
{
    if n <= 0 {
        Some(off)
    } else {
        match dns_name(p, off) {
            None => None,
            Some((_, next)) => if next + 4 > p.len() {
                None
            } else {
                skip_questions(p, next + 4, n - 1)
            },
        }
    }
}

/// Reads `n` resource records from `off`; reading stops at the first record
/// that does not fit in the packet.
pub open spec fn read_records(p: Seq<u8>, off: int, n: int, f: MdnsView) -> MdnsView
    decreases n,
{
    if n <= 0 {
        f
    } else {
        match dns_name(p, off) {
            None => f,
            Some((name, next)) => if next + 10 > p.len() {
                f
            } else {
                let rdata = next + 10;
                let rd = be16(p[next + 8], p[next + 9]);
                if rdata + rd > p.len() {
                    f
                } else {
                    read_records(
                        p,
                        rdata + rd,
                        n - 1,
                        record_effect(p, name, be16(p[next], p[next + 1]), rd, rdata, f),
                    )
                }
            },
        }
    }
}

/// What a packet adds to `f`: after the 12-byte header and the questions,
/// the answer, authority and additional records, in order.
pub open spec fn mdns_answers(p: Seq<u8>, f: MdnsView) -> MdnsView {
    if p.len() < 12 {
        f
    } else {
        match skip_questions(p, 12, be16(p[4], p[5])) {
            None => f,
            Some(o) => read_records(p, o, be16(p[6], p[7]) + be16(p[8], p[9]) + be16(p[10], p[11]), f),
        }
    }
}

fn be16_exec(hi: u8, lo: u8) -> (r: usize)
    ensures
        r == be16(hi, lo),
{
    (hi as usize) * 256 + (lo as usize)
}

pub fn parse_mdns_packet(packet: &[u8], records: &mut MdnsRecords)
    ensures
        final(records)@ == mdns_answers(packet@, old(records)@),
{
    let ghost p = packet@;
    if packet.len() < 12 {
        return;
    }
    let qd = be16_exec(packet[4], packet[5]);
    let total = be16_exec(packet[6], packet[7]) + be16_exec(packet[8], packet[9]) + be16_exec(
        packet[10],
        packet[11],
    );
    let mut offset: usize = 12;
    let mut q: usize = 0;
    while q < qd
        invariant
            p == packet@,
            q <= qd,
            qd == be16(p[4], p[5]),
            skip_questions(p, 12, qd as int) == skip_questions(p, offset as int, qd - q),
            offset <= packet.len(),
        decreases qd - q,
    {
        let next = match decode_dns_name(packet, offset) {
            Some((_, next)) => next,
            None => return,
        };
        if next > packet.len() || packet.len() - next < 4 {
            return;
        }
        offset = next + 4;
        q = q + 1;
    }
    let ghost start = offset;
    let mut k: usize = 0;
    while k < total
        invariant
            p == packet@,
            k <= total,
            p.len() >= 12,
            total == be16(p[6], p[7]) + be16(p[8], p[9]) + be16(p[10], p[11]),
            skip_questions(p, 12, be16(p[4], p[5])) == Some(start as int),
            mdns_answers(p, old(records)@) == read_records(p, offset as int, total - k, records@),
            offset <= packet.len(),
        decreases total - k,
    {
        let (name, next) = match decode_dns_name(packet, offset) {
            Some(d) => d,
            None => return,
        };
        if next > packet.len() || packet.len() - next < 10 {
            return;
        }
        let rr_type = be16_exec(packet[next], packet[next + 1]);
        let rd_len = be16_exec(packet[next + 8], packet[next + 9]);
        let rdata = next + 10;
        if packet.len() - rdata < rd_len {
            return;
        }
        let ghost before = records@;
        let ghost name_v = name@;
        if rr_type == 1 && rd_len == 4 {
            let ip = (packet[rdata], packet[rdata + 1], packet[rdata + 2], packet[rdata + 3]);
            records.addrs.push((name, ip));
            assert(records@.addrs =~= before.addrs.push((name_v, ip)));
            assert(records@.srvs =~= before.srvs);
            assert(records@.instances =~= before.instances);
        } else if rr_type == 12 {
            if let Some((ptr, _)) = decode_dns_name(packet, rdata) {
                let ghost ptr_v = ptr@;
                records.instances.push(ptr);
                assert(records@.instances =~= before.instances.push(ptr_v));
                assert(records@.srvs =~= before.srvs);
                assert(records@.addrs =~= before.addrs);
            }
        } else if rr_type == 33 && rd_len >= 6 {
            let port = be16_exec(packet[rdata + 4], packet[rdata + 5]) as u16;
            if let Some((target, _)) = decode_dns_name(packet, rdata + 6) {
                let ghost target_v = target@;
                records.srvs.push((name, target, port));
                assert(records@.srvs =~= before.srvs.push((name_v, target_v, port)));
                assert(records@.instances =~= before.instances);
                assert(records@.addrs =~= before.addrs);
            }
        }
        assert(records@ == record_effect(p, name_v, rr_type as int, rd_len as int, rdata as int, before));
        offset = rdata + rd_len;
        k = k + 1;
    }
}

/// DNS names compared without trailing dots and without regard to ASCII case.
pub open spec fn names_equal(a: Seq<char>, b: Seq<char>) -> bool {
    eq_ignore_case(trim_end_char(a, '.'), trim_end_char(b, '.'))
}

pub fn dns_names_equal(a: &str, b: &str) -> (r: bool)
    ensures
        r == names_equal(a@, b@),
{
    same_text_ignore_case(&trim_end(&chars_of(a), '.'), &trim_end(&chars_of(b), '.'))
}

/// Index of the first location, at or after `k`, for a known instance (any
/// instance when none is known).
pub open spec fn srv_for_instance(v: MdnsView, k: int) -> Option<int>
    decreases v.srvs.len() - k,
{
    if k < 0 || k >= v.srvs.len() {
        None
    } else if v.instances.len() == 0 || v.instances.contains(v.srvs[k].0) {
        Some(k)
    } else {
        srv_for_instance(v, k + 1)
    }
}

/// Index of the first address, at or after `k`, recorded for `target`.
pub open spec fn addr_for(v: MdnsView, target: Seq<char>, k: int) -> Option<int>
    decreases v.addrs.len() - k,
{
    if k < 0 || k >= v.addrs.len() {
        None
    } else if names_equal(v.addrs[k].0, target) {
        Some(k)
    } else {
        addr_for(v, target, k + 1)
    }
}

/// Dotted-decimal rendering of an IPv4 address.
pub open spec fn ipv4_text(a: (u8, u8, u8, u8)) -> Seq<char> {
    decimal_text(a.0 as nat) + "."@ + decimal_text(a.1 as nat) + "."@ + decimal_text(a.2 as nat)
        + "."@ + decimal_text(a.3 as nat)
}

/// The endpoint the records describe: the first location for a known
/// instance, its port, and the first address recorded for its target host
/// (the target itself, without trailing dots, when no address is known).
pub open spec fn mdns_endpoint(v: MdnsView) -> Option<EndpointView> {
    match srv_for_instance(v, 0) {
        None => None,
        Some(i) => {
            let target = v.srvs[i].1;
            let host = match addr_for(v, target, 0) {
                Some(j) => ipv4_text(v.addrs[j].1),
                None => trim_end_char(target, '.'),
            };
            Some(EndpointView { host, port: v.srvs[i].2 })
        },
    }
}

pub fn ipv4_to_string(a: (u8, u8, u8, u8)) -> (r: String)
    ensures
        r@ == ipv4_text(a),
{
    let mut out: Vec<char> = Vec::new();
    push_decimal(&mut out, a.0 as u64);
    push_str(&mut out, ".");
    push_decimal(&mut out, a.1 as u64);
    push_str(&mut out, ".");
    push_decimal(&mut out, a.2 as u64);
    push_str(&mut out, ".");
    push_decimal(&mut out, a.3 as u64);
    assert(out@ =~= ipv4_text(a));
    string_from_chars(&out)
}

impl MdnsRecords {
    fn knows_instance(&self, name: &String) -> (r: bool)
        ensures
            r == self@.instances.contains(name@),
    {
        let target = chars_of(name.as_str());
        let mut i: usize = 0;
        while i < self.instances.len()
            invariant
                i <= self.instances.len(),
                target@ == name@,
                forall|j: int| 0 <= j < i ==> self@.instances[j] != name@,
            decreases self.instances.len() - i,
        {
            if same_text(&chars_of(self.instances[i].as_str()), &target) {
                assert(self@.instances[i as int] == name@);
                return true;
            }
            i = i + 1;
        }
        assert forall|j: int| 0 <= j < self@.instances.len() implies self@.instances[j] != name@ by {}
        false
    }

    /// The SquareLaunch endpoint the records describe, if any.
    pub fn endpoint(&self) -> (r: Option<DiscoveredSquareLaunchEndpoint>)
        ensures
            opt_endpoint(r) == mdns_endpoint(self@),
    {
        let ghost v = self@;
        let mut i: usize = 0;
        while i < self.srvs.len()
            invariant
                i <= self.srvs.len(),
                v == self@,
                srv_for_instance(v, 0) == srv_for_instance(v, i as int),
            decreases self.srvs.len() - i,
        {
            if self.instances.len() == 0 || self.knows_instance(&self.srvs[i].0) {
                let target = &self.srvs[i].1;
                let port = self.srvs[i].2;
                assert(srv_for_instance(v, i as int) == Some(i as int));
                let mut j: usize = 0;
                while j < self.addrs.len()
                    invariant
                        j <= self.addrs.len(),
                        v == self@,
                        i < self.srvs.len(),
                        target@ == v.srvs[i as int].1,
                        port == v.srvs[i as int].2,
                        srv_for_instance(v, 0) == Some(i as int),
                        addr_for(v, v.srvs[i as int].1, 0) == addr_for(v, v.srvs[i as int].1, j as int),
                    decreases self.addrs.len() - j,
                {
                    if dns_names_equal(self.addrs[j].0.as_str(), target.as_str()) {
                        let host = ipv4_to_string(self.addrs[j].1);
                        return Some(DiscoveredSquareLaunchEndpoint { host, port });
                    }
                    j = j + 1;
                }
                let host = string_from_chars(&trim_end(&chars_of(target.as_str()), '.'));
                return Some(DiscoveredSquareLaunchEndpoint { host, port });
            }
            i = i + 1;
        }
        None
    }
}

// ------------------------------------------------------------------
// Discovery plan
// ------------------------------------------------------------------

/// The multicast query for the SquareLaunch service type.
pub fn squarelaunch_query() -> (r: Vec<u8>)
    ensures
        r@ == ptr_query("_openlaunch-ws._tcp.local.".spec_bytes()),
{
    build_mdns_ptr_query("_openlaunch-ws._tcp.local.")
}

/// How a time budget (in nanoseconds) is split between two attempts: the
/// first gets at most two seconds, the second what is left but at least one
/// second.
pub open spec fn budget_split(timeout_ns: u64) -> (u64, u64) {
    let first: u64 = if timeout_ns < 2_000_000_000 {
        timeout_ns
    } else {
        2_000_000_000
    };
    let rest: int = timeout_ns - first;
    (first, if rest > 1_000_000_000 {
        rest as u64
    } else {
        1_000_000_000u64
    })
}

pub fn split_budget(timeout_ns: u64) -> (r: (u64, u64))
    ensures
        r == budget_split(timeout_ns),
{
    let first: u64 = if timeout_ns < 2_000_000_000 {
        timeout_ns
    } else {
        2_000_000_000
    };
    let rest = timeout_ns - first;
    (first, if rest > 1_000_000_000 {
        rest
    } else {
        1_000_000_000
    })
}

/// The result of discovery: the endpoint that the multicast query found,
/// when it found one; otherwise what the `dns-sd` browse-and-resolve attempt
/// gave, with its failures explained. (The `dns-sd` result is not looked at
/// when the multicast query succeeded.)
pub fn discover_squarelaunch_ws_endpoint(
    udp: Option<DiscoveredSquareLaunchEndpoint>,
    dns_sd: Result<Option<DiscoveredSquareLaunchEndpoint>, String>,
) -> (r: Result<DiscoveredSquareLaunchEndpoint, String>)
    ensures
        match udp {
            Some(e) => r == Ok::<DiscoveredSquareLaunchEndpoint, String>(e),
            None => match dns_sd {
                Ok(Some(e)) => r == Ok::<DiscoveredSquareLaunchEndpoint, String>(e),
                Ok(None) => r matches Err(m) && m@
                    == "SquareLaunch WebSocket discovery timed out; no _openlaunch-ws._tcp.local. service found"@,
                Err(err) => r matches Err(m) && m@ == "SquareLaunch WebSocket discovery failed: "@ + err@,
            },
        },
{
    if let Some(e) = udp {
        return Ok(e);
    }
    match dns_sd {
        Ok(Some(e)) => Ok(e),
        Ok(None) => Err(
            crate::text::text_of(
                "SquareLaunch WebSocket discovery timed out; no _openlaunch-ws._tcp.local. service found",
            ),
        ),
        Err(err) => {
            let mut msg = chars_of("SquareLaunch WebSocket discovery failed: ");
            push_str(&mut msg, err.as_str());
            Err(string_from_chars(&msg))
        },
    }
}

/// What one line of `dns-sd` output means while waiting for an answer.
#[derive(Debug, Clone, PartialEq, Eq)]
pub enum DnsSdLine<T> {
    /// The tool reported a failure: the search ends with this error.
    Failed(String),
    /// The line carries the answer: the search ends with it.
    Found(T),
    /// Nothing useful: keep reading.
    Continue,
}

/// A line while browsing: a failure report wins over an instance name.
pub fn browse_line_outcome(line: &str) -> (r: DnsSdLine<String>)
    ensures
        match dns_sd_failure(line@) {
            Some(e) => r matches DnsSdLine::Failed(m) && m@ == e,
            None => match browse_instance(line@) {
                Some(i) => r matches DnsSdLine::Found(f) && f@ == i,
                None => r is Continue,
            },
        },
{
    if let Some(err) = parse_dns_sd_error(line) {
        return DnsSdLine::Failed(err);
    }
    match parse_dns_sd_browse_instance(line) {
        Some(instance) => DnsSdLine::Found(instance),
        None => DnsSdLine::Continue,
    }
}

/// A line while resolving: a failure report wins over an endpoint.
pub fn resolve_line_outcome(line: &str) -> (r: DnsSdLine<DiscoveredSquareLaunchEndpoint>)
    ensures
        match dns_sd_failure(line@) {
            Some(e) => r matches DnsSdLine::Failed(m) && m@ == e,
            None => match resolved_endpoint(line@) {
                Some(ep) => r matches DnsSdLine::Found(f) && f@ == ep,
                None => r is Continue,
            },
        },
{
    if let Some(err) = parse_dns_sd_error(line) {
        return DnsSdLine::Failed(err);
    }
    match parse_dns_sd_resolve_endpoint(line) {
        Some(endpoint) => DnsSdLine::Found(endpoint),
        None => DnsSdLine::Continue,
    }
}

// ------------------------------------------------------------------
// Laws
// ------------------------------------------------------------------

/// A label that the wire form carries whole and a reader can decode.
pub open spec fn plain_label(l: Seq<u8>) -> bool {
    0 < l.len() <= 63 && valid_utf8(l)
}

pub open spec fn decoded_labels(ls: Seq<Seq<u8>>) -> Seq<Seq<char>> {
    ls.map_values(|l: Seq<u8>| decode_utf8(l))
}

proof fn lemma_encoded_labels_read_back(p: Seq<u8>, off: int, ls: Seq<Seq<u8>>)
    requires
        0 <= off,
        off + encode_labels(ls).len() <= p.len(),
        p.subrange(off, off + encode_labels(ls).len()) == encode_labels(ls),
        forall|k: int| 0 <= k < ls.len() ==> plain_label(#[trigger] ls[k]),
    ensures
        name_labels(p, off, 0) == Some(decoded_labels(ls)),
    decreases ls.len(),
{
    let e = encode_labels(ls);
    assert(p[off] == e[0]);
    if ls.len() == 0 {
        assert(decoded_labels(ls) =~= Seq::<Seq<char>>::empty());
    } else {
        let l = ls[0];
        let n = l.len() as int;
        let rest = ls.drop_first();
        let er = encode_labels(rest);
        assert(plain_label(l));
        assert(e =~= seq![n as u8] + l + er);
        assert(p[off] == n);
        let end = off + 1 + n;
        assert(p.subrange(off + 1, end) =~= l) by {
            assert forall|k: int| 0 <= k < n implies p.subrange(off + 1, end)[k] == l[k] by {
                assert(p[off + 1 + k] == e[1 + k]);
            }
        }
        assert(p.subrange(end, end + er.len()) =~= er) by {
            assert forall|k: int| 0 <= k < er.len() implies p.subrange(end, end + er.len())[k] == er[k] by {
                assert(p[end + k] == e[1 + n + k]);
            }
        }
        assert forall|k: int| 0 <= k < rest.len() implies plain_label(#[trigger] rest[k]) by {
            assert(rest[k] == ls[k + 1]);
        }
        lemma_encoded_labels_read_back(p, end, rest);
        assert(decoded_labels(ls) =~= seq![decode_utf8(l)] + decoded_labels(rest));
    }
}

/// The name the connector asks for reads back from its own query: decoding
/// the question's name in the packet that `build_mdns_ptr_query` makes gives
/// the labels of the name asked for, provided each label is non-empty, at
/// most 63 bytes long and valid UTF-8.
pub proof fn law_query_name_reads_back(name: Seq<u8>)
    requires
        forall|k: int| 0 <= k < name_labels_of(name).len() ==> plain_label(#[trigger] name_labels_of(name)[k]),
    ensures
        name_labels(ptr_query(name), 12, 0) == Some(decoded_labels(name_labels_of(name))),
{
    let p = ptr_query(name);
    let w = wire_name(name);
    assert(p.subrange(12, 12 + w.len() as int) =~= w);
    lemma_encoded_labels_read_back(p, 12, name_labels_of(name));
}

/// Every record in `f` is still in `g`, where it was: `g` only adds records.
pub open spec fn keeps_records(f: MdnsView, g: MdnsView) -> bool {
    &&& f.instances.len() <= g.instances.len()
    &&& g.instances.subrange(0, f.instances.len() as int) == f.instances
    &&& f.srvs.len() <= g.srvs.len()
    &&& g.srvs.subrange(0, f.srvs.len() as int) == f.srvs
    &&& f.addrs.len() <= g.addrs.len()
    &&& g.addrs.subrange(0, f.addrs.len() as int) == f.addrs
}

proof fn lemma_keeps_records_trans(f: MdnsView, g: MdnsView, h: MdnsView)
    requires
        keeps_records(f, g),
        keeps_records(g, h),
    ensures
        keeps_records(f, h),
{
    assert(h.instances.subrange(0, f.instances.len() as int) =~= g.instances.subrange(0, f.instances.len() as int));
    assert(h.srvs.subrange(0, f.srvs.len() as int) =~= g.srvs.subrange(0, f.srvs.len() as int));
    assert(h.addrs.subrange(0, f.addrs.len() as int) =~= g.addrs.subrange(0, f.addrs.len() as int));
}

proof fn lemma_record_effect_keeps(p: Seq<u8>, name: Seq<char>, rr_type: int, rd_len: int, rdata: int, f: MdnsView)
    ensures
        keeps_records(f, record_effect(p, name, rr_type, rd_len, rdata, f)),
{
    let g = record_effect(p, name, rr_type, rd_len, rdata, f);
    assert(g.instances.subrange(0, f.instances.len() as int) =~= f.instances);
    assert(g.srvs.subrange(0, f.srvs.len() as int) =~= f.srvs);
    assert(g.addrs.subrange(0, f.addrs.len() as int) =~= f.addrs);
}

proof fn lemma_read_records_keeps(p: Seq<u8>, off: int, n: int, f: MdnsView)
    ensures
        keeps_records(f, read_records(p, off, n, f)),
    decreases n,
{
    assert(f.instances.subrange(0, f.instances.len() as int) =~= f.instances);
    assert(f.srvs.subrange(0, f.srvs.len() as int) =~= f.srvs);
    assert(f.addrs.subrange(0, f.addrs.len() as int) =~= f.addrs);
    if n > 0 {
        if let Some((name, next)) = dns_name(p, off) {
            if next + 10 <= p.len() {
                let rdata = next + 10;
                let rd = be16(p[next + 8], p[next + 9]);
                if rdata + rd <= p.len() {
                    let g = record_effect(p, name, be16(p[next], p[next + 1]), rd, rdata, f);
                    lemma_record_effect_keeps(p, name, be16(p[next], p[next + 1]), rd, rdata, f);
                    lemma_read_records_keeps(p, rdata + rd, n - 1, g);
                    lemma_keeps_records_trans(f, g, read_records(p, rdata + rd, n - 1, g));
                }
            }
        }
    }
}

/// Reading a packet only adds records: every instance, service location and
/// address learned from earlier packets is kept, in order, whatever the
/// packet holds.
pub proof fn law_packets_only_add_records(packet: Seq<u8>, before: MdnsView)
    ensures
        keeps_records(before, mdns_answers(packet, before)),
{
    lemma_read_records_keeps(packet, 0, 0, before);
    if packet.len() >= 12 {
        if let Some(o) = skip_questions(packet, 12, be16(packet[4], packet[5])) {
            lemma_read_records_keeps(
                packet,
                o,
                be16(packet[6], packet[7]) + be16(packet[8], packet[9]) + be16(packet[10], packet[11]),
                before,
            );
        }
    }
}

} // verus!
