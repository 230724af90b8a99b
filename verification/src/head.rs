//! Parsing the request head.
//!
//! The head is the first chunk of bytes the client sends. It is split on
//! whitespace; the first token is the HTTP method and the fifth token is the
//! target host (the value of the `Host:` header when the head has the usual
//! `METHOD target VERSION Host: host` layout). A head that is not text, or
//! that has fewer than five tokens, is rejected.

use vstd::prelude::*;

use crate::error::ProxyError;
use crate::text::check_utf8;
use crate::text::is_utf8;

verus! {

/// The most bytes a request head may hold: the size of the single read
/// that obtains it.
pub const MAX_HEAD_BYTES: usize = 4096;

/// An ASCII whitespace byte: HT, LF, VT, FF, CR or SP.
pub open spec fn is_space(b: u8) -> bool {
    b == 0x20 || 0x09 <= b <= 0x0D
}

/// The number of leading non-whitespace bytes of `s`.
pub open spec fn token_len(s: Seq<u8>) -> int
    decreases s.len(),
{
    if s.len() == 0 || is_space(s[0]) {
        0
    } else {
        1 + token_len(s.drop_first())
    }
}

pub proof fn lemma_token_len_bounds(s: Seq<u8>)
    ensures
        0 <= token_len(s) <= s.len(),
    decreases s.len(),
{
    if s.len() == 0 || is_space(s[0]) {
    } else {
        lemma_token_len_bounds(s.drop_first());
    }
}

pub proof fn lemma_token_len_positive(s: Seq<u8>)
    requires
        s.len() > 0,
        !is_space(s[0]),
    ensures
        1 <= token_len(s) <= s.len(),
{
    lemma_token_len_bounds(s.drop_first());
}

/// The whitespace-delimited tokens of `s`, in order.
pub open spec fn tokens(s: Seq<u8>) -> Seq<Seq<u8>>
    decreases s.len(),
{
    if s.len() == 0 {
        Seq::empty()
    } else if is_space(s[0]) {
        tokens(s.drop_first())
    } else {
        proof {
            lemma_token_len_positive(s);
        }
        seq![s.take(token_len(s))] + tokens(s.skip(token_len(s)))
    }
}

/// Skipping one whitespace byte leaves the tokens unchanged.
proof fn lemma_tokens_space_step(s: Seq<u8>, i: int)
    requires
        0 <= i < s.len(),
        is_space(s[i]),
    ensures
        tokens(s.skip(i)) == tokens(s.skip(i + 1)),
{
    assert(s.skip(i)[0] == s[i]);
    assert(s.skip(i).drop_first() =~= s.skip(i + 1));
}

/// Past the end there are no tokens.
proof fn lemma_tokens_at_end(s: Seq<u8>)
    ensures
        tokens(s.skip(s.len() as int)) == Seq::<Seq<u8>>::empty(),
{
    assert(s.skip(s.len() as int).len() == 0);
}

/// When the bytes of `s` in `start..j` are non-whitespace and `j` is the end
/// of `s` or a whitespace position, the leading token of `s.skip(start)` has
/// length `j - start`.
proof fn lemma_token_len_range(s: Seq<u8>, start: int, j: int)
    requires
        0 <= start <= j <= s.len(),
        forall|k: int| start <= k < j ==> !is_space(s[k]),
        j == s.len() || is_space(s[j]),
    ensures
        token_len(s.skip(start)) == j - start,
    decreases j - start,
{
    if start == j {
        if start < s.len() {
            assert(s.skip(start)[0] == s[start]);
        }
    } else {
        lemma_token_len_range(s, start + 1, j);
        assert(s.skip(start)[0] == s[start]);
        assert(s.skip(start).drop_first() =~= s.skip(start + 1));
    }
}

/// When a maximal non-whitespace run spans `start..j`, the tokens from
/// `start` are that run followed by the tokens from `j`.
proof fn lemma_tokens_token_step(s: Seq<u8>, start: int, j: int)
    requires
        0 <= start < j <= s.len(),
        forall|k: int| start <= k < j ==> !is_space(s[k]),
        j == s.len() || is_space(s[j]),
    ensures
        tokens(s.skip(start)) == seq![s.subrange(start, j)] + tokens(s.skip(j)),
{
    lemma_token_len_range(s, start, j);
    assert(s.skip(start)[0] == s[start]);
    assert(!is_space(s.skip(start)[0]));
    assert(s.skip(start).take(j - start) =~= s.subrange(start, j));
    assert(s.skip(start).skip(j - start) =~= s.skip(j));
}

/// The parsed request head: the method token and the host token.
#[derive(Debug)]
pub struct RequestHead {
    /// The first whitespace-delimited token of the head.
    pub method: Vec<u8>,
    /// The fifth whitespace-delimited token of the head.
    pub host: Vec<u8>,
}

/// What parsing yields: the first and the fifth whitespace-delimited token,
/// when the head is text with at least five tokens; nothing otherwise.
pub open spec fn parse_spec(head: Seq<u8>) -> Option<(Seq<u8>, Seq<u8>)> {
    if is_utf8(head) && tokens(head).len() >= 5 {
        Some((tokens(head)[0], tokens(head)[4]))
    } else {
        None
    }
}

/// The bytes of `s` in `from..to`, as an owned vector.
fn copy_range(s: &[u8], from: usize, to: usize) -> (v: Vec<u8>)
    requires
        from <= to <= s@.len(),
    ensures
        v@ == s@.subrange(from as int, to as int),
{
    let mut v: Vec<u8> = Vec::new();
    let mut k = from;
    while k < to
        invariant
            from <= k <= to <= s@.len(),
            v@ == s@.subrange(from as int, k as int),
        decreases to - k,
    {
        v.push(s[k]);
        assert(s@.subrange(from as int, k + 1 as int) =~= s@.subrange(from as int, k as int).push(
            s@[k as int],
        ));
        k = k + 1;
    }
    v
}

/// Extracts the method and the host from the request head.
///
/// Fails exactly when the head is not well-formed UTF-8 text or has fewer
/// than five whitespace-delimited tokens.
pub fn parse_request(head: &[u8]) -> (r: Result<RequestHead, ProxyError>)
    ensures
        match r {
            Ok(rh) => parse_spec(head@) == Some((rh.method@, rh.host@)),
            Err(e) => parse_spec(head@) is None && e == ProxyError::ParseFailure,
        },
{
    if !check_utf8(head) {
        return Err(ProxyError::ParseFailure);
    }
    let ghost s = head@;
    let n = head.len();
    let mut i: usize = 0;
    let mut found: usize = 0;
    let mut method: Vec<u8> = Vec::new();
    let mut host: Vec<u8> = Vec::new();
    let ghost mut gtoks: Seq<Seq<u8>> = Seq::empty();
    proof {
        assert(s.skip(0) =~= s);
        assert(gtoks + tokens(s) =~= tokens(s));
    }
    while found < 5
        invariant
            0 <= i <= n,
            n == s.len(),
            head@ == s,
            found <= 5,
            gtoks.len() == found,
            tokens(s) == gtoks + tokens(s.skip(i as int)),
            found >= 1 ==> method@ == gtoks[0],
            found == 5 ==> host@ == gtoks[4],
        ensures
            found == 5 || tokens(s).len() < 5,
        decreases n - i,
    {
        let ghost i0 = i;
        while i < n && is_space_byte(head[i])
            invariant
                i0 <= i <= n,
                n == s.len(),
                head@ == s,
                tokens(s) == gtoks + tokens(s.skip(i as int)),
            decreases n - i,
        {
            proof {
                lemma_tokens_space_step(s, i as int);
            }
            i = i + 1;
        }
        if i == n {
            proof {
                lemma_tokens_at_end(s);
                assert(tokens(s) =~= gtoks);
            }
            break ;
        }
        let start = i;
        i = i + 1;
        while i < n && !is_space_byte(head[i])
            invariant
                start < i <= n,
                n == s.len(),
                head@ == s,
                forall|k: int| start <= k < i ==> !is_space(s[k]),
            decreases n - i,
        {
            i = i + 1;
        }
        proof {
            lemma_tokens_token_step(s, start as int, i as int);
        }
        if found == 0 {
            method = copy_range(head, start, i);
        }
        if found == 4 {
            host = copy_range(head, start, i);
        }
        proof {
            gtoks = gtoks.push(s.subrange(start as int, i as int));
            assert(tokens(s) =~= gtoks + tokens(s.skip(i as int)));
        }
        found = found + 1;
    }
    if found == 5 {
        proof {
            assert(tokens(s).len() >= gtoks.len());
            assert(tokens(s)[0] == gtoks[0]);
            assert(tokens(s)[4] == gtoks[4]);
        }
        Ok(RequestHead { method, host })
    } else {
        Err(ProxyError::ParseFailure)
    }
}

/// Whether the byte is ASCII whitespace.
pub fn is_space_byte(b: u8) -> (r: bool)
    ensures
        r == is_space(b),
{
    b == 0x20 || (0x09 <= b && b <= 0x0D)
}

/// The ASCII bytes of "CONNECT", the method that requests a tunnel.
pub open spec fn connect_method() -> Seq<u8> {
    seq![67u8, 79u8, 78u8, 78u8, 69u8, 67u8, 84u8]
}

/// Whether the method token is "CONNECT".
pub fn is_connect_method(method: &[u8]) -> (r: bool)
    ensures
        r == (method@ == connect_method()),
{
    if method.len() != 7 {
        assert(method@ != connect_method());
        return false;
    }
    let r = method[0] == 67 && method[1] == 79 && method[2] == 78 && method[3] == 78 && method[4]
        == 69 && method[5] == 67 && method[6] == 84;
    proof {
        if r {
            assert(method@ =~= connect_method());
        } else {
            assert(method@ != connect_method());
        }
    }
    r
}

/// The ASCII bytes of ":80", the suffix appended for plain HTTP requests.
pub open spec fn http_port_suffix() -> Seq<u8> {
    seq![58u8, 56u8, 48u8]
}

/// The origin address to dial: for a CONNECT request the host as given
/// (a port is expected to be part of it); for any other method the host
/// with ":80" appended.
pub open spec fn target_spec(method: Seq<u8>, host: Seq<u8>) -> Seq<u8> {
    if method == connect_method() {
        host
    } else {
        host + http_port_suffix()
    }
}

/// Builds the origin address for the parsed method and host.
pub fn resolve_target(method: &[u8], host: &[u8]) -> (t: Vec<u8>)
    ensures
        t@ == target_spec(method@, host@),
{
    let mut t = copy_range(host, 0, host.len());
    assert(t@ =~= host@);
    if !is_connect_method(method) {
        t.push(58);
        t.push(56);
        t.push(48);
        assert(t@ =~= host@ + http_port_suffix());
    }
    t
}

/// No byte of `s` is whitespace.
pub open spec fn no_whitespace(s: Seq<u8>) -> bool {
    forall|k: int| 0 <= k < s.len() ==> !is_space(s[k])
}

/// The ASCII bytes of "HTTP/1.1".
pub open spec fn http_version() -> Seq<u8> {
    seq![72u8, 84u8, 84u8, 80u8, 47u8, 49u8, 46u8, 49u8]
}

/// The ASCII bytes of "Host:".
pub open spec fn host_header_name() -> Seq<u8> {
    seq![72u8, 111u8, 115u8, 116u8, 58u8]
}

/// A request head in the usual single-line layout
/// `METHOD target HTTP/1.1\r\nHost: host\r\n\r\n`.
pub open spec fn request_head(method: Seq<u8>, target: Seq<u8>, host: Seq<u8>) -> Seq<u8> {
    method + seq![32u8] + target + seq![32u8] + http_version() + seq![13u8, 10u8]
        + host_header_name() + seq![32u8] + host + seq![13u8, 10u8, 13u8, 10u8]
}

/// A leading whitespace-free run that ends at the end or at whitespace is
/// the first token.
proof fn lemma_tokens_leading_token(t: Seq<u8>, rest: Seq<u8>)
    requires
        t.len() > 0,
        no_whitespace(t),
        rest.len() == 0 || is_space(rest[0]),
    ensures
        tokens(t + rest) == seq![t] + tokens(rest),
{
    let s = t + rest;
    assert(forall|k: int| 0 <= k < t.len() ==> s[k] == t[k]);
    if rest.len() > 0 {
        assert(s[t.len() as int] == rest[0]);
    }
    lemma_tokens_token_step(s, 0, t.len() as int);
    assert(s.skip(0) =~= s);
    assert(s.subrange(0, t.len() as int) =~= t);
    assert(s.skip(t.len() as int) =~= rest);
}

/// A leading whitespace byte does not change the tokens.
proof fn lemma_tokens_leading_space(b: u8, rest: Seq<u8>)
    requires
        is_space(b),
    ensures
        tokens(seq![b] + rest) == tokens(rest),
{
    let s = seq![b] + rest;
    lemma_tokens_space_step(s, 0);
    assert(s.skip(0) =~= s);
    assert(s.skip(1) =~= rest);
}

/// The CONNECT method token is itself a non-empty whitespace-free piece of
/// text.
pub proof fn lemma_connect_method_is_token()
    ensures
        connect_method().len() > 0,
        no_whitespace(connect_method()),
        crate::text::is_utf8(connect_method()),
{
    let s = connect_method();
    assert forall|k: int| 0 <= k < s.len() implies !is_space(s[k]) && s[k] < 0x80 by {
        assert(s[0] == 67);
        assert(s[1] == 79);
        assert(s[2] == 78);
        assert(s[3] == 78);
        assert(s[4] == 69);
        assert(s[5] == 67);
        assert(s[6] == 84);
    }
    crate::text::lemma_ascii_is_utf8(s);
}

proof fn lemma_http_version_bytes()
    ensures
        no_whitespace(http_version()),
        forall|k: int| 0 <= k < http_version().len() ==> http_version()[k] < 0x80,
{
    let s = http_version();
    assert forall|k: int| 0 <= k < s.len() implies !is_space(s[k]) && s[k] < 0x80 by {
        assert(s[0] == 72);
        assert(s[1] == 84);
        assert(s[2] == 84);
        assert(s[3] == 80);
        assert(s[4] == 47);
        assert(s[5] == 49);
        assert(s[6] == 46);
        assert(s[7] == 49);
    }
}

proof fn lemma_host_header_name_bytes()
    ensures
        no_whitespace(host_header_name()),
        forall|k: int| 0 <= k < host_header_name().len() ==> host_header_name()[k] < 0x80,
{
    let s = host_header_name();
    assert forall|k: int| 0 <= k < s.len() implies !is_space(s[k]) && s[k] < 0x80 by {
        assert(s[0] == 72);
        assert(s[1] == 111);
        assert(s[2] == 115);
        assert(s[3] == 116);
        assert(s[4] == 58);
    }
}

/// Law: a head in the usual layout splits into exactly the five tokens
/// `method`, `target`, `HTTP/1.1`, `Host:` and `host`, so the parser reads
/// `method` as the method and `host` as the host.
pub proof fn lemma_request_head_tokens(method: Seq<u8>, target: Seq<u8>, host: Seq<u8>)
    requires
        method.len() > 0,
        no_whitespace(method),
        target.len() > 0,
        no_whitespace(target),
        host.len() > 0,
        no_whitespace(host),
    ensures
        tokens(request_head(method, target, host)) == seq![
            method,
            target,
            http_version(),
            host_header_name(),
            host,
        ],
{
    lemma_http_version_bytes();
    lemma_host_header_name_bytes();
    let e9 = seq![10u8];
    let e8 = seq![13u8] + e9;
    let r9 = seq![10u8] + e8;
    let r8 = seq![13u8] + r9;
    let r7 = host + r8;
    let r6 = seq![32u8] + r7;
    let r5 = host_header_name() + r6;
    let r4 = seq![10u8] + r5;
    let r3 = seq![13u8] + r4;
    let r2 = http_version() + r3;
    let r1 = seq![32u8] + r2;
    let r0 = target + r1;
    let rm = seq![32u8] + r0;
    let s = method + rm;
    assert(request_head(method, target, host) =~= s);
    assert(tokens(Seq::<u8>::empty()) == Seq::<Seq<u8>>::empty());
    assert(e9 =~= seq![10u8] + Seq::<u8>::empty());
    lemma_tokens_leading_space(10u8, Seq::<u8>::empty());
    lemma_tokens_leading_space(13u8, e9);
    lemma_tokens_leading_space(10u8, e8);
    lemma_tokens_leading_space(13u8, r9);
    lemma_tokens_leading_token(host, r8);
    lemma_tokens_leading_space(32u8, r7);
    lemma_tokens_leading_token(host_header_name(), r6);
    lemma_tokens_leading_space(10u8, r5);
    lemma_tokens_leading_space(13u8, r4);
    lemma_tokens_leading_token(http_version(), r3);
    lemma_tokens_leading_space(32u8, r2);
    lemma_tokens_leading_token(target, r1);
    lemma_tokens_leading_space(32u8, r0);
    lemma_tokens_leading_token(method, rm);
    assert(tokens(s) =~= seq![method, target, http_version(), host_header_name(), host]);
}

/// Law: a head in the usual layout is text whenever its method, target and
/// host are.
pub proof fn lemma_request_head_utf8(method: Seq<u8>, target: Seq<u8>, host: Seq<u8>)
    requires
        is_utf8(method),
        is_utf8(target),
        is_utf8(host),
    ensures
        is_utf8(request_head(method, target, host)),
{
    lemma_http_version_bytes();
    lemma_host_header_name_bytes();
    let sp = seq![32u8];
    let crlf = seq![13u8, 10u8];
    let ending = seq![13u8, 10u8, 13u8, 10u8];
    assert(forall|k: int| 0 <= k < sp.len() ==> sp[k] < 0x80);
    assert(forall|k: int| 0 <= k < crlf.len() ==> crlf[k] < 0x80);
    assert(forall|k: int| 0 <= k < ending.len() ==> ending[k] < 0x80);
    crate::text::lemma_ascii_is_utf8(sp);
    crate::text::lemma_ascii_is_utf8(crlf);
    crate::text::lemma_ascii_is_utf8(ending);
    crate::text::lemma_ascii_is_utf8(http_version());
    crate::text::lemma_ascii_is_utf8(host_header_name());
    crate::text::lemma_utf8_concat(method, sp);
    crate::text::lemma_utf8_concat(method + sp, target);
    crate::text::lemma_utf8_concat(method + sp + target, sp);
    crate::text::lemma_utf8_concat(method + sp + target + sp, http_version());
    crate::text::lemma_utf8_concat(method + sp + target + sp + http_version(), crlf);
    crate::text::lemma_utf8_concat(
        method + sp + target + sp + http_version() + crlf,
        host_header_name(),
    );
    crate::text::lemma_utf8_concat(
        method + sp + target + sp + http_version() + crlf + host_header_name(),
        sp,
    );
    crate::text::lemma_utf8_concat(
        method + sp + target + sp + http_version() + crlf + host_header_name() + sp,
        host,
    );
    crate::text::lemma_utf8_concat(
        method + sp + target + sp + http_version() + crlf + host_header_name() + sp + host,
        ending,
    );
}

/// The ASCII bytes of "HTTP/1.1 200 Connection Established\r\n\r\n",
/// the acknowledgment sent to the client once a tunnel is open.
pub open spec fn established_response() -> Seq<u8> {
    seq![
        72u8, 84u8, 84u8, 80u8, 47u8, 49u8, 46u8, 49u8, 32u8, 50u8, 48u8, 48u8, 32u8, 67u8, 111u8,
        110u8, 110u8, 101u8, 99u8, 116u8, 105u8, 111u8, 110u8, 32u8, 69u8, 115u8, 116u8, 97u8,
        98u8, 108u8, 105u8, 115u8, 104u8, 101u8, 100u8, 13u8, 10u8, 13u8, 10u8,
    ]
}

/// Builds the tunnel acknowledgment bytes.
pub fn connection_established() -> (r: Vec<u8>)
    ensures
        r@ == established_response(),
{
    let mut r: Vec<u8> = Vec::new();
    r.push(72);
    r.push(84);
    r.push(84);
    r.push(80);
    r.push(47);
    r.push(49);
    r.push(46);
    r.push(49);
    r.push(32);
    r.push(50);
    r.push(48);
    r.push(48);
    r.push(32);
    r.push(67);
    r.push(111);
    r.push(110);
    r.push(110);
    r.push(101);
    r.push(99);
    r.push(116);
    r.push(105);
    r.push(111);
    r.push(110);
    r.push(32);
    r.push(69);
    r.push(115);
    r.push(116);
    r.push(97);
    r.push(98);
    r.push(108);
    r.push(105);
    r.push(115);
    r.push(104);
    r.push(101);
    r.push(100);
    r.push(13);
    r.push(10);
    r.push(13);
    r.push(10);
    assert(r@ =~= established_response());
    r
}

} // verus!
