//! The loopback notification wire protocol.
//!
//! The protocol is line oriented ASCII. A client sends either the keep-alive
//! probe `PING` or a task id as a decimal string; each request is terminated
//! by a newline. The server answers `PONG` to a probe, `READY` once the
//! subscribed task has resolved, and `ERR` for an id it has no entry for.

use vstd::prelude::*;

verus! {

/// One request line, as the notification server understands it.
#[derive(Debug, Clone, Copy, PartialEq, Eq, Structural)]
pub enum Request {
    /// Keep-alive probe of a pooled connection.
    Ping,
    /// Subscription to the completion of the task with this id.
    Subscribe(u16),
    /// Anything else; the server ignores such a line.
    Invalid,
}

/// One reply line. `UnknownId` is the `ERR` reply; the client treats it like
/// any other non-`READY` line.
#[derive(Debug, Clone, Copy, PartialEq, Eq, Structural)]
pub enum Reply {
    Pong,
    Ready,
    UnknownId,
}

/// ASCII whitespace stripped from both ends of a request line.
pub open spec fn is_ws(b: u8) -> bool {
    b == 32 || b == 9 || b == 13 || b == 10
}

/// ASCII decimal digit.
pub open spec fn is_digit(b: u8) -> bool {
    48 <= b <= 57
}

/// The line with leading whitespace removed.
pub open spec fn trim_front(s: Seq<u8>) -> Seq<u8>
    decreases s.len(),
{
    if s.len() > 0 && is_ws(s.first()) {
        trim_front(s.drop_first())
    } else {
        s
    }
}

/// The line with trailing whitespace removed.
pub open spec fn trim_back(s: Seq<u8>) -> Seq<u8>
    decreases s.len(),
{
    if s.len() > 0 && is_ws(s.last()) {
        trim_back(s.drop_last())
    } else {
        s
    }
}

/// The line with whitespace removed from both ends.
pub open spec fn trimmed(s: Seq<u8>) -> Seq<u8> {
    trim_back(trim_front(s))
}

/// Numeric value of a string of decimal digits, most significant first.
pub open spec fn digits_value(s: Seq<u8>) -> nat
    decreases s.len(),
{
    if s.len() == 0 {
        0
    } else {
        digits_value(s.drop_last()) * 10 + (s.last() - 48) as nat
    }
}

pub open spec fn all_digits(s: Seq<u8>) -> bool {
    forall|i: int| 0 <= i < s.len() ==> is_digit(#[trigger] s[i])
}

/// A non-empty string of decimal digits whose value fits the task id type.
pub open spec fn is_decimal_u16(s: Seq<u8>) -> bool {
    s.len() > 0 && all_digits(s) && digits_value(s) < 0x10000
}

/// The bytes of the keep-alive probe `PING`.
pub open spec fn ping_bytes() -> Seq<u8> {
    seq![80u8, 73u8, 78u8, 71u8]
}

/// What a request line means: the meaning of `parse_request`.
pub open spec fn spec_parse_request(line: Seq<u8>) -> Request {
    let t = trimmed(line);
    if t == ping_bytes() {
        Request::Ping
    } else if is_decimal_u16(t) {
        Request::Subscribe(digits_value(t) as u16)
    } else {
        Request::Invalid
    }
}

proof fn lemma_trim_front_step(s: Seq<u8>, i: int)
    requires
        0 <= i < s.len(),
        forall|j: int| 0 <= j < i ==> is_ws(#[trigger] s[j]),
        is_ws(s[i]),
    ensures
        trim_front(s.subrange(i, s.len() as int)) == trim_front(
            s.subrange(i + 1, s.len() as int),
        ),
{
    let sub = s.subrange(i, s.len() as int);
    assert(sub.first() == s[i]);
    assert(sub.drop_first() =~= s.subrange(i + 1, s.len() as int));
}

proof fn lemma_trim_back_step(s: Seq<u8>, lo: int, hi: int)
    requires
        0 <= lo < hi <= s.len(),
        is_ws(s[hi - 1]),
    ensures
        trim_back(s.subrange(lo, hi)) == trim_back(s.subrange(lo, hi - 1)),
{
    let sub = s.subrange(lo, hi);
    assert(sub.last() == s[hi - 1]);
    assert(sub.drop_last() =~= s.subrange(lo, hi - 1));
}

/// A growing string of digits has a value no smaller than any prefix of it.
proof fn lemma_digits_value_extend(s: Seq<u8>, k: int)
    requires
        0 <= k <= s.len(),
    ensures
        digits_value(s) >= digits_value(s.subrange(0, k)),
    decreases s.len() - k,
{
    if k < s.len() {
        let longer = s.subrange(0, k + 1);
        assert(longer.drop_last() =~= s.subrange(0, k));
        lemma_digits_value_extend(s, k + 1);
        assert(s.subrange(0, s.len() as int) =~= s);
    } else {
        assert(s.subrange(0, s.len() as int) =~= s);
    }
}

/// Parses one request line (without its newline framing) exactly as
/// `spec_parse_request` describes: whitespace is trimmed, `PING` is the
/// probe, a decimal task id subscribes, anything else is invalid.
pub fn parse_request(line: &[u8]) -> (r: Request)
    ensures
        r == spec_parse_request(line@),
{
    let len = line.len();
    let s = Ghost(line@);
    proof {
        assert(s@.subrange(0, len as int) =~= s@);
    }

    // Strip leading whitespace.
    let mut lo: usize = 0;
    while lo < len && (line[lo] == 32 || line[lo] == 9 || line[lo] == 13 || line[lo] == 10)
        invariant
            0 <= lo <= len,
            len == s@.len(),
            s@ == line@,
            forall|j: int| 0 <= j < lo ==> is_ws(#[trigger] s@[j]),
            trim_front(s@) == trim_front(s@.subrange(lo as int, len as int)),
        decreases len - lo,
    {
        proof {
            lemma_trim_front_step(s@, lo as int);
        }
        lo = lo + 1;
    }
    proof {
        let sub = s@.subrange(lo as int, len as int);
        if lo == len {
            assert(sub =~= Seq::<u8>::empty());
        } else {
            assert(sub.first() == s@[lo as int]);
        }
        assert(trim_front(s@) == sub);
    }

    // Strip trailing whitespace.
    let mut hi: usize = len;
    while hi > lo && (line[hi - 1] == 32 || line[hi - 1] == 9 || line[hi - 1] == 13 || line[hi - 1]
        == 10)
        invariant
            lo <= hi <= len,
            len == s@.len(),
            s@ == line@,
            trimmed(s@) == trim_back(s@.subrange(lo as int, hi as int)),
        decreases hi,
    {
        proof {
            lemma_trim_back_step(s@, lo as int, hi as int);
        }
        hi = hi - 1;
    }
    let t = Ghost(s@.subrange(lo as int, hi as int));
    proof {
        // The remaining window neither starts nor ends with whitespace, so it
        // is exactly the trimmed line.
        if hi > lo {
            assert(t@.last() == s@[hi - 1]);
        }
        assert(trimmed(s@) == t@);
    }

    // The keep-alive probe.
    if hi - lo == 4 && line[lo] == 80 && line[lo + 1] == 73 && line[lo + 2] == 78 && line[lo + 3]
        == 71 {
        proof {
            assert(t@ =~= ping_bytes());
        }
        return Request::Ping;
    }
    proof {
        assert(t@ != ping_bytes());
    }

    // A decimal task id.
    if hi == lo {
        return Request::Invalid;
    }
    let mut val: u32 = 0;
    let mut i: usize = lo;
    while i < hi
        invariant
            lo <= i <= hi <= len,
            len == s@.len(),
            s@ == line@,
            t@ == s@.subrange(lo as int, hi as int),
            trimmed(s@) == t@,
            t@ != ping_bytes(),
            forall|j: int| 0 <= j < i - lo ==> is_digit(#[trigger] t@[j]),
            val == digits_value(t@.subrange(0, i - lo)),
            val < 0x10000,
        decreases hi - i,
    {
        let b = line[i];
        if b < 48 || b > 57 {
            proof {
                assert(t@[i - lo] == b);
                assert(!is_digit(t@[i - lo]));
            }
            return Request::Invalid;
        }
        proof {
            let prefix = t@.subrange(0, i + 1 - lo);
            assert(prefix.drop_last() =~= t@.subrange(0, i - lo));
            assert(prefix.last() == t@[i - lo]);
            assert(t@[i - lo] == s@[i as int]);
        }
        val = val * 10 + (b - 48) as u32;
        i = i + 1;
        if val >= 0x10000 {
            // Any longer digit string is at least as large, so the value can
            // no longer fit a task id.
            proof {
                lemma_digits_value_extend(t@, i - lo);
                assert(!is_decimal_u16(t@));
            }
            return Request::Invalid;
        }
    }
    proof {
        assert(t@.subrange(0, t@.len() as int) =~= t@);
        assert(is_decimal_u16(t@));
    }
    Request::Subscribe(val as u16)
}

/// Decimal digit string of a number, most significant digit first.
pub open spec fn dec_digits(n: nat) -> Seq<u8>
    decreases n,
{
    if n < 10 {
        seq![(n + 48) as u8]
    } else {
        dec_digits(n / 10).push((n % 10 + 48) as u8)
    }
}

/// Every byte of `dec_digits` is a digit, and there is at least one.
proof fn lemma_dec_digits_shape(n: nat)
    ensures
        dec_digits(n).len() > 0,
        all_digits(dec_digits(n)),
    decreases n,
{
    if n >= 10 {
        lemma_dec_digits_shape(n / 10);
        assert forall|i: int| 0 <= i < dec_digits(n).len() implies is_digit(
            #[trigger] dec_digits(n)[i],
        ) by {
            if i < dec_digits(n).len() - 1 {
                assert(dec_digits(n)[i] == dec_digits(n / 10)[i]);
            }
        }
    }
}

/// Reading the digit string of a number back gives the number.
proof fn lemma_dec_digits_value(n: nat)
    ensures
        digits_value(dec_digits(n)) == n,
    decreases n,
{
    if n < 10 {
        let d = dec_digits(n);
        assert(d.drop_last() =~= Seq::<u8>::empty());
        assert(digits_value(Seq::<u8>::empty()) == 0);
    } else {
        lemma_dec_digits_value(n / 10);
        let d = dec_digits(n);
        assert(d.drop_last() =~= dec_digits(n / 10));
        assert(d.last() == (n % 10 + 48) as u8);
        assert(n % 10 < 10);
        assert((d.last() - 48) as nat == n % 10);
        assert(digits_value(d) == (n / 10) * 10 + n % 10);
        vstd::arithmetic::div_mod::lemma_fundamental_div_mod(n as int, 10);
        assert((n / 10) * 10 + n % 10 == n);
    }
}

/// Renders the subscription line for a task id: its decimal digits followed
/// by a newline, exactly the bytes `parse_request` reads back as
/// `Subscribe(id)`.
pub fn subscribe_line(id: u16) -> (out: Vec<u8>)
    ensures
        out@ == dec_digits(id as nat).push(10u8),
{
    let mut rev: Vec<u8> = Vec::new();
    let mut n: u16 = id;
    while n >= 10
        invariant
            dec_digits(id as nat) == dec_digits(n as nat) + rev@.reverse(),
        decreases n,
    {
        let d: u8 = (n % 10) as u8 + 48;
        proof {
            let g = dec_digits(n as nat);
            assert(g.drop_last() =~= dec_digits(n as nat / 10));
            assert((rev@.push(d)).reverse() =~= seq![d] + rev@.reverse());
            assert(dec_digits(n as nat / 10) + (seq![d] + rev@.reverse()) =~= dec_digits(
                n as nat,
            ) + rev@.reverse());
        }
        rev.push(d);
        n = n / 10;
    }
    let d: u8 = n as u8 + 48;
    proof {
        assert((rev@.push(d)).reverse() =~= seq![d] + rev@.reverse());
        assert(dec_digits(n as nat) =~= seq![d]);
        assert(seq![d] + rev@.reverse() =~= (rev@.push(d)).reverse());
    }
    rev.push(d);
    let ghost full = rev@;
    let mut out: Vec<u8> = Vec::new();
    let mut k: usize = rev.len();
    proof {
        assert(dec_digits(id as nat) =~= full.reverse());
        assert(out@ =~= full.reverse().subrange(0, 0));
    }
    while k > 0
        invariant
            k <= full.len(),
            rev@ == full,
            out@ == full.reverse().subrange(0, full.len() - k),
        decreases k,
    {
        let b = rev[k - 1];
        proof {
            let r = full.reverse();
            assert(r[full.len() - k] == full[k - 1]);
            assert(r.subrange(0, full.len() - (k - 1)) =~= r.subrange(0, full.len() - k).push(b));
        }
        out.push(b);
        k = k - 1;
    }
    proof {
        assert(full.reverse().subrange(0, full.len() as int) =~= full.reverse());
    }
    out.push(10);
    proof {
        assert(out@ =~= dec_digits(id as nat).push(10u8));
    }
    out
}

/// Digit strings contain no whitespace, so trimming a digit string with a
/// trailing newline yields the digit string itself.
proof fn lemma_trim_digits_newline(d: Seq<u8>)
    requires
        d.len() > 0,
        all_digits(d),
    ensures
        trimmed(d.push(10u8)) == d,
{
    let line = d.push(10u8);
    assert(line.first() == d[0]);
    assert(trim_front(line) == line);
    assert(line.last() == 10u8);
    assert(line.drop_last() =~= d);
    assert(d.last() == d[d.len() - 1]);
    assert(trim_back(d) == d);
}

/// The wire round trip for a subscription: the line `subscribe_line`
/// renders for a task id is parsed back as a subscription to exactly that
/// id, for every id in the id space.
pub proof fn lemma_subscribe_round_trip(id: u16)
    ensures
        spec_parse_request(dec_digits(id as nat).push(10u8)) == Request::Subscribe(id),
{
    let d = dec_digits(id as nat);
    lemma_dec_digits_shape(id as nat);
    lemma_dec_digits_value(id as nat);
    lemma_trim_digits_newline(d);
    assert(d[0] != 80);
    assert(d != ping_bytes());
    assert(is_decimal_u16(d));
}

/// The bytes of a reply line, newline included.
pub open spec fn reply_line(r: Reply) -> Seq<u8> {
    match r {
        Reply::Pong => seq![80u8, 79u8, 78u8, 71u8, 10u8],
        Reply::Ready => seq![82u8, 69u8, 65u8, 68u8, 89u8, 10u8],
        Reply::UnknownId => seq![69u8, 82u8, 82u8, 10u8],
    }
}

/// Renders a reply as its wire line: `PONG`, `READY` or `ERR`, newline
/// terminated.
pub fn render_reply(r: &Reply) -> (out: Vec<u8>)
    ensures
        out@ == reply_line(*r),
{
    let mut out: Vec<u8> = Vec::new();
    match r {
        Reply::Pong => {
            out.push(80);
            out.push(79);
            out.push(78);
            out.push(71);
        },
        Reply::Ready => {
            out.push(82);
            out.push(69);
            out.push(65);
            out.push(68);
            out.push(89);
        },
        Reply::UnknownId => {
            out.push(69);
            out.push(82);
            out.push(82);
        },
    }
    out.push(10);
    proof {
        assert(out@ =~= reply_line(*r));
    }
    out
}

/// What a reply line means to the client. Anything that is not `PONG` or
/// `READY` — the `ERR` reply included — is lumped together: the client
/// treats every such line the same way, as a failed round trip.
pub open spec fn spec_classify_reply(line: Seq<u8>) -> Reply {
    let t = trimmed(line);
    if t == seq![80u8, 79u8, 78u8, 71u8] {
        Reply::Pong
    } else if t == seq![82u8, 69u8, 65u8, 68u8, 89u8] {
        Reply::Ready
    } else {
        Reply::UnknownId
    }
}

/// Classifies a reply line received by the client, exactly as
/// `spec_classify_reply` describes.
pub fn classify_reply(line: &[u8]) -> (r: Reply)
    ensures
        r == spec_classify_reply(line@),
{
    let len = line.len();
    let s = Ghost(line@);
    proof {
        assert(s@.subrange(0, len as int) =~= s@);
    }
    let mut lo: usize = 0;
    while lo < len && (line[lo] == 32 || line[lo] == 9 || line[lo] == 13 || line[lo] == 10)
        invariant
            0 <= lo <= len,
            len == s@.len(),
            s@ == line@,
            forall|j: int| 0 <= j < lo ==> is_ws(#[trigger] s@[j]),
            trim_front(s@) == trim_front(s@.subrange(lo as int, len as int)),
        decreases len - lo,
    {
        proof {
            lemma_trim_front_step(s@, lo as int);
        }
        lo = lo + 1;
    }
    proof {
        let sub = s@.subrange(lo as int, len as int);
        if lo == len {
            assert(sub =~= Seq::<u8>::empty());
        } else {
            assert(sub.first() == s@[lo as int]);
        }
        assert(trim_front(s@) == sub);
    }
    let mut hi: usize = len;
    while hi > lo && (line[hi - 1] == 32 || line[hi - 1] == 9 || line[hi - 1] == 13 || line[hi - 1]
        == 10)
        invariant
            lo <= hi <= len,
            len == s@.len(),
            s@ == line@,
            trimmed(s@) == trim_back(s@.subrange(lo as int, hi as int)),
        decreases hi,
    {
        proof {
            lemma_trim_back_step(s@, lo as int, hi as int);
        }
        hi = hi - 1;
    }
    let t = Ghost(s@.subrange(lo as int, hi as int));
    proof {
        if hi > lo {
            assert(t@.last() == s@[hi - 1]);
        }
        assert(trimmed(s@) == t@);
    }
    if hi - lo == 4 && line[lo] == 80 && line[lo + 1] == 79 && line[lo + 2] == 78 && line[lo + 3]
        == 71 {
        proof {
            assert(t@ =~= seq![80u8, 79u8, 78u8, 71u8]);
        }
        return Reply::Pong;
    }
    if hi - lo == 5 && line[lo] == 82 && line[lo + 1] == 69 && line[lo + 2] == 65 && line[lo + 3]
        == 68 && line[lo + 4] == 89 {
        proof {
            assert(t@ =~= seq![82u8, 69u8, 65u8, 68u8, 89u8]);
        }
        return Reply::Ready;
    }
    proof {
        assert(t@ != seq![80u8, 79u8, 78u8, 71u8]);
        assert(t@ != seq![82u8, 69u8, 65u8, 68u8, 89u8]);
    }
    Reply::UnknownId
}

/// Reply lines survive the wire unchanged: classifying the line rendered
/// for any reply gives that reply back.
pub proof fn lemma_reply_round_trip(r: Reply)
    ensures
        spec_classify_reply(reply_line(r)) == r,
{
    let line = reply_line(r);
    assert(trim_front(line) == line);
    assert(line.drop_last() =~= line.subrange(0, line.len() - 1));
    assert(trim_back(line.drop_last()) == line.drop_last());
    match r {
        Reply::Pong => {
            assert(line.drop_last() =~= seq![80u8, 79u8, 78u8, 71u8]);
        },
        Reply::Ready => {
            assert(line.drop_last() =~= seq![82u8, 69u8, 65u8, 68u8, 89u8]);
        },
        Reply::UnknownId => {
            assert(line.drop_last() =~= seq![69u8, 82u8, 82u8]);
            assert(trimmed(line) != seq![80u8, 79u8, 78u8, 71u8]);
        },
    }
}

/// What the server answers: the meaning of `server_reply`.
pub open spec fn spec_server_reply(req: Request, claimed: bool) -> Option<Reply> {
    match req {
        Request::Ping => Some(Reply::Pong),
        Request::Subscribe(_) => if claimed {
            Some(Reply::Ready)
        } else {
            Some(Reply::UnknownId)
        },
        Request::Invalid => None,
    }
}

/// The whole wire round trip of one successful notification: the line the
/// client sends for a task id is parsed by the server as a subscription to
/// exactly that id; once the entry is claimed the server answers `READY`;
/// and the client reads that reply line back as `Ready`.
pub proof fn lemma_wire_round_trip(id: u16)
    ensures
        spec_parse_request(dec_digits(id as nat).push(10u8)) == Request::Subscribe(id),
        spec_server_reply(Request::Subscribe(id), true) == Some(Reply::Ready),
        spec_classify_reply(reply_line(Reply::Ready)) == Reply::Ready,
{
    lemma_subscribe_round_trip(id);
    lemma_reply_round_trip(Reply::Ready);
}

/// The server's reply decision for one request line. `claimed` says whether
/// the subscribed task's registry entry was found and claimed: a probe is
/// answered `PONG`, a claimed subscription `READY` (sent only once the
/// task's completion signal has fired), an unknown id `ERR`, and an invalid
/// line is ignored.
pub fn server_reply(req: &Request, claimed: bool) -> (r: Option<Reply>)
    ensures
        r == spec_server_reply(*req, claimed),
{
    match req {
        Request::Ping => Some(Reply::Pong),
        Request::Subscribe(_) => if claimed {
            Some(Reply::Ready)
        } else {
            Some(Reply::UnknownId)
        },
        Request::Invalid => None,
    }
}

} // verus!
