//! The plaintext wire line sent to the metrics backend:
//! `<prefix>.<protocol>.<name> <milliseconds> <unix seconds>\n`.
use vstd::prelude::*;

verus! {

/// The probe strategy a measurement was taken with.
#[derive(Clone, Copy, Debug, PartialEq, Eq)]
pub enum Protocol {
    Icmp,
    Tcp,
}

impl Protocol {
    /// The lowercase tag that names the protocol on the wire.
    pub open spec fn tag_view(self) -> Seq<char> {
        match self {
            Protocol::Icmp => seq!['i', 'c', 'm', 'p'],
            Protocol::Tcp => seq!['t', 'c', 'p'],
        }
    }

    pub fn tag(&self) -> (r: &'static str)
        ensures
            r@ == self.tag_view(),
    {
        match self {
            Protocol::Icmp => {
                proof {
                    reveal_strlit("icmp");
                }
                "icmp"
            },
            Protocol::Tcp => {
                proof {
                    reveal_strlit("tcp");
                }
                "tcp"
            },
        }
    }
}

/// A dot becomes a dash; every other character stays.
pub open spec fn dash_char(c: char) -> char {
    if c == '.' {
        '-'
    } else {
        c
    }
}

/// `s` with every `.` replaced by `-`.
pub open spec fn dash_dots(s: Seq<char>) -> Seq<char> {
    s.map_values(|c: char| dash_char(c))
}

/// The character of a decimal digit.
pub open spec fn digit_char(d: nat) -> char {
    seq!['0', '1', '2', '3', '4', '5', '6', '7', '8', '9'][d as int]
}

/// The decimal rendering of `n`, without sign or leading zeros.
pub open spec fn decimal(n: nat) -> Seq<char>
    decreases n,
{
    if n < 10 {
        seq![digit_char(n)]
    } else {
        decimal(n / 10).push(digit_char(n % 10))
    }
}

/// The decimal rendering of an integer, with a leading `-` when negative.
pub open spec fn signed_decimal(n: int) -> Seq<char> {
    if n < 0 {
        seq!['-'] + decimal((-n) as nat)
    } else {
        decimal(n as nat)
    }
}

/// The complete line for one measurement.
pub open spec fn wire_line(
    prefix: Seq<char>,
    protocol: Protocol,
    name: Seq<char>,
    millis: nat,
    timestamp: int,
) -> Seq<char> {
    dash_dots(prefix) + seq!['.'] + protocol.tag_view() + seq!['.'] + dash_dots(name) + seq![' ']
        + decimal(millis) + seq![' '] + signed_decimal(timestamp) + seq!['\n']
}

/// Replaces every `.` of `s` with `-`, so that an identifier cannot be read
/// as several namespace levels.
pub fn sanitize(s: &str) -> (r: String)
    ensures
        r@ == dash_dots(s@),
{
    let n = s.unicode_len();
    let mut out = String::new();
    let mut i: usize = 0;
    while i < n
        invariant
            n == s@.len(),
            i <= n,
            out@ == dash_dots(s@.subrange(0, i as int)),
        decreases n - i,
    {
        let c = s.get_char(i);
        if c == '.' {
            proof {
                reveal_strlit("-");
            }
            out.append("-");
        } else {
            out.append(s.substring_char(i, i + 1));
        }
        assert(dash_dots(s@.subrange(0, i + 1)) =~= dash_dots(s@.subrange(0, i as int)).push(
            dash_char(c),
        ));
        i = i + 1;
    }
    assert(s@.subrange(0, n as int) =~= s@);
    out
}

/// Appends the character of the digit `d`.
fn append_digit(out: &mut String, d: u64)
    requires
        d < 10,
    ensures
        final(out)@ == old(out)@.push(digit_char(d as nat)),
{
    let digits = "0123456789";
    proof {
        reveal_strlit("0123456789");
    }
    let one = digits.substring_char(d as usize, d as usize + 1);
    assert(one@ =~= seq![digit_char(d as nat)]);
    out.append(one);
}

/// Appends the decimal rendering of `n`.
pub fn append_decimal(out: &mut String, n: u64)
    ensures
        final(out)@ == old(out)@ + decimal(n as nat),
    decreases n,
{
    if n >= 10 {
        append_decimal(out, n / 10);
    }
    append_digit(out, n % 10);
    proof {
        if n >= 10 {
            assert(decimal(n as nat) == decimal((n / 10) as nat).push(digit_char((n % 10) as nat)));
        }
    }
    assert(out@ =~= old(out)@ + decimal(n as nat));
}

/// Appends the decimal rendering of `n`, signed.
pub fn append_signed_decimal(out: &mut String, n: i64)
    ensures
        final(out)@ == old(out)@ + signed_decimal(n as int),
{
    if n < 0 {
        proof {
            reveal_strlit("-");
        }
        out.append("-");
        let magnitude = (-(n as i128)) as u64;
        append_decimal(out, magnitude);
        assert(out@ =~= old(out)@ + signed_decimal(n as int));
    } else {
        append_decimal(out, n as u64);
    }
}

/// Encodes one measurement as a wire line. The prefix and the endpoint name
/// have their dots rewritten to dashes; the protocol tag is lowercase; the
/// latency is whole milliseconds and the timestamp whole Unix seconds.
pub fn encode_line(prefix: &str, protocol: Protocol, name: &str, millis: u64, timestamp: i64) -> (r:
    String)
    ensures
        r@ == wire_line(prefix@, protocol, name@, millis as nat, timestamp as int),
{
    proof {
        reveal_strlit(".");
        reveal_strlit(" ");
        reveal_strlit("\n");
    }
    let mut out = sanitize(prefix);
    out.append(".");
    out.append(protocol.tag());
    out.append(".");
    let dashed = sanitize(name);
    out.append(dashed.as_str());
    out.append(" ");
    append_decimal(&mut out, millis);
    out.append(" ");
    append_signed_decimal(&mut out, timestamp);
    out.append("\n");
    assert(out@ =~= wire_line(prefix@, protocol, name@, millis as nat, timestamp as int));
    out
}

/// A decimal rendering holds digits only, so never a dot.
pub proof fn lemma_decimal_has_no_dot(n: nat)
    ensures
        forall|i: int| 0 <= i < decimal(n).len() ==> decimal(n)[i] != '.',
    decreases n,
{
    let d = n % 10;
    let digits = seq!['0', '1', '2', '3', '4', '5', '6', '7', '8', '9'];
    assert(forall|k: int| 0 <= k < 10 ==> digits[k] != '.');
    assert(digit_char(d) != '.');
    if n >= 10 {
        lemma_decimal_has_no_dot(n / 10);
        let prev = decimal(n / 10);
        assert(decimal(n) == prev.push(digit_char(d)));
        assert forall|i: int| 0 <= i < decimal(n).len() implies decimal(n)[i] != '.' by {
            if i < prev.len() {
                assert(decimal(n)[i] == prev[i]);
            }
        }
    } else {
        assert(decimal(n) == seq![digit_char(d)]);
    }
}

/// After sanitizing, no dot is left.
pub proof fn lemma_dash_dots_has_no_dot(s: Seq<char>)
    ensures
        dash_dots(s).len() == s.len(),
        forall|i: int| 0 <= i < dash_dots(s).len() ==> dash_dots(s)[i] != '.',
{
}

/// In an encoded line the only dots are the two namespace separators: the
/// one right after the sanitized prefix and the one right after the protocol
/// tag. Neither the prefix nor the endpoint name contributes a dot, whatever
/// dots they held.
pub proof fn lemma_line_dots_are_separators(
    prefix: Seq<char>,
    protocol: Protocol,
    name: Seq<char>,
    millis: nat,
    timestamp: int,
)
    ensures
        ({
            let line = wire_line(prefix, protocol, name, millis, timestamp);
            let first = prefix.len() as int;
            let second = first + protocol.tag_view().len() + 1;
            &&& line[first] == '.'
            &&& line[second] == '.'
            &&& forall|i: int|
                0 <= i < line.len() && line[i] == '.' ==> i == first || i == second
        }),
{
    let p = dash_dots(prefix);
    let t = protocol.tag_view();
    let n = dash_dots(name);
    let m = decimal(millis);
    let ts = signed_decimal(timestamp);
    lemma_dash_dots_has_no_dot(prefix);
    lemma_dash_dots_has_no_dot(name);
    lemma_decimal_has_no_dot(millis);
    if timestamp < 0 {
        lemma_decimal_has_no_dot((-timestamp) as nat);
        let mag = decimal((-timestamp) as nat);
        assert forall|i: int| 0 <= i < ts.len() implies ts[i] != '.' by {
            if i > 0 {
                assert(ts[i] == mag[i - 1]);
            }
        }
    } else {
        lemma_decimal_has_no_dot(timestamp as nat);
    }
    let line = wire_line(prefix, protocol, name, millis, timestamp);
    let first = p.len() as int;
    let second = first + t.len() + 1;
    let a = first + 1 + t.len() + 1 + n.len() + 1;
    let b = a + m.len() + 1;
    assert(line.len() == b + ts.len() + 1);
    assert forall|i: int| 0 <= i < line.len() && line[i] == '.' implies i == first || i == second by {
        if i < first {
            assert(line[i] == p[i]);
        } else if first < i < second {
            assert(line[i] == t[i - first - 1]);
        } else if second < i < second + 1 + n.len() {
            assert(line[i] == n[i - second - 1]);
        } else if i == second + 1 + n.len() {
            assert(line[i] == ' ');
        } else if second + 1 + n.len() < i < b - 1 {
            assert(line[i] == m[i - a]);
        } else if i == b - 1 {
            assert(line[i] == ' ');
        } else if b <= i < b + ts.len() {
            assert(line[i] == ts[i - b]);
        } else if i == b + ts.len() {
            assert(line[i] == '\n');
        }
    }
    assert(line[first] == '.');
    assert(line[second] == '.');
}

} // verus!
