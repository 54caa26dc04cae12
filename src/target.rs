//! TCP targets: `host:port` text, split on its first colon.
use vstd::prelude::*;

verus! {

/// Why a TCP target was set aside.
#[derive(Clone, Copy, Debug, PartialEq, Eq)]
pub enum TargetError {
    /// The text holds no `:` between host and port.
    MissingColon,
    /// What follows the first colon is not a port number from 0 to 65535.
    BadPort,
}

/// A TCP target split into the host to resolve and the port to connect to.
#[derive(Clone, Debug)]
pub struct TcpTarget {
    pub host: String,
    pub port: u16,
}

/// The index of the first `:` in `s`, if any.
pub open spec fn first_colon(s: Seq<char>) -> Option<int>
    decreases s.len(),
{
    if s.len() == 0 {
        None
    } else {
        match first_colon(s.drop_last()) {
            Some(k) => Some(k),
            None => if s.last() == ':' {
                Some(s.len() - 1)
            } else {
                None
            },
        }
    }
}

pub open spec fn is_digit(c: char) -> bool {
    '0' <= c && c <= '9'
}

pub open spec fn digit_value(c: char) -> nat {
    (c as u32 - '0' as u32) as nat
}

pub open spec fn all_digits(s: Seq<char>) -> bool {
    forall|i: int| 0 <= i < s.len() ==> is_digit(#[trigger] s[i])
}

/// The number that a string of decimal digits denotes.
pub open spec fn digits_value(s: Seq<char>) -> nat
    decreases s.len(),
{
    if s.len() == 0 {
        0
    } else {
        digits_value(s.drop_last()) * 10 + digit_value(s.last())
    }
}

/// The port that `s` names: one or more decimal digits whose value fits in 16 bits.
pub open spec fn port_of(s: Seq<char>) -> Option<u16> {
    if s.len() > 0 && all_digits(s) && digits_value(s) <= 65535 {
        Some(digits_value(s) as u16)
    } else {
        None
    }
}

/// What a TCP target text stands for: the host before its first colon and the
/// port after it.
pub open spec fn target_of(s: Seq<char>) -> Result<(Seq<char>, u16), TargetError> {
    match first_colon(s) {
        None => Err(TargetError::MissingColon),
        Some(k) => match port_of(s.subrange(k + 1, s.len() as int)) {
            None => Err(TargetError::BadPort),
            Some(port) => Ok((s.subrange(0, k), port)),
        },
    }
}

impl TcpTarget {
    pub open spec fn view_pair(&self) -> (Seq<char>, u16) {
        (self.host@, self.port)
    }
}

/// Finds the first colon of `s`.
pub fn find_colon(s: &str) -> (r: Option<usize>)
    ensures
        match r {
            None => first_colon(s@) is None,
            Some(k) => first_colon(s@) == Some(k as int) && k < s@.len(),
        },
{
    let n = s.unicode_len();
    let mut i: usize = 0;
    while i < n
        invariant
            n == s@.len(),
            i <= n,
            first_colon(s@.subrange(0, i as int)) is None,
        decreases n - i,
    {
        assert(s@.subrange(0, i + 1).drop_last() =~= s@.subrange(0, i as int));
        if s.get_char(i) == ':' {
            proof {
                lemma_first_colon_of_prefix(s@, i as int);
            }
            return Some(i);
        }
        i = i + 1;
    }
    assert(s@.subrange(0, n as int) =~= s@);
    None
}

/// A colon found in a prefix stays the first colon of the whole text.
proof fn lemma_first_colon_of_prefix(s: Seq<char>, k: int)
    requires
        0 <= k < s.len(),
        first_colon(s.subrange(0, k)) is None,
        s[k] == ':',
    ensures
        first_colon(s) == Some(k),
    decreases s.len() - k,
{
    if k + 1 == s.len() {
        assert(s.drop_last() =~= s.subrange(0, k));
    } else {
        let t = s.drop_last();
        assert(t.subrange(0, k) =~= s.subrange(0, k));
        lemma_first_colon_of_prefix(t, k);
    }
}

/// Reads a port number: one or more decimal digits with a value of at most 65535.
pub fn parse_port(s: &str) -> (r: Option<u16>)
    ensures
        r == port_of(s@),
{
    let n = s.unicode_len();
    if n == 0 {
        return None;
    }
    let mut v: u32 = 0;
    let mut i: usize = 0;
    while i < n
        invariant
            n == s@.len(),
            i <= n,
            all_digits(s@.subrange(0, i as int)),
            v <= 65536,
            v == if digits_value(s@.subrange(0, i as int)) <= 65536 {
                digits_value(s@.subrange(0, i as int))
            } else {
                65536
            },
        decreases n - i,
    {
        let c = s.get_char(i);
        let ghost pre = s@.subrange(0, i as int);
        let ghost next = s@.subrange(0, i + 1);
        assert(next.drop_last() =~= pre);
        if !('0' <= c && c <= '9') {
            assert(!all_digits(s@)) by {
                assert(!is_digit(s@[i as int]));
            }
            return None;
        }
        let d = (c as u32) - ('0' as u32);
        assert(digits_value(next) == digits_value(pre) * 10 + d);
        let w = v * 10 + d;
        v = if w > 65536 {
            65536
        } else {
            w
        };
        assert(all_digits(next)) by {
            assert forall|j: int| 0 <= j < next.len() implies is_digit(#[trigger] next[j]) by {
                if j < i {
                    assert(next[j] == pre[j]);
                }
            }
        }
        i = i + 1;
    }
    assert(s@.subrange(0, n as int) =~= s@);
    if v > 65535 {
        None
    } else {
        Some(v as u16)
    }
}

/// Splits a TCP target on its first colon into the host and the port.
pub fn parse_tcp_target(s: &str) -> (r: Result<TcpTarget, TargetError>)
    ensures
        match r {
            Ok(t) => target_of(s@) == Ok::<(Seq<char>, u16), TargetError>(t.view_pair()),
            Err(e) => target_of(s@) == Err::<(Seq<char>, u16), TargetError>(e),
        },
{
    match find_colon(s) {
        None => Err(TargetError::MissingColon),
        Some(k) => {
            let n = s.unicode_len();
            let rest = s.substring_char(k + 1, n);
            match parse_port(rest) {
                None => Err(TargetError::BadPort),
                Some(port) => {
                    let host = s.substring_char(0, k);
                    Ok(TcpTarget { host: host.to_string(), port })
                },
            }
        },
    }
}

} // verus!
