//! The handshake file's content: a decimal port number, optionally surrounded
//! by whitespace. Parsing it is the supervisor's only view into the child.

use vstd::prelude::*;

use crate::errors::HandshakeError;
use crate::errors::PortReadError;

verus! {

/// ASCII whitespace as it may surround the digits: space, tab, line feed,
/// carriage return.
pub open spec fn is_space(b: u8) -> bool {
    b == 32 || b == 9 || b == 10 || b == 13
}

/// An ASCII decimal digit.
pub open spec fn is_digit(b: u8) -> bool {
    48 <= b <= 57
}

/// First index at or after `i` that does not hold whitespace.
pub open spec fn ws_end(s: Seq<u8>, i: int) -> int
    recommends
        0 <= i <= s.len(),
    decreases s.len() - i,
{
    if 0 <= i < s.len() && is_space(s[i]) {
        ws_end(s, i + 1)
    } else {
        i
    }
}

/// Last index at or before `j` such that everything from it up to `j` is
/// whitespace.
pub open spec fn ws_start_back(s: Seq<u8>, j: int) -> int
    recommends
        0 <= j <= s.len(),
    decreases j,
{
    if 0 < j <= s.len() && is_space(s[j - 1]) {
        ws_start_back(s, j - 1)
    } else {
        j
    }
}

/// The content with leading and trailing whitespace removed.
pub open spec fn trimmed(s: Seq<u8>) -> Seq<u8> {
    let a = ws_end(s, 0);
    let b = ws_start_back(s, s.len() as int);
    if a <= b {
        s.subrange(a, b)
    } else {
        Seq::empty()
    }
}

/// Every byte is a decimal digit.
pub open spec fn all_digits(s: Seq<u8>) -> bool {
    forall|t: int| 0 <= t < s.len() ==> is_digit(#[trigger] s[t])
}

/// The number a digit string denotes in base 10.
pub open spec fn digits_value(s: Seq<u8>) -> int
    decreases s.len(),
{
    if s.len() == 0 {
        0
    } else {
        10 * digits_value(s.drop_last()) + (s.last() - 48)
    }
}

/// Well-formed handshake content: after trimming, a non-empty digit string
/// whose value fits a 16-bit port.
pub open spec fn valid_port_content(s: Seq<u8>) -> bool {
    &&& trimmed(s).len() > 0
    &&& all_digits(trimmed(s))
    &&& digits_value(trimmed(s)) <= 65535
}

/// The port a well-formed content denotes.
pub open spec fn port_value(s: Seq<u8>) -> int {
    digits_value(trimmed(s))
}

pub proof fn lemma_ws_back_bounds(s: Seq<u8>, j: int)
    requires
        0 <= j <= s.len(),
    ensures
        0 <= ws_start_back(s, j) <= j,
    decreases j,
{
    if 0 < j && is_space(s[j - 1]) {
        lemma_ws_back_bounds(s, j - 1);
    }
}

/// A digit string denotes a non-negative number.
pub proof fn lemma_digits_value_nonneg(s: Seq<u8>)
    requires
        all_digits(s),
    ensures
        digits_value(s) >= 0,
    decreases s.len(),
{
    if s.len() > 0 {
        assert(is_digit(s[s.len() - 1]));
        assert(all_digits(s.drop_last()));
        lemma_digits_value_nonneg(s.drop_last());
    }
}

/// A prefix of a digit string never denotes more than the whole string.
pub proof fn lemma_digits_value_prefix(s: Seq<u8>, k: int)
    requires
        all_digits(s),
        0 <= k <= s.len(),
    ensures
        digits_value(s.subrange(0, k)) <= digits_value(s),
    decreases s.len() - k,
{
    if k == s.len() {
        assert(s.subrange(0, k) =~= s);
    } else {
        let p = s.subrange(0, k);
        let q = s.subrange(0, k + 1);
        assert(q.drop_last() =~= p);
        assert(all_digits(p));
        lemma_digits_value_nonneg(p);
        assert(is_digit(q.last()));
        assert(digits_value(q) == 10 * digits_value(p) + (q.last() - 48));
        lemma_digits_value_prefix(s, k + 1);
    }
}

/// The handshake file's name under the application data directory: the one
/// deterministic per-installation path both supervisor and child agree on.
pub fn port_file_name() -> (r: &'static str)
    ensures
        r@ == "backend_port.txt"@,
{
    "backend_port.txt"
}

fn is_space_byte(b: u8) -> (r: bool)
    ensures
        r == is_space(b),
{
    b == 32 || b == 9 || b == 10 || b == 13
}

/// Parse the handshake file's content as a base-10 unsigned 16-bit port.
/// Succeeds exactly on well-formed content; never panics.
pub fn parse_port(content: &[u8]) -> (r: Result<u16, HandshakeError>)
    ensures
        r matches Ok(p) ==> valid_port_content(content@) && p == port_value(content@),
        r matches Err(e) ==> e == HandshakeError::Parse && !valid_port_content(content@),
{
    let s = content;
    let n: usize = s.len();
    let ghost sq = s@;

    // Skip leading whitespace.
    let mut i: usize = 0;
    while i < n && is_space_byte(s[i])
        invariant
            n == sq.len(),
            sq == s@,
            sq == content@,
            0 <= i <= n,
            ws_end(sq, 0) == ws_end(sq, i as int),
        decreases n - i,
    {
        i = i + 1;
    }
    proof {
        assert(ws_end(sq, i as int) == i as int);
        assert(ws_end(sq, 0) == i as int);
    }

    // Skip trailing whitespace, never crossing the first non-space byte.
    let mut j: usize = n;
    while j > i && is_space_byte(s[j - 1])
        invariant
            n == sq.len(),
            sq == s@,
            sq == content@,
            0 <= i <= j <= n,
            i < n ==> !is_space(sq[i as int]),
            ws_start_back(sq, n as int) == ws_start_back(sq, j as int),
            forall|t: int| j <= t < n ==> is_space(#[trigger] sq[t]),
        decreases j,
    {
        j = j - 1;
    }

    if i == j {
        // Nothing but whitespace (or empty content).
        proof {
            if i < n {
                assert(is_space(sq[i as int]));
                assert(false);
            }
            lemma_ws_back_bounds(sq, n as int);
            assert(trimmed(sq).len() == 0);
        }
        return Err(HandshakeError::Parse);
    }

    proof {
        // The loop stopped on a non-space byte, so the back scan stops here too.
        assert(!is_space(sq[j - 1]));
        assert(ws_start_back(sq, j as int) == j as int);
        assert(trimmed(sq) =~= sq.subrange(i as int, j as int));
    }
    let ghost core = sq.subrange(i as int, j as int);

    // Parse the digits, rejecting anything else and anything above 65535.
    let mut val: u32 = 0;
    let mut k: usize = i;
    while k < j
        invariant
            n == sq.len(),
            sq == s@,
            sq == content@,
            0 <= i <= k <= j <= n,
            core == sq.subrange(i as int, j as int),
            trimmed(sq) == core,
            core.len() > 0,
            forall|t: int| 0 <= t < k - i ==> is_digit(#[trigger] core[t]),
            val == digits_value(core.subrange(0, k - i)),
            val <= 65535,
        decreases j - k,
    {
        let b = s[k];
        proof {
            assert(core[k - i] == sq[k as int]);
        }
        if !(48 <= b && b <= 57) {
            proof {
                assert(!is_digit(core[k - i]));
            }
            return Err(HandshakeError::Parse);
        }
        let v2: u32 = val * 10 + (b - 48) as u32;
        proof {
            assert(core.subrange(0, k - i + 1).drop_last() =~= core.subrange(0, k - i));
            assert(core.subrange(0, k - i + 1).last() == core[k - i]);
        }
        if v2 > 65535 {
            proof {
                // Were the whole content well formed, this prefix would
                // already exceed the value of the whole digit string.
                if valid_port_content(sq) {
                    lemma_digits_value_prefix(core, k - i + 1);
                    assert(false);
                }
            }
            return Err(HandshakeError::Parse);
        }
        val = v2;
        k = k + 1;
    }

    proof {
        assert(core.subrange(0, j - i) =~= core);
        assert(all_digits(core));
    }
    Ok(val as u16)
}

/// A single direct read of the handshake file, reusing the same parse as the
/// poll path: `content` holds the file's bytes when the read succeeded, and
/// is `None` when no file could be read (no successful start yet, or the
/// file was deleted externally).
pub fn get_port(content: Option<&[u8]>) -> (r: Result<u16, PortReadError>)
    ensures
        content is None ==> r == Err::<u16, PortReadError>(PortReadError::Unavailable),
        content matches Some(c) ==> {
            &&& valid_port_content(c@) ==> r == Ok::<u16, PortReadError>(port_value(c@) as u16)
            &&& !valid_port_content(c@) ==> r == Err::<u16, PortReadError>(PortReadError::Parse)
        },
{
    match content {
        None => Err(PortReadError::Unavailable),
        Some(c) => match parse_port(c) {
            Ok(p) => Ok(p),
            Err(_) => Err(PortReadError::Parse),
        },
    }
}

} // verus!
