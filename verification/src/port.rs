use vstd::prelude::*;

use crate::text::{dec_str, u16_to_string};

verus! {

/// The port used when the override variable is unset or invalid.
pub const DEFAULT_PORT: u16 = 3000;

/// `c` is an ASCII decimal digit.
pub open spec fn is_digit(c: char) -> bool {
    '0' <= c && c <= '9'
}

/// The numeric value of the digit `c`.
pub open spec fn digit_val(c: char) -> int
    recommends
        is_digit(c),
{
    c as int - 48
}

/// Every character of `s` is a decimal digit.
pub open spec fn all_digits(s: Seq<char>) -> bool {
    forall|i: int| 0 <= i < s.len() ==> is_digit(#[trigger] s[i])
}

/// The value of a digit string read in base ten.
pub open spec fn digits_value(s: Seq<char>) -> int
    recommends
        all_digits(s),
    decreases s.len(),
{
    if s.len() == 0 {
        0
    } else {
        digits_value(s.drop_last()) * 10 + digit_val(s.last())
    }
}

/// The digits of a candidate port string: an optional leading `+` sign is
/// dropped, everything else is kept.
pub open spec fn digits_part(s: Seq<char>) -> Seq<char> {
    if s.len() > 0 && s[0] == '+' {
        s.subrange(1, s.len() as int)
    } else {
        s
    }
}

/// `s` is a valid port: after an optional leading `+`, one or more decimal
/// digits whose value fits in sixteen bits.
pub open spec fn is_valid_port(s: Seq<char>) -> bool {
    let d = digits_part(s);
    d.len() > 0 && all_digits(d) && digits_value(d) <= 65535
}

/// The port a valid port string names.
pub open spec fn port_value(s: Seq<char>) -> int {
    digits_value(digits_part(s))
}

/// Parses a candidate port string as the environment override is parsed: an
/// optional leading `+`, then decimal digits whose value fits in sixteen
/// bits; anything else is rejected.
pub fn parse_port(s: &str) -> (r: Option<u16>)
    ensures
        is_valid_port(s@) ==> (r matches Some(p) && p == port_value(s@)),
        !is_valid_port(s@) ==> r is None,
{
    let n = s.unicode_len();
    let start: usize = if n > 0 && s.get_char(0) == '+' {
        1
    } else {
        0
    };
    let ghost d = digits_part(s@);
    proof {
        assert(d =~= s@.subrange(start as int, n as int));
    }
    if start >= n {
        return None;
    }
    let mut i: usize = start;
    let mut acc: u32 = 0;
    let mut too_big = false;
    while i < n
        invariant
            start <= i <= n,
            n == s@.len(),
            d == digits_part(s@),
            d == s@.subrange(start as int, n as int),
            forall|k: int| 0 <= k < i - start ==> is_digit(#[trigger] d[k]),
            acc <= 65535,
            !too_big ==> acc == digits_value(d.subrange(0, i - start)),
            too_big ==> digits_value(d.subrange(0, i - start)) > 65535,
        decreases n - i,
    {
        let c = s.get_char(i);
        let u: u32 = c as u32;
        if u < 48 || u > 57 {
            proof {
                assert(d[i - start] == s@[i as int]);
                assert(!all_digits(d));
            }
            return None;
        }
        let dv: u32 = u - 48;
        let ghost pre = d.subrange(0, i - start);
        let ghost post = d.subrange(0, i + 1 - start);
        proof {
            assert(post.drop_last() =~= pre);
            assert(post.last() == d[i - start]);
            assert(d[i - start] == s@[i as int]);
            assert(digits_value(post) == digits_value(pre) * 10 + digit_val(s@[i as int]));
        }
        if too_big {
            // the value only grows as more digits arrive
        } else {
            let next: u32 = acc * 10 + dv;
            if next > 65535 {
                too_big = true;
            } else {
                acc = next;
            }
        }
        i += 1;
    }
    proof {
        assert(d.subrange(0, n - start) =~= d);
    }
    if too_big {
        None
    } else {
        Some(acc as u16)
    }
}

/// Resolves the port to bind: the default when the override variable is
/// unset, the variable's value when it names a valid sixteen-bit port, and
/// the default again when it does not.
pub fn resolve_port(v: Option<&str>) -> (r: u16)
    ensures
        v is None ==> r == DEFAULT_PORT,
        v matches Some(s) ==> (if is_valid_port(s@) {
            r == port_value(s@)
        } else {
            r == DEFAULT_PORT
        }),
{
    match v {
        None => DEFAULT_PORT,
        Some(s) => match parse_port(s) {
            Some(p) => p,
            None => DEFAULT_PORT,
        },
    }
}

/// The one-line startup banner naming the bound address and the override
/// variable.
pub open spec fn banner_spec(port: u16) -> Seq<char> {
    "starting server on 127.0.0.1:"@ + dec_str(port as nat)
        + "\nYou can use PORT environment variable to change this."@
}

/// Renders the startup banner for the resolved port.
pub fn startup_banner(port: u16) -> (r: String)
    ensures
        r@ == banner_spec(port),
{
    let mut banner = String::from_str("starting server on 127.0.0.1:");
    let digits = u16_to_string(port);
    banner.append(digits.as_str());
    banner.append("\nYou can use PORT environment variable to change this.");
    banner
}

} // verus!
