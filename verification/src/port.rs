//! Resolution of the HTTPS port from the optional environment override.
//!
//! The override string is parsed the way Rust's integer parsing treats an
//! unsigned 16-bit number: an optional leading `+`, then one or more decimal
//! digits, with the value at most 65535. Absent or malformed overrides fall
//! back to the default port 443; only the malformed case raises a warning.

use vstd::prelude::*;

verus! {

/// The port used when no valid override is supplied.
pub const DEFAULT_HTTPS_PORT: u16 = 443;

/// Numeric value of a decimal digit character, `None` for any other character.
pub open spec fn spec_digit_value(c: char) -> Option<u8> {
    if c == '0' {
        Some(0u8)
    } else if c == '1' {
        Some(1u8)
    } else if c == '2' {
        Some(2u8)
    } else if c == '3' {
        Some(3u8)
    } else if c == '4' {
        Some(4u8)
    } else if c == '5' {
        Some(5u8)
    } else if c == '6' {
        Some(6u8)
    } else if c == '7' {
        Some(7u8)
    } else if c == '8' {
        Some(8u8)
    } else {
        if c == '9' {
            Some(9u8)
        } else {
            None
        }
    }
}

pub open spec fn spec_is_digit(c: char) -> bool {
    spec_digit_value(c) is Some
}

pub open spec fn spec_all_digits(s: Seq<char>) -> bool {
    forall|i: int| 0 <= i < s.len() ==> spec_is_digit(#[trigger] s[i])
}

/// Digit value as an integer, counting any non-digit as zero; only ever
/// applied under `spec_all_digits`.
pub open spec fn spec_digit_or_zero(c: char) -> int {
    match spec_digit_value(c) {
        Some(d) => d as int,
        None => 0,
    }
}

/// The number a digit string denotes, most significant digit first.
pub open spec fn spec_digits_value(s: Seq<char>) -> int
    decreases s.len(),
{
    if s.len() == 0 {
        0
    } else {
        spec_digits_value(s.drop_last()) * 10 + spec_digit_or_zero(s.last())
    }
}

/// The digits of the override once an optional leading `+` is removed.
pub open spec fn spec_unsigned_body(s: Seq<char>) -> Seq<char> {
    if s.len() >= 1 && s[0] == '+' {
        s.subrange(1, s.len() as int)
    } else {
        s
    }
}

/// What parsing the override as an unsigned 16-bit number yields.
pub open spec fn spec_parse_u16(s: Seq<char>) -> Option<u16> {
    let body = spec_unsigned_body(s);
    if body.len() >= 1 && spec_all_digits(body) && spec_digits_value(body) <= 65535 {
        Some(spec_digits_value(body) as u16)
    } else {
        None
    }
}

proof fn lemma_digits_value_nonneg(s: Seq<char>)
    ensures
        spec_digits_value(s) >= 0,
    decreases s.len(),
{
    if s.len() > 0 {
        lemma_digits_value_nonneg(s.drop_last());
    }
}

proof fn lemma_digits_value_prefix_le(s: Seq<char>, i: int)
    requires
        0 <= i <= s.len(),
    ensures
        spec_digits_value(s.subrange(0, i)) <= spec_digits_value(s),
    decreases s.len() - i,
{
    if i == s.len() {
        assert(s.subrange(0, i) =~= s);
    } else {
        let shorter = s.subrange(0, i);
        let longer = s.subrange(0, i + 1);
        assert(longer.drop_last() =~= shorter);
        lemma_digits_value_nonneg(shorter);
        lemma_digits_value_prefix_le(s, i + 1);
    }
}

fn digit_value(c: char) -> (r: Option<u8>)
    ensures
        r == spec_digit_value(c),
{
    match c {
        '0' => Some(0),
        '1' => Some(1),
        '2' => Some(2),
        '3' => Some(3),
        '4' => Some(4),
        '5' => Some(5),
        '6' => Some(6),
        '7' => Some(7),
        '8' => Some(8),
        '9' => Some(9),
        _ => None,
    }
}

/// Parses a decimal unsigned 16-bit number, accepting an optional leading `+`.
pub fn parse_u16(s: &str) -> (r: Option<u16>)
    ensures
        r == spec_parse_u16(s@),
{
    let n = s.unicode_len();
    let start: usize = if n >= 1 && s.get_char(0) == '+' {
        1
    } else {
        0
    };
    proof {
        assert(spec_unsigned_body(s@) =~= s@.subrange(start as int, n as int));
    }
    if start >= n {
        return None;
    }
    let ghost body = spec_unsigned_body(s@);
    let mut value: u32 = 0;
    let mut i: usize = start;
    while i < n
        invariant
            start <= i <= n,
            n == s@.len(),
            body == s@.subrange(start as int, n as int),
            body == spec_unsigned_body(s@),
            value <= 65535,
            value == spec_digits_value(s@.subrange(start as int, i as int)),
            spec_all_digits(s@.subrange(start as int, i as int)),
        decreases n - i,
    {
        let c = s.get_char(i);
        let ghost prefix = s@.subrange(start as int, i as int);
        let ghost extended = s@.subrange(start as int, i as int + 1);
        proof {
            assert(extended.drop_last() =~= prefix);
            assert(extended.last() == s@[i as int]);
        }
        match digit_value(c) {
            None => {
                proof {
                    assert(body[i - start] == s@[i as int]);
                    assert(!spec_all_digits(body));
                }
                return None;
            },
            Some(d) => {
                let next: u32 = value * 10 + d as u32;
                if next > 65535 {
                    proof {
                        assert(spec_digits_value(extended) == next);
                        assert(extended =~= body.subrange(0, i - start + 1));
                        lemma_digits_value_prefix_le(body, i - start + 1);
                    }
                    return None;
                }
                value = next;
                proof {
                    assert(forall|k: int|
                        0 <= k < extended.len() ==> spec_is_digit(#[trigger] extended[k]));
                }
            },
        }
        i += 1;
    }
    proof {
        assert(s@.subrange(start as int, i as int) == body);
    }
    Some(value as u16)
}

/// The character that writes a given decimal digit.
pub open spec fn spec_digit_char(d: int) -> char {
    if d == 0 {
        '0'
    } else if d == 1 {
        '1'
    } else if d == 2 {
        '2'
    } else if d == 3 {
        '3'
    } else if d == 4 {
        '4'
    } else if d == 5 {
        '5'
    } else if d == 6 {
        '6'
    } else if d == 7 {
        '7'
    } else {
        if d == 8 {
            '8'
        } else {
            '9'
        }
    }
}

/// The decimal writing of a non-negative number, without leading zeros.
pub open spec fn spec_decimal(n: int) -> Seq<char>
    decreases n,
{
    if n < 10 {
        seq![spec_digit_char(n)]
    } else {
        spec_decimal(n / 10).push(spec_digit_char(n % 10))
    }
}

fn digit_str(d: u8) -> (s: &'static str)
    requires
        d < 10,
    ensures
        s@ == seq![spec_digit_char(d as int)],
{
    proof {
        reveal_strlit("0");
        reveal_strlit("1");
        reveal_strlit("2");
        reveal_strlit("3");
        reveal_strlit("4");
        reveal_strlit("5");
        reveal_strlit("6");
        reveal_strlit("7");
        reveal_strlit("8");
        reveal_strlit("9");
    }
    let s = match d {
        0 => "0",
        1 => "1",
        2 => "2",
        3 => "3",
        4 => "4",
        5 => "5",
        6 => "6",
        7 => "7",
        8 => "8",
        _ => "9",
    };
    proof {
        assert(s@ =~= seq![spec_digit_char(d as int)]);
    }
    s
}

/// Writes a port number in decimal.
pub fn u16_to_decimal(n: u16) -> (s: String)
    ensures
        s@ == spec_decimal(n as int),
    decreases n,
{
    if n < 10 {
        String::from_str(digit_str(n as u8))
    } else {
        let mut s = u16_to_decimal(n / 10);
        s.append(digit_str((n % 10) as u8));
        proof {
            assert(s@ =~= spec_decimal((n / 10) as int).push(spec_digit_char((n % 10) as int)));
        }
        s
    }
}

/// The colon-prefixed writing of a port, as the log announces it.
pub open spec fn spec_colon_port(port: u16) -> Seq<char> {
    seq![':'] + spec_decimal(port as int)
}

/// Writes a port with a leading colon.
pub fn colon_port(port: u16) -> (s: String)
    ensures
        s@ == spec_colon_port(port),
{
    proof {
        reveal_strlit(":");
    }
    let mut s = String::from_str(":");
    s.append(u16_to_decimal(port).as_str());
    proof {
        assert(s@ =~= spec_colon_port(port));
    }
    s
}

/// The suffix substituted into the configuration: empty exactly for the
/// default port, the colon-prefixed port otherwise.
pub open spec fn spec_port_suffix(port: u16) -> Seq<char> {
    if port == DEFAULT_HTTPS_PORT {
        Seq::<char>::empty()
    } else {
        spec_colon_port(port)
    }
}

/// Derives the configuration's port suffix from the resolved port.
pub fn port_suffix(port: u16) -> (s: String)
    ensures
        s@ == spec_port_suffix(port),
{
    if port == DEFAULT_HTTPS_PORT {
        let s = String::new();
        proof {
            assert(s@ =~= Seq::<char>::empty());
        }
        s
    } else {
        colon_port(port)
    }
}

/// Outcome of reading the port override: the port to use, and whether the
/// override was present but malformed.
pub struct PortChoice {
    pub port: u16,
    pub warned: bool,
}

/// The port a given override value resolves to.
pub open spec fn spec_resolved_port(value: Option<Seq<char>>) -> u16 {
    match value {
        None => DEFAULT_HTTPS_PORT,
        Some(s) => match spec_parse_u16(s) {
            Some(p) => p,
            None => DEFAULT_HTTPS_PORT,
        },
    }
}

/// Whether a given override value deserves a warning (present but malformed).
pub open spec fn spec_port_warned(value: Option<Seq<char>>) -> bool {
    match value {
        None => false,
        Some(s) => spec_parse_u16(s) is None,
    }
}

/// Resolves the HTTPS port from the optional environment override.
///
/// An absent override selects the default port silently; a well-formed
/// override selects the parsed port; a malformed one selects the default
/// and flags a warning.
pub fn resolve_port(value: Option<&str>) -> (r: PortChoice)
    ensures
        r.port == spec_resolved_port(match value {
            Some(s) => Some(s@),
            None => None,
        }),
        r.warned == spec_port_warned(match value {
            Some(s) => Some(s@),
            None => None,
        }),
{
    match value {
        None => PortChoice { port: DEFAULT_HTTPS_PORT, warned: false },
        Some(s) => match parse_u16(s) {
            Some(p) => PortChoice { port: p, warned: false },
            None => PortChoice { port: DEFAULT_HTTPS_PORT, warned: true },
        },
    }
}

} // verus!
