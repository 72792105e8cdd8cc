//! Number syntax of the log formats: unsigned decimal integers as
//! `str::parse` reads them, decimal floating-point literals, dotted-decimal
//! IPv4 addresses, and integers written with thousands separators.
use crate::text::bytes_of;
use vstd::prelude::*;

verus! {

/// Why a decimal integer could not be read (the kinds of
/// `std::num::ParseIntError`).
#[derive(Debug, Clone, Copy, PartialEq, Eq, Structural)]
pub enum ParseIntError {
    /// The text is empty.
    Empty,
    /// The text holds a character that is not a decimal digit.
    InvalidDigit,
    /// The value does not fit the integer type.
    PosOverflow,
}

/// The text is not a floating-point literal (`std::num::ParseFloatError`).
#[derive(Debug, Clone, Copy, PartialEq, Eq, Structural)]
pub enum ParseFloatError {
    /// The text is empty.
    Empty,
    /// The text is not a floating-point literal.
    Invalid,
}

/// The text is not a dotted-decimal IPv4 address
/// (`std::net::AddrParseError`).
#[derive(Debug, Clone, Copy, PartialEq, Eq, Structural)]
pub struct AddrParseError;

pub open spec fn is_digit(b: u8) -> bool {
    48 <= b <= 57
}

/// Reads the decimal digits `d` onto the value `acc` from left to right, as
/// `from_str_radix` does: a non-digit fails with `InvalidDigit`, a value
/// above `max` with `PosOverflow`, whichever comes first.
pub open spec fn digits_value(d: Seq<u8>, acc: int, max: int) -> Result<int, ParseIntError>
    decreases d.len(),
{
    if d.len() == 0 {
        Ok(acc)
    } else if !is_digit(d[0]) {
        Err(ParseIntError::InvalidDigit)
    } else if acc * 10 + (d[0] - 48) > max {
        Err(ParseIntError::PosOverflow)
    } else {
        digits_value(d.drop_first(), acc * 10 + (d[0] - 48), max)
    }
}

/// `str::parse` of an unsigned integer type whose greatest value is `max`:
/// an optional `+` followed by decimal digits.
pub open spec fn parse_uint_spec(s: Seq<u8>, max: int) -> Result<int, ParseIntError> {
    if s.len() == 0 {
        Err(ParseIntError::Empty)
    } else if s.len() == 1 && (s[0] == 43 || s[0] == 45) {
        Err(ParseIntError::InvalidDigit)
    } else if s[0] == 43 {
        digits_value(s.drop_first(), 0, max)
    } else {
        digits_value(s, 0, max)
    }
}

/// The value of a decimal digit string that fits in `max`.
pub proof fn lemma_digits_value_bound(d: Seq<u8>, acc: int, max: int)
    requires
        0 <= acc <= max,
    ensures
        digits_value(d, acc, max) matches Ok(v) ==> acc <= v <= max,
    decreases d.len(),
{
    if d.len() > 0 && is_digit(d[0]) && acc * 10 + (d[0] - 48) <= max {
        lemma_digits_value_bound(d.drop_first(), acc * 10 + (d[0] - 48), max);
    }
}

fn read_digits(d: &[u8], start: usize, end: usize, max: u64) -> (r: Result<u64, ParseIntError>)
    requires
        start <= end <= d@.len(),
    ensures
        r matches Ok(v) ==> v <= max && digits_value(d@.subrange(start as int, end as int), 0, max as int) == Ok::<int, ParseIntError>(v as int),
        r matches Err(e) ==> digits_value(d@.subrange(start as int, end as int), 0, max as int) == Err::<int, ParseIntError>(e),
{
    let mut acc: u64 = 0;
    let mut i = start;
    while i < end
        invariant
            start <= i <= end <= d@.len(),
            acc <= max,
            digits_value(d@.subrange(start as int, end as int), 0, max as int) == digits_value(
                d@.subrange(i as int, end as int),
                acc as int,
                max as int,
            ),
        decreases end - i,
    {
        let c = d[i];
        let ghost rest = d@.subrange(i as int, end as int);
        assert(rest[0] == c);
        assert(rest.drop_first() =~= d@.subrange(i + 1, end as int));
        if c < 48 || c > 57 {
            return Err(ParseIntError::InvalidDigit);
        }
        let digit = (c - 48) as u64;
        if digit > max || acc > (max - digit) / 10 {
            assert(acc * 10 + digit > max) by (nonlinear_arith)
                requires
                    digit > max || acc > (max - digit) / 10,
            {
            }
            return Err(ParseIntError::PosOverflow);
        }
        assert(acc * 10 + digit <= max) by (nonlinear_arith)
            requires
                digit <= max,
                acc <= (max - digit) / 10,
        {
        }
        acc = acc * 10 + digit;
        i += 1;
    }
    assert(d@.subrange(i as int, end as int).len() == 0);
    Ok(acc)
}

/// `str::parse::<u64>`.
pub fn parse_u64(s: &str) -> (r: Result<u64, ParseIntError>)
    ensures
        r matches Ok(v) ==> parse_uint_spec(bytes_of(s), u64::MAX as int) == Ok::<int, ParseIntError>(v as int),
        r matches Err(e) ==> parse_uint_spec(bytes_of(s), u64::MAX as int) == Err::<int, ParseIntError>(e),
{
    parse_uint_bytes(s.as_bytes(), u64::MAX)
}

/// `str::parse::<u16>`.
pub fn parse_u16(s: &str) -> (r: Result<u16, ParseIntError>)
    ensures
        r matches Ok(v) ==> parse_uint_spec(bytes_of(s), u16::MAX as int) == Ok::<int, ParseIntError>(v as int),
        r matches Err(e) ==> parse_uint_spec(bytes_of(s), u16::MAX as int) == Err::<int, ParseIntError>(e),
{
    match parse_uint_bytes(s.as_bytes(), u16::MAX as u64) {
        Ok(v) => Ok(v as u16),
        Err(e) => Err(e),
    }
}

/// `str::parse` of an unsigned integer no larger than `max`, on the bytes
/// of the text.
pub fn parse_uint_bytes(d: &[u8], max: u64) -> (r: Result<u64, ParseIntError>)
    ensures
        r matches Ok(v) ==> v <= max && parse_uint_spec(d@, max as int) == Ok::<int, ParseIntError>(v as int),
        r matches Err(e) ==> parse_uint_spec(d@, max as int) == Err::<int, ParseIntError>(e),
{
    if d.len() == 0 {
        return Err(ParseIntError::Empty);
    }
    if d.len() == 1 && (d[0] == 43 || d[0] == 45) {
        return Err(ParseIntError::InvalidDigit);
    }
    let start: usize = if d[0] == 43 { 1 } else { 0 };
    assert(d@.subrange(1, d@.len() as int) =~= d@.drop_first());
    assert(d@.subrange(0, d@.len() as int) =~= d@);
    let r = read_digits(d, start, d.len(), max);
    proof {
        lemma_digits_value_bound(d@.subrange(start as int, d@.len() as int), 0, max as int);
    }
    r
}

pub open spec fn all_digits(s: Seq<u8>) -> bool {
    forall|i: int| 0 <= i < s.len() ==> is_digit(#[trigger] s[i])
}

/// ASCII lower case of a byte.
pub open spec fn lower(b: u8) -> u8 {
    if 65 <= b <= 90 {
        (b + 32) as u8
    } else {
        b
    }
}

/// `s` equals the lower-case word `w` when lower-cased.
pub open spec fn eq_ignore_case(s: Seq<u8>, w: Seq<u8>) -> bool {
    s.len() == w.len() && forall|i: int| 0 <= i < s.len() ==> lower(#[trigger] s[i]) == w[i]
}

/// `Digit+ | Digit+ '.' Digit* | Digit* '.' Digit+`.
pub open spec fn is_mantissa(m: Seq<u8>) -> bool {
    ||| m.len() > 0 && all_digits(m)
    ||| m.len() >= 2 && exists|k: int|
        0 <= k < m.len() && #[trigger] m[k] == 46 && all_digits(m.subrange(0, k)) && all_digits(
            m.subrange(k + 1, m.len() as int),
        )
}

/// `Sign? Digit+`.
pub open spec fn is_exponent_digits(x: Seq<u8>) -> bool {
    let d = if x.len() > 0 && (x[0] == 43 || x[0] == 45) {
        x.drop_first()
    } else {
        x
    };
    d.len() > 0 && all_digits(d)
}

/// `Number ::= Mantissa ('e' Sign? Digit+)?`, with `e` in either case.
pub open spec fn is_number(b: Seq<u8>) -> bool {
    if exists|k: int| 0 <= k < b.len() && lower(#[trigger] b[k]) == 101 {
        let k = choose|k: int|
            0 <= k < b.len() && lower(#[trigger] b[k]) == 101 && forall|j: int|
                0 <= j < k ==> lower(#[trigger] b[j]) != 101;
        is_mantissa(b.subrange(0, k)) && is_exponent_digits(b.subrange(k + 1, b.len() as int))
    } else {
        is_mantissa(b)
    }
}

/// The grammar that `str::parse::<f32>` accepts:
/// `Sign? ('inf' | 'infinity' | 'nan' | Number)`, without regard to case.
pub open spec fn is_float_literal(s: Seq<u8>) -> bool {
    let b = if s.len() > 0 && (s[0] == 43 || s[0] == 45) {
        s.drop_first()
    } else {
        s
    };
    ||| eq_ignore_case(b, seq![105u8, 110, 102])
    ||| eq_ignore_case(b, seq![105u8, 110, 102, 105, 110, 105, 116, 121])
    ||| eq_ignore_case(b, seq![110u8, 97, 110])
    ||| is_number(b)
}

/// What `str::parse::<f32>` reports about `s`: whether it is a literal, and
/// which error otherwise.
pub open spec fn float_check_spec(s: Seq<u8>) -> Result<(), ParseFloatError> {
    if s.len() == 0 {
        Err(ParseFloatError::Empty)
    } else if is_float_literal(s) {
        Ok(())
    } else {
        Err(ParseFloatError::Invalid)
    }
}

fn all_digits_in(d: &[u8], from: usize, to: usize) -> (r: bool)
    requires
        from <= to <= d@.len(),
    ensures
        r == all_digits(d@.subrange(from as int, to as int)),
{
    let ghost m = d@.subrange(from as int, to as int);
    let mut i = from;
    while i < to
        invariant
            from <= i <= to <= d@.len(),
            m == d@.subrange(from as int, to as int),
            forall|j: int| from <= j < i ==> is_digit(#[trigger] d@[j]),
        decreases to - i,
    {
        if d[i] < 48 || d[i] > 57 {
            assert(m[i - from] == d@[i as int]);
            return false;
        }
        i += 1;
    }
    assert forall|j: int| 0 <= j < m.len() implies is_digit(#[trigger] m[j]) by {
        assert(m[j] == d@[from + j]);
    }
    true
}

fn ascii_lower(b: u8) -> (r: u8)
    ensures
        r == lower(b),
{
    if 65 <= b && b <= 90 {
        b + 32
    } else {
        b
    }
}

fn eq_ignore_case_at(d: &[u8], from: usize, w: &[u8]) -> (r: bool)
    requires
        from <= d@.len(),
    ensures
        r == eq_ignore_case(d@.subrange(from as int, d@.len() as int), w@),
{
    if d.len() - from != w.len() {
        return false;
    }
    let mut i: usize = 0;
    while i < w.len()
        invariant
            from <= d@.len(),
            from + w@.len() == d@.len(),
            d@.len() <= usize::MAX,
            i <= w@.len(),
            forall|j: int| 0 <= j < i ==> lower(d@[from + j]) == w@[j],
        decreases w@.len() - i,
    {
        if ascii_lower(d[from + i]) != w[i] {
            assert(d@.subrange(from as int, d@.len() as int)[i as int] == d@[from + i]);
            return false;
        }
        i += 1;
    }
    assert(forall|j: int| 0 <= j < w@.len() ==> d@.subrange(from as int, d@.len() as int)[j] == d@[from + j]);
    true
}

fn is_mantissa_at(d: &[u8], from: usize, to: usize) -> (r: bool)
    requires
        from <= to <= d@.len(),
    ensures
        r == is_mantissa(d@.subrange(from as int, to as int)),
{
    let ghost m = d@.subrange(from as int, to as int);
    if to - from == 0 {
        return false;
    }
    if all_digits_in(d, from, to) {
        return true;
    }
    if to - from < 2 {
        return false;
    }
    let mut k = from;
    while k < to && d[k] != 46
        invariant
            from <= k <= to <= d@.len(),
            forall|j: int| from <= j < k ==> d@[j] != 46,
        decreases to - k,
    {
        k += 1;
    }
    if k == to {
        proof {
            assert forall|j: int| 0 <= j < m.len() implies m[j] != 46 by {
                assert(m[j] == d@[from + j]);
            }
        }
        return false;
    }
    let a = all_digits_in(d, from, k);
    let b = all_digits_in(d, k + 1, to);
    proof {
        assert(m[k - from] == 46);
        assert(m.subrange(0, k - from) =~= d@.subrange(from as int, k as int));
        assert(m.subrange(k - from + 1, m.len() as int) =~= d@.subrange(k + 1, to as int));
        if !(a && b) {
            assert forall|k2: int|
                0 <= k2 < m.len() && m[k2] == 46 && all_digits(m.subrange(0, k2)) implies !all_digits(
                m.subrange(k2 + 1, m.len() as int),
            ) by {
                if k2 < k - from {
                    assert(m[k2] == d@[from + k2]);
                } else if k2 > k - from {
                    assert(m.subrange(0, k2)[k - from] == 46);
                } else {
                }
            }
        }
    }
    a && b
}

fn is_exponent_digits_at(d: &[u8], from: usize) -> (r: bool)
    requires
        from <= d@.len(),
    ensures
        r == is_exponent_digits(d@.subrange(from as int, d@.len() as int)),
{
    let ghost x = d@.subrange(from as int, d@.len() as int);
    let start = if from < d.len() && (d[from] == 43 || d[from] == 45) { from + 1 } else { from };
    proof {
        if start == from + 1 {
            assert(x.drop_first() =~= d@.subrange(start as int, d@.len() as int));
        }
    }
    start < d.len() && all_digits_in(d, start, d.len())
}

fn is_number_at(d: &[u8], from: usize) -> (r: bool)
    requires
        from <= d@.len(),
    ensures
        r == is_number(d@.subrange(from as int, d@.len() as int)),
{
    let ghost b = d@.subrange(from as int, d@.len() as int);
    let mut k = from;
    while k < d.len() && ascii_lower(d[k]) != 101
        invariant
            from <= k <= d@.len(),
            forall|j: int| from <= j < k ==> lower(d@[j]) != 101,
        decreases d@.len() - k,
    {
        k += 1;
    }
    if k == d.len() {
        proof {
            assert forall|j: int| 0 <= j < b.len() implies lower(b[j]) != 101 by {
                assert(b[j] == d@[from + j]);
            }
            assert(d@.subrange(from as int, d@.len() as int) =~= b);
        }
        is_mantissa_at(d, from, d.len())
    } else {
        proof {
            let kk = k - from;
            assert(b[kk] == d@[k as int]);
            assert(forall|j: int| 0 <= j < kk ==> b[j] == d@[from + j]);
            let c = choose|k2: int|
                0 <= k2 < b.len() && lower(#[trigger] b[k2]) == 101 && forall|j: int|
                    0 <= j < k2 ==> lower(#[trigger] b[j]) != 101;
            assert(0 <= kk < b.len() && lower(b[kk]) == 101 && forall|j: int|
                0 <= j < kk ==> lower(#[trigger] b[j]) != 101);
            assert(c == kk);
            assert(b.subrange(0, kk) =~= d@.subrange(from as int, k as int));
            assert(b.subrange(kk + 1, b.len() as int) =~= d@.subrange(k + 1, d@.len() as int));
        }
        is_mantissa_at(d, from, k) && is_exponent_digits_at(d, k + 1)
    }
}

/// Checks that `s` is a floating-point literal, as `str::parse::<f32>` would.
pub fn check_float(s: &str) -> (r: Result<(), ParseFloatError>)
    ensures
        r == float_check_spec(bytes_of(s)),
{
    let d = s.as_bytes();
    if d.len() == 0 {
        return Err(ParseFloatError::Empty);
    }
    let from: usize = if d[0] == 43 || d[0] == 45 { 1 } else { 0 };
    proof {
        if from == 1 {
            assert(d@.drop_first() =~= d@.subrange(1, d@.len() as int));
        } else {
            assert(d@ =~= d@.subrange(0, d@.len() as int));
        }
    }
    let inf: [u8; 3] = [105, 110, 102];
    let infinity: [u8; 8] = [105, 110, 102, 105, 110, 105, 116, 121];
    let nan: [u8; 3] = [110, 97, 110];
    assert(inf@ =~= seq![105u8, 110, 102]);
    assert(infinity@ =~= seq![105u8, 110, 102, 105, 110, 105, 116, 121]);
    assert(nan@ =~= seq![110u8, 97, 110]);
    if eq_ignore_case_at(d, from, inf.as_slice()) || eq_ignore_case_at(d, from, infinity.as_slice())
        || eq_ignore_case_at(d, from, nan.as_slice()) || is_number_at(d, from) {
        Ok(())
    } else {
        Err(ParseFloatError::Invalid)
    }
}

/// Number of consecutive decimal digits in `s` starting at byte `i`.
pub open spec fn digit_run(s: Seq<u8>, i: int) -> int
    decreases s.len() - i,
{
    if 0 <= i < s.len() && is_digit(s[i]) {
        1 + digit_run(s, i + 1)
    } else {
        0
    }
}

/// One IPv4 octet starting at byte `i`: one to three digits, no leading zero
/// unless the octet is `0`, value at most 255. Gives the value and the
/// position after it.
pub open spec fn octet_spec(s: Seq<u8>, i: int) -> Option<(int, int)> {
    let n = digit_run(s, i);
    if 1 <= n <= 3 && !(n > 1 && s[i] == 48) {
        match digits_value(s.subrange(i, i + n), 0, 255) {
            Ok(v) => Some((v, i + n)),
            Err(_) => None,
        }
    } else {
        None
    }
}

/// The octet at `i` followed by a dot; gives the value and the position after
/// the dot.
pub open spec fn octet_dot_spec(s: Seq<u8>, i: int) -> Option<(int, int)> {
    match octet_spec(s, i) {
        Some((v, e)) => if e < s.len() && s[e] == 46 {
            Some((v, e + 1))
        } else {
            None
        },
        None => None,
    }
}

/// `str::parse::<Ipv4Addr>` followed by `Ipv4Addr::to_bits`: four octets
/// separated by dots and nothing else, as one big-endian number.
pub open spec fn ipv4_spec(s: Seq<u8>) -> Option<int> {
    match octet_dot_spec(s, 0) {
        None => None,
        Some((a, i1)) => match octet_dot_spec(s, i1) {
            None => None,
            Some((b, i2)) => match octet_dot_spec(s, i2) {
                None => None,
                Some((c, i3)) => match octet_spec(s, i3) {
                    Some((d, e)) => if e == s.len() {
                        Some(a * 0x1000000 + b * 0x10000 + c * 0x100 + d)
                    } else {
                        None
                    },
                    None => None,
                },
            },
        },
    }
}

proof fn lemma_digit_run_step(s: Seq<u8>, i: int, k: int)
    requires
        0 <= i <= k <= s.len(),
        forall|j: int| i <= j < k ==> is_digit(#[trigger] s[j]),
    ensures
        digit_run(s, i) == (k - i) + digit_run(s, k),
    decreases k - i,
{
    if i < k {
        lemma_digit_run_step(s, i + 1, k);
    }
}

fn read_octet(d: &[u8], i: usize) -> (r: Option<(u64, usize)>)
    requires
        i <= d@.len(),
    ensures
        r matches Some((v, e)) ==> octet_spec(d@, i as int) == Some((v as int, e as int)) && e <= d@.len() && v <= 255,
        r is None ==> octet_spec(d@, i as int) is None,
{
    let mut k = i;
    while k < d.len() && 48 <= d[k] && d[k] <= 57
        invariant
            i <= k <= d@.len(),
            forall|j: int| i <= j < k ==> is_digit(#[trigger] d@[j]),
        decreases d@.len() - k,
    {
        k += 1;
    }
    proof {
        lemma_digit_run_step(d@, i as int, k as int);
        assert(digit_run(d@, k as int) == 0);
    }
    let n = k - i;
    if n < 1 || n > 3 || (n > 1 && d[i] == 48) {
        return None;
    }
    match read_digits(d, i, k, 255) {
        Ok(v) => Some((v, k)),
        Err(_) => None,
    }
}

fn read_octet_dot(d: &[u8], i: usize) -> (r: Option<(u64, usize)>)
    requires
        i <= d@.len(),
    ensures
        r matches Some((v, e)) ==> octet_dot_spec(d@, i as int) == Some((v as int, e as int)) && e <= d@.len() && v <= 255,
        r is None ==> octet_dot_spec(d@, i as int) is None,
{
    let (v, e) = read_octet(d, i)?;
    if e < d.len() && d[e] == 46 {
        Some((v, e + 1))
    } else {
        None
    }
}

/// `str::parse::<Ipv4Addr>` followed by `Ipv4Addr::to_bits`.
pub fn parse_ipv4_bits(s: &str) -> (r: Result<u32, AddrParseError>)
    ensures
        r matches Ok(v) ==> ipv4_spec(bytes_of(s)) == Some(v as int),
        r is Err ==> ipv4_spec(bytes_of(s)) is None,
{
    let d = s.as_bytes();
    let (a, i1) = match read_octet_dot(d, 0) {
        Some(p) => p,
        None => return Err(AddrParseError),
    };
    let (b, i2) = match read_octet_dot(d, i1) {
        Some(p) => p,
        None => return Err(AddrParseError),
    };
    let (c, i3) = match read_octet_dot(d, i2) {
        Some(p) => p,
        None => return Err(AddrParseError),
    };
    let (e, end) = match read_octet(d, i3) {
        Some(p) => p,
        None => return Err(AddrParseError),
    };
    if end != d.len() {
        return Err(AddrParseError);
    }
    Ok((a * 0x1000000 + b * 0x10000 + c * 0x100 + e) as u32)
}

} // verus!
