use vstd::prelude::*;

verus! {

/// Why a decimal text is not a number of the wanted width.
#[derive(Clone, Copy, Debug, PartialEq, Eq)]
pub enum IntErrorKind {
    /// The text is empty.
    Empty,
    /// The text holds a character that is not a decimal digit where one is needed.
    InvalidDigit,
    /// The digits denote a number above the largest value of the type.
    PosOverflow,
}

/// The error of a failed decimal parse.
#[derive(Clone, Copy, Debug, PartialEq, Eq)]
pub struct ParseIntError {
    pub kind: IntErrorKind,
}

pub open spec fn is_digit(c: char) -> bool {
    '0' <= c && c <= '9'
}

pub open spec fn digit_value(c: char) -> nat {
    (c as int - '0' as int) as nat
}

/// Reads `s` from the left, each digit multiplying the value read so far by
/// ten and adding itself. The first character that is no digit, or the first
/// digit that lifts the value above `max`, ends the reading with an error.
pub open spec fn scan_decimal(s: Seq<char>, acc: nat, max: nat) -> Result<nat, IntErrorKind>
    decreases s.len(),
{
    if s.len() == 0 {
        Ok(acc)
    } else if !is_digit(s[0]) {
        Err(IntErrorKind::InvalidDigit)
    } else if acc * 10 + digit_value(s[0]) > max {
        Err(IntErrorKind::PosOverflow)
    } else {
        scan_decimal(s.drop_first(), acc * 10 + digit_value(s[0]), max)
    }
}

/// The unsigned decimal that `s` denotes, as the standard library reads one
/// for a type whose largest value is `max`: an optional leading `+`, then at
/// least one digit. A lone sign is an invalid digit; a `-` never reads.
pub open spec fn parse_unsigned(s: Seq<char>, max: nat) -> Result<nat, IntErrorKind> {
    if s.len() == 0 {
        Err(IntErrorKind::Empty)
    } else if s.len() == 1 && (s[0] == '+' || s[0] == '-') {
        Err(IntErrorKind::InvalidDigit)
    } else if s[0] == '+' {
        scan_decimal(s.drop_first(), 0, max)
    } else {
        scan_decimal(s, 0, max)
    }
}

proof fn lemma_scan_bounded(s: Seq<char>, acc: nat, max: nat)
    requires
        acc <= max,
    ensures
        scan_decimal(s, acc, max) matches Ok(v) ==> v <= max,
    decreases s.len(),
{
    if s.len() > 0 && is_digit(s[0]) && acc * 10 + digit_value(s[0]) <= max {
        lemma_scan_bounded(s.drop_first(), acc * 10 + digit_value(s[0]), max);
    }
}

fn scan_decimal_exec(s: &Vec<char>, start: usize, max: u64) -> (r: Result<u64, IntErrorKind>)
    requires
        start <= s@.len(),
    ensures
        match r {
            Ok(v) => scan_decimal(s@.skip(start as int), 0, max as nat) == Ok::<nat, IntErrorKind>(v as nat),
            Err(k) => scan_decimal(s@.skip(start as int), 0, max as nat) == Err::<nat, IntErrorKind>(k),
        },
{
    let mut acc: u64 = 0;
    let mut i: usize = start;
    while i < s.len()
        invariant
            start <= i <= s@.len(),
            acc <= max,
            scan_decimal(s@.skip(start as int), 0, max as nat) == scan_decimal(s@.skip(i as int), acc as nat, max as nat),
        decreases s@.len() - i,
    {
        let c = s[i];
        assert(s@.skip(i as int)[0] == c);
        assert(s@.skip(i as int).drop_first() =~= s@.skip(i + 1));
        if !('0' <= c && c <= '9') {
            return Err(IntErrorKind::InvalidDigit);
        }
        let d: u64 = (c as u64) - 48;
        let next: u128 = (acc as u128) * 10 + (d as u128);
        if next > max as u128 {
            return Err(IntErrorKind::PosOverflow);
        }
        acc = next as u64;
        i = i + 1;
    }
    assert(s@.skip(i as int).len() == 0);
    Ok(acc)
}

/// The characters of `s`, in order.
pub fn chars_of(s: &str) -> (v: Vec<char>)
    ensures
        v@ == s@,
{
    let mut v: Vec<char> = Vec::new();
    for c in it: s.chars()
        invariant
            it.seq() == s@,
            v@ == s@.take(it.index() as int),
    {
        proof {
            assert(s@.take(it.index() + 1) =~= v@.push(c));
        }
        v.push(c);
    }
    proof {
        assert(s@.take(s@.len() as int) =~= s@);
    }
    v
}

fn parse_unsigned_exec(s: &str, max: u64) -> (r: Result<u64, IntErrorKind>)
    ensures
        match r {
            Ok(v) => parse_unsigned(s@, max as nat) == Ok::<nat, IntErrorKind>(v as nat),
            Err(k) => parse_unsigned(s@, max as nat) == Err::<nat, IntErrorKind>(k),
        },
{
    let cs = chars_of(s);
    if cs.len() == 0 {
        return Err(IntErrorKind::Empty);
    }
    if cs.len() == 1 && (cs[0] == '+' || cs[0] == '-') {
        return Err(IntErrorKind::InvalidDigit);
    }
    if cs[0] == '+' {
        assert(cs@.skip(1) =~= cs@.drop_first());
        scan_decimal_exec(&cs, 1, max)
    } else {
        assert(cs@.skip(0) =~= cs@);
        scan_decimal_exec(&cs, 0, max)
    }
}

/// Reads `s` as a `u64` the way `str::parse::<u64>` does.
pub fn parse_u64(s: &str) -> (r: Result<u64, ParseIntError>)
    ensures
        match r {
            Ok(v) => parse_unsigned(s@, u64::MAX as nat) == Ok::<nat, IntErrorKind>(v as nat),
            Err(e) => parse_unsigned(s@, u64::MAX as nat) == Err::<nat, IntErrorKind>(e.kind),
        },
{
    match parse_unsigned_exec(s, u64::MAX) {
        Ok(v) => Ok(v),
        Err(kind) => Err(ParseIntError { kind }),
    }
}

/// Reads `s` as a `u32` the way `str::parse::<u32>` does.
pub fn parse_u32(s: &str) -> (r: Result<u32, ParseIntError>)
    ensures
        match r {
            Ok(v) => parse_unsigned(s@, u32::MAX as nat) == Ok::<nat, IntErrorKind>(v as nat),
            Err(e) => parse_unsigned(s@, u32::MAX as nat) == Err::<nat, IntErrorKind>(e.kind),
        },
{
    match parse_unsigned_exec(s, u32::MAX as u64) {
        Ok(v) => {
            proof {
                let t = s@;
                if t.len() > 0 && !(t.len() == 1 && (t[0] == '+' || t[0] == '-')) {
                    if t[0] == '+' {
                        lemma_scan_bounded(t.drop_first(), 0, u32::MAX as nat);
                    } else {
                        lemma_scan_bounded(t, 0, u32::MAX as nat);
                    }
                }
            }
            Ok(v as u32)
        },
        Err(kind) => Err(ParseIntError { kind }),
    }
}

/// The text that the standard library's `ParseIntError` displays for each kind.
pub open spec fn error_text(kind: IntErrorKind) -> Seq<char> {
    match kind {
        IntErrorKind::Empty => "cannot parse integer from empty string"@,
        IntErrorKind::InvalidDigit => "invalid digit found in string"@,
        IntErrorKind::PosOverflow => "number too large to fit in target type"@,
    }
}

impl ParseIntError {
    /// The error's message, as `to_string` gives it for the standard library's error.
    pub fn message(&self) -> (text: String)
        ensures
            text@ == error_text(self.kind),
    {
        match self.kind {
            IntErrorKind::Empty => "cannot parse integer from empty string".to_owned(),
            IntErrorKind::InvalidDigit => "invalid digit found in string".to_owned(),
            IntErrorKind::PosOverflow => "number too large to fit in target type".to_owned(),
        }
    }
}

pub open spec fn digit_char(d: nat) -> char {
    ('0' as int + d) as char
}

/// The decimal digits of `n`, most significant first, without leading zeros.
pub open spec fn decimal(n: nat) -> Seq<char>
    decreases n,
{
    if n < 10 {
        seq![digit_char(n)]
    } else {
        decimal(n / 10).push(digit_char(n % 10))
    }
}

/// Appends the decimal digits of `n` to `out`.
pub fn push_decimal(out: &mut String, n: u64)
    ensures
        final(out)@ == old(out)@ + decimal(n as nat),
    decreases n,
{
    if n >= 10 {
        push_decimal(out, n / 10);
    }
    let d: u8 = (n % 10) as u8;
    let c: char = (48u8 + d) as char;
    assert(c == digit_char((n % 10) as nat));
    out.push(c);
}

/// The decimal text of `n`, as `n.to_string()` gives it.
pub fn decimal_string(n: u64) -> (text: String)
    ensures
        text@ == decimal(n as nat),
{
    let mut out = String::new();
    push_decimal(&mut out, n);
    assert(out@ =~= decimal(n as nat));
    out
}

/// The number that an optional text denotes, or zero where there is no text or
/// it is no `u32`: what `text.unwrap_or_default().parse().unwrap_or_default()` gives.
pub open spec fn u32_or_zero(text: Option<Seq<char>>) -> nat {
    match text {
        Some(t) => match parse_unsigned(t, u32::MAX as nat) {
            Ok(v) => v,
            Err(_) => 0,
        },
        None => 0,
    }
}

/// As `u32_or_zero`, for `u64`.
pub open spec fn u64_or_zero(text: Option<Seq<char>>) -> nat {
    match text {
        Some(t) => match parse_unsigned(t, u64::MAX as nat) {
            Ok(v) => v,
            Err(_) => 0,
        },
        None => 0,
    }
}

pub open spec fn str_opt_view(o: Option<&str>) -> Option<Seq<char>> {
    match o {
        Some(s) => Some(s@),
        None => None,
    }
}

/// Reads an optional text as a `u32`, falling back to zero.
pub fn parse_u32_or_zero(text: Option<&str>) -> (n: u32)
    ensures
        n as nat == u32_or_zero(str_opt_view(text)),
{
    match text {
        Some(t) => match parse_u32(t) {
            Ok(v) => v,
            Err(_) => 0,
        },
        None => 0,
    }
}

/// Reads an optional text as a `u64`, falling back to zero.
pub fn parse_u64_or_zero(text: Option<&str>) -> (n: u64)
    ensures
        n as nat == u64_or_zero(str_opt_view(text)),
{
    match text {
        Some(t) => match parse_u64(t) {
            Ok(v) => v,
            Err(_) => 0,
        },
        None => 0,
    }
}

proof fn lemma_digit_char(d: nat)
    requires
        d < 10,
    ensures
        is_digit(digit_char(d)),
        digit_value(digit_char(d)) == d,
        digit_char(d) != '+',
        digit_char(d) != '-',
{
}

proof fn lemma_scan_concat(a: Seq<char>, b: Seq<char>, acc: nat, max: nat)
    ensures
        scan_decimal(a + b, acc, max) == (match scan_decimal(a, acc, max) {
            Ok(v) => scan_decimal(b, v, max),
            Err(e) => Err(e),
        }),
    decreases a.len(),
{
    if a.len() == 0 {
        assert(a + b =~= b);
    } else {
        assert((a + b)[0] == a[0]);
        assert((a + b).drop_first() =~= a.drop_first() + b);
        if is_digit(a[0]) && acc * 10 + digit_value(a[0]) <= max {
            lemma_scan_concat(a.drop_first(), b, acc * 10 + digit_value(a[0]), max);
        }
    }
}

proof fn lemma_decimal_digits(n: nat)
    ensures
        decimal(n).len() >= 1,
        forall|i: int| 0 <= i < decimal(n).len() ==> is_digit(#[trigger] decimal(n)[i]),
        scan_decimal(decimal(n), 0, n) == Ok::<nat, IntErrorKind>(n),
    decreases n,
{
    if n < 10 {
        lemma_digit_char(n);
        let s = decimal(n);
        assert(s.drop_first().len() == 0);
        assert(scan_decimal(s.drop_first(), n, n) == Ok::<nat, IntErrorKind>(n));
    } else {
        lemma_digit_char(n % 10);
        lemma_decimal_digits(n / 10);
        lemma_scan_monotone_max(decimal(n / 10), 0, n / 10, n);
        let tail = seq![digit_char(n % 10)];
        assert(decimal(n) =~= decimal(n / 10) + tail);
        lemma_scan_concat(decimal(n / 10), tail, 0, n);
        assert(tail.drop_first().len() == 0);
        assert(tail[0] == digit_char(n % 10));
        assert((n / 10) * 10 + n % 10 == n);
        assert(scan_decimal(tail.drop_first(), n, n) == Ok::<nat, IntErrorKind>(n));
        assert(scan_decimal(tail, n / 10, n) == Ok::<nat, IntErrorKind>(n));
        assert forall|i: int| 0 <= i < decimal(n).len() implies is_digit(#[trigger] decimal(n)[i]) by {
            if i < decimal(n / 10).len() {
                assert(decimal(n)[i] == decimal(n / 10)[i]);
            }
        }
    }
}

/// Raising the bound keeps a successful reading.
proof fn lemma_scan_monotone_max(s: Seq<char>, acc: nat, max: nat, bigger: nat)
    requires
        max <= bigger,
        scan_decimal(s, acc, max) is Ok,
    ensures
        scan_decimal(s, acc, bigger) == scan_decimal(s, acc, max),
    decreases s.len(),
{
    if s.len() > 0 {
        lemma_scan_monotone_max(s.drop_first(), acc * 10 + digit_value(s[0]), max, bigger);
    }
}

/// A number read under a bound does not exceed it.
pub proof fn parse_unsigned_bounded(s: Seq<char>, max: nat)
    ensures
        parse_unsigned(s, max) matches Ok(v) ==> v <= max,
{
    if s.len() > 0 && !(s.len() == 1 && (s[0] == '+' || s[0] == '-')) {
        if s[0] == '+' {
            lemma_scan_bounded(s.drop_first(), 0, max);
        } else {
            lemma_scan_bounded(s, 0, max);
        }
    }
}

/// Reading back the decimal text of a number gives the number, wherever it
/// fits under the bound.
pub proof fn decimal_reads_back(n: nat, max: nat)
    requires
        n <= max,
    ensures
        parse_unsigned(decimal(n), max) == Ok::<nat, IntErrorKind>(n),
{
    lemma_decimal_digits(n);
    lemma_scan_monotone_max(decimal(n), 0, n, max);
    let s = decimal(n);
    assert(is_digit(s[0]));
}

/// The id that a text written as `decimal(id)` denotes, read as a `u32` or zero.
pub proof fn decimal_id_reads_back(id: u32)
    ensures
        u32_or_zero(Some(decimal(id as nat))) == id,
{
    decimal_reads_back(id as nat, u32::MAX as nat);
}

} // verus!
