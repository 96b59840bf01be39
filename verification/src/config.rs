//! Decimal numbers given as build-time settings: the UDP port and the firmware's tuning values.
use vstd::prelude::*;
use vstd::string::StringSliceAdditionalSpecFns;

verus! {

/// `b'0'`.
const DIGIT_ZERO: u8 = 48;
/// `b'9'`.
const DIGIT_NINE: u8 = 57;
/// `b'+'`.
const PLUS_SIGN: u8 = 43;

/// Whether `c` is an ASCII decimal digit.
pub open spec fn is_digit(c: u8) -> bool {
    48 <= c <= 57
}

/// Whether every byte of `s` is an ASCII decimal digit.
pub open spec fn all_digits(s: Seq<u8>) -> bool {
    forall|i: int| 0 <= i < s.len() ==> is_digit(#[trigger] s[i])
}

/// Whether no byte of `s` lies below `b'0'`.
pub open spec fn no_byte_below_zero(s: Seq<u8>) -> bool {
    forall|i: int| 0 <= i < s.len() ==> #[trigger] s[i] >= 48
}

/// The value of `s` read as a decimal numeral, most significant digit first, each byte counting
/// for its distance from `b'0'`.
pub open spec fn digit_fold(s: Seq<u8>) -> int
    decreases s.len(),
{
    if s.len() == 0 {
        0
    } else {
        digit_fold(s.drop_last()) * 10 + (s.last() - 48)
    }
}

/// The digits of a `u16` numeral: one leading `+` is dropped where digits follow it.
pub open spec fn u16_numeral_digits(b: Seq<u8>) -> Seq<u8> {
    if b.len() > 1 && b[0] == 43 {
        b.drop_first()
    } else {
        b
    }
}

/// What parsing `b` as a `u16` gives, as `str::parse::<u16>` documents it: an optional `+`,
/// then one or more decimal digits whose value fits in a `u16`.
pub open spec fn parse_u16_spec(b: Seq<u8>) -> Option<u16> {
    let d = u16_numeral_digits(b);
    if d.len() > 0 && all_digits(d) && digit_fold(d) <= u16::MAX {
        Some(digit_fold(d) as u16)
    } else {
        None
    }
}

/// The value of a numeral is never negative.
pub proof fn lemma_digit_fold_nonneg(s: Seq<u8>)
    requires
        no_byte_below_zero(s),
    ensures
        digit_fold(s) >= 0,
    decreases s.len(),
{
    if s.len() > 0 {
        lemma_digit_fold_nonneg(s.drop_last());
    }
}

/// A prefix of a numeral is worth no more than the whole numeral.
pub proof fn lemma_digit_fold_prefix_le(s: Seq<u8>, i: int)
    requires
        no_byte_below_zero(s),
        0 <= i <= s.len(),
    ensures
        digit_fold(s.take(i)) <= digit_fold(s),
    decreases s.len(),
{
    if i == s.len() {
        assert(s.take(i) =~= s);
    } else {
        lemma_digit_fold_prefix_le(s.drop_last(), i);
        assert(s.drop_last().take(i) =~= s.take(i));
        lemma_digit_fold_nonneg(s.drop_last());
    }
}

/// Extending a prefix by one byte extends the numeral by one digit.
proof fn lemma_digit_fold_step(s: Seq<u8>, i: int)
    requires
        0 <= i < s.len(),
    ensures
        digit_fold(s.take(i + 1)) == digit_fold(s.take(i)) * 10 + (s[i] - 48),
{
    assert(s.take(i + 1).drop_last() =~= s.take(i));
}

/// Reads a string of decimal digits as a `u64`, without the standard library's `parse`.
///
/// A byte above `b'9'` is not rejected: like a digit, it counts for its distance from `b'0'`.
pub fn parse_u64(s: &str) -> (r: u64)
    requires
        no_byte_below_zero(s.spec_bytes()),
        digit_fold(s.spec_bytes()) <= u64::MAX,
    ensures
        r == digit_fold(s.spec_bytes()),
{
    let b = s.as_bytes();
    let mut n: u64 = 0;
    let mut i: usize = 0;
    while i < b.len()
        invariant
            b@ == s.spec_bytes(),
            no_byte_below_zero(b@),
            digit_fold(b@) <= u64::MAX,
            0 <= i <= b@.len(),
            n == digit_fold(b@.take(i as int)),
        decreases b@.len() - i,
    {
        proof {
            lemma_digit_fold_step(b@, i as int);
            lemma_digit_fold_prefix_le(b@, i + 1);
        }
        n = n * 10 + (b[i] - DIGIT_ZERO) as u64;
        i += 1;
    }
    assert(b@.take(i as int) =~= b@);
    n
}

/// The decimal numeral of `n`: its digits `b'0'..=b'9'`, most significant first, with no
/// leading zero.
pub open spec fn decimal_numeral(n: nat) -> Seq<u8>
    decreases n,
{
    if n < 10 {
        seq![(48 + n) as u8]
    } else {
        decimal_numeral(n / 10).push((48 + n % 10) as u8)
    }
}

/// A numeral is one or more bytes, each in `b'0'..=b'9'`, and reads back as its number.
pub proof fn lemma_decimal_numeral(n: nat)
    ensures
        decimal_numeral(n).len() >= 1,
        forall|i: int|
            0 <= i < decimal_numeral(n).len() ==> 48 <= #[trigger] decimal_numeral(n)[i] <= 57,
        digit_fold(decimal_numeral(n)) == n,
    decreases n,
{
    let s = decimal_numeral(n);
    if n < 10 {
        assert(s.drop_last() =~= Seq::<u8>::empty());
        assert(s.last() == (48 + n) as u8);
        assert(digit_fold(s) == digit_fold(s.drop_last()) * 10 + (s.last() - 48));
    } else {
        lemma_decimal_numeral(n / 10);
        assert(s.drop_last() =~= decimal_numeral(n / 10));
        assert(0 <= n % 10 < 10);
        assert(s.last() == (48 + n % 10) as u8);
        assert(s.last() - 48 == n % 10);
        assert((n / 10) * 10 + n % 10 == n);
        assert(digit_fold(s) == digit_fold(s.drop_last()) * 10 + (s.last() - 48));
        assert forall|i: int| 0 <= i < s.len() implies 48 <= #[trigger] s[i] <= 57 by {
            if i < s.len() - 1 {
                assert(s[i] == decimal_numeral(n / 10)[i]);
            }
        }
    }
}

/// Proves that every ASCII decimal digit is a digit, and nothing else is.
pub proof fn law_digits_are_ascii_decimal(c: u8)
    ensures
        is_digit(c) <==> 48 <= c <= 57,
{
}

/// Proves that the port parser accepts the decimal numeral of every `u16`, with or without a
/// leading `+`, and reads it back as that number, as `str::parse::<u16>` does.
pub proof fn law_parse_u16_numerals(n: nat)
    requires
        n <= 65535,
    ensures
        parse_u16_spec(decimal_numeral(n)) == Some(n as u16),
        parse_u16_spec(seq![43u8] + decimal_numeral(n)) == Some(n as u16),
{
    lemma_decimal_numeral(n);
    let d = decimal_numeral(n);
    assert(d[0] != 43);
    assert(u16_numeral_digits(d) == d);
    let p = seq![43u8] + d;
    assert(p.drop_first() =~= d);
    assert(u16_numeral_digits(p) == d);
}

/// Proves that the port parser rejects the numeral of every number too large for a `u16`.
pub proof fn law_parse_u16_rejects_overflow(n: nat)
    requires
        n > 65535,
    ensures
        parse_u16_spec(decimal_numeral(n)) is None,
{
    lemma_decimal_numeral(n);
    let d = decimal_numeral(n);
    assert(d[0] != 43);
    assert(u16_numeral_digits(d) == d);
}

/// Proves that the port parser rejects any text with a byte outside `b'0'..=b'9'`, except a
/// single leading `+` before digits, and rejects the empty text and a lone `+`.
pub proof fn law_parse_u16_rejects_non_digits(b: Seq<u8>, i: int)
    requires
        0 <= i < b.len(),
        !(48 <= b[i] <= 57),
        !(i == 0 && b[0] == 43 && b.len() > 1),
    ensures
        parse_u16_spec(b) is None,
        parse_u16_spec(Seq::<u8>::empty()) is None,
        parse_u16_spec(seq![43u8]) is None,
{
    let d = u16_numeral_digits(b);
    if b.len() > 1 && b[0] == 43 {
        assert(d[i - 1] == b[i]);
        assert(!is_digit(d[i - 1]));
    } else {
        assert(!is_digit(d[i]));
    }
    assert(!is_digit(seq![43u8][0]));
}

/// Proves that `parse_u64` reads the decimal numeral of every `u64` back as that number: the
/// numeral meets its requirements and its value is the number.
pub proof fn law_parse_u64_numerals(n: nat)
    requires
        n <= u64::MAX,
    ensures
        no_byte_below_zero(decimal_numeral(n)),
        digit_fold(decimal_numeral(n)) == n,
{
    lemma_decimal_numeral(n);
}

/// Period of the flight controller's loop, in milliseconds.
pub const LOOP_PERIOD_MS: u64 = 1;

/// How many loop iterations pass between log lines, from the `LOG_RATE_MS` setting (a log
/// period in milliseconds; 500 where unset).
pub fn log_every_n(log_rate_ms: Option<&str>) -> (r: u32)
    requires
        log_rate_ms matches Some(s) ==> no_byte_below_zero(s.spec_bytes()) && digit_fold(
            s.spec_bytes(),
        ) <= u64::MAX,
    ensures
        r == ((match log_rate_ms {
            Some(s) => digit_fold(s.spec_bytes()),
            None => 500,
        }) / (LOOP_PERIOD_MS as int)) as u32,
{
    let ms = match log_rate_ms {
        Some(s) => parse_u64(s),
        None => 500,
    };
    (ms / LOOP_PERIOD_MS) as u32
}

/// The cap on throttle (percent) for testing, from the `THROTTLE_CAP` setting (100, no cap,
/// where unset). A cap above 100 is a configuration error that callers reject before asking.
pub fn throttle_cap(setting: Option<&str>) -> (r: u8)
    requires
        setting matches Some(s) ==> no_byte_below_zero(s.spec_bytes()) && digit_fold(
            s.spec_bytes(),
        ) <= 100,
    ensures
        r == (match setting {
            Some(s) => digit_fold(s.spec_bytes()),
            None => 100,
        }),
{
    match setting {
        Some(s) => parse_u64(s) as u8,
        None => 100,
    }
}

/// Parses a `u16` port number the way `str::parse::<u16>` does; `None` where it would fail.
pub fn parse_port(s: &str) -> (r: Option<u16>)
    ensures
        r == parse_u16_spec(s.spec_bytes()),
{
    let b = s.as_bytes();
    let len = b.len();
    if len == 0 {
        return None;
    }
    let start: usize = if len > 1 && b[0] == PLUS_SIGN {
        1
    } else {
        0
    };
    let ghost d = u16_numeral_digits(b@);
    assert(d =~= b@.subrange(start as int, len as int));
    let mut n: u32 = 0;
    let mut i: usize = start;
    while i < len
        invariant
            b@ == s.spec_bytes(),
            len == b@.len(),
            d == u16_numeral_digits(b@),
            d =~= b@.subrange(start as int, len as int),
            start <= i <= len,
            start <= 1,
            all_digits(d.take(i - start)),
            n == digit_fold(d.take(i - start)),
            n <= u16::MAX,
        decreases len - i,
    {
        let c = b[i];
        assert(d[i - start] == c);
        if c < DIGIT_ZERO || c > DIGIT_NINE {
            assert(!all_digits(d));
            return None;
        }
        proof {
            lemma_digit_fold_step(d, i - start);
            assert(d.take(i - start + 1) =~= d.take(i - start).push(c));
        }
        n = n * 10 + (c - DIGIT_ZERO) as u32;
        if n > 65535 {
            proof {
                if all_digits(d) {
                    lemma_digit_fold_prefix_le(d, i - start + 1);
                }
            }
            return None;
        }
        i += 1;
    }
    assert(d.take(len - start) =~= d);
    if len == start {
        return None;
    }
    Some(n as u16)
}

} // verus!
