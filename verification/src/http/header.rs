//! Reading the declared content length out of response headers.

use vstd::prelude::*;
use crate::text::{decimal, digit_char};

verus! {

/// An ASCII decimal digit.
pub open spec fn is_digit(b: u8) -> bool {
    0x30 <= b <= 0x39
}

/// ASCII white space: the space, and tab to carriage return.
pub open spec fn is_space(b: u8) -> bool {
    b == 0x20 || (0x09 <= b <= 0x0d)
}

/// The lower case form of an ASCII letter; any other byte as it is.
pub open spec fn lower(b: u8) -> u8 {
    if 0x41 <= b <= 0x5a {
        (b + 0x20) as u8
    } else {
        b
    }
}

/// Every byte is a decimal digit.
pub open spec fn all_digits(s: Seq<u8>) -> bool {
    forall|i: int| 0 <= i < s.len() ==> is_digit(#[trigger] s[i])
}

/// The number that a run of decimal digits stands for.
pub open spec fn digits_value(s: Seq<u8>) -> nat
    decreases s.len(),
{
    if s.len() == 0 {
        0
    } else {
        (digits_value(s.drop_last()) * 10 + (s.last() - 0x30)) as nat
    }
}

/// `s` without the white space in front of it.
pub open spec fn trim_start(s: Seq<u8>) -> Seq<u8>
    decreases s.len(),
{
    if s.len() > 0 && is_space(s[0]) {
        trim_start(s.skip(1))
    } else {
        s
    }
}

/// `s` without the white space behind it.
pub open spec fn trim_end(s: Seq<u8>) -> Seq<u8>
    decreases s.len(),
{
    if s.len() > 0 && is_space(s.last()) {
        trim_end(s.drop_last())
    } else {
        s
    }
}

/// `s` without the white space around it.
pub open spec fn trim(s: Seq<u8>) -> Seq<u8> {
    trim_end(trim_start(s))
}

/// The number that `s` spells: an optional plus sign, then at least one
/// digit, and nothing else. The number has to fit in 64 bits.
pub open spec fn parse_number(s: Seq<u8>) -> Option<u64> {
    let signed = s.len() > 0 && s[0] == 0x2b;
    let digits = if signed {
        s.skip(1)
    } else {
        s
    };
    if digits.len() > 0 && all_digits(digits) && digits_value(digits) <= u64::MAX {
        Some(digits_value(digits) as u64)
    } else {
        None
    }
}

/// The length that the value of a content length header declares: the
/// number it spells, white space around it aside.
pub open spec fn spec_parse_length(value: Seq<u8>) -> Option<u64> {
    parse_number(trim(value))
}

/// The line begins with `prefix`, whatever the case of its letters.
/// `prefix` is in lower case.
pub open spec fn has_prefix(line: Seq<u8>, prefix: Seq<char>) -> bool {
    &&& prefix.len() <= line.len()
    &&& forall|i: int| 0 <= i < prefix.len() ==> lower(#[trigger] line[i]) as char == prefix[i]
}

/// The declared length after one more header line. A content length
/// header sets it, to nothing where its value is no length. A status line
/// begins the headers of another response and clears it. Any other line
/// leaves it as it is.
pub open spec fn spec_scan_line(length: Option<u64>, line: Seq<u8>) -> Option<u64> {
    if has_prefix(line, "http/"@) {
        None
    } else if has_prefix(line, "content-length:"@) {
        spec_parse_length(line.skip(15))
    } else {
        length
    }
}

/// The value of a prefix of a run of digits is at most the value of the
/// run.
pub proof fn lemma_digits_prefix(s: Seq<u8>, k: int)
    requires
        0 <= k <= s.len(),
        all_digits(s),
    ensures
        digits_value(s.take(k)) <= digits_value(s),
    decreases s.len(),
{
    if k == s.len() {
        assert(s.take(k) =~= s);
    } else {
        lemma_digits_prefix(s.drop_last(), k);
        assert(s.drop_last().take(k) =~= s.take(k));
        assert(is_digit(s[s.len() - 1]));
    }
}

/// White space in front is trimmed away index by index.
proof fn lemma_trim_start(s: Seq<u8>, a: int)
    requires
        0 <= a <= s.len(),
        forall|i: int| 0 <= i < a ==> is_space(#[trigger] s[i]),
        a < s.len() ==> !is_space(s[a]),
    ensures
        trim_start(s) == s.skip(a),
    decreases a,
{
    if a == 0 {
        assert(s.skip(0) =~= s);
    } else {
        assert(is_space(s[0]));
        let t = s.skip(1);
        assert forall|i: int| 0 <= i < a - 1 implies is_space(#[trigger] t[i]) by {
            assert(t[i] == s[i + 1]);
        }
        lemma_trim_start(t, a - 1);
        assert(t.skip(a - 1) =~= s.skip(a));
    }
}

/// White space behind is trimmed away index by index.
proof fn lemma_trim_end(s: Seq<u8>, b: int)
    requires
        0 <= b <= s.len(),
        forall|i: int| b <= i < s.len() ==> is_space(#[trigger] s[i]),
        b > 0 ==> !is_space(s[b - 1]),
    ensures
        trim_end(s) == s.take(b),
    decreases s.len() - b,
{
    if b == s.len() {
        assert(s.take(b) =~= s);
    } else {
        assert(is_space(s[s.len() - 1]));
        let t = s.drop_last();
        assert forall|i: int| b <= i < t.len() implies is_space(#[trigger] t[i]) by {
            assert(t[i] == s[i]);
        }
        lemma_trim_end(t, b);
        assert(t.take(b) =~= s.take(b));
    }
}

/// The bytes of a text of ASCII characters.
pub open spec fn ascii_bytes(text: Seq<char>) -> Seq<u8> {
    Seq::new(text.len(), |i: int| text[i] as u8)
}

/// The decimal rendering of a number is a run of digits that stands for
/// that number.
pub proof fn lemma_decimal_is_digits(n: nat)
    ensures
        decimal(n).len() >= 1,
        all_digits(ascii_bytes(decimal(n))),
        digits_value(ascii_bytes(decimal(n))) == n,
    decreases n,
{
    let s = ascii_bytes(decimal(n));
    if n < 10 {
        assert(s.len() == 1);
        assert(s[0] == digit_char(n) as u8);
        assert(s.drop_last() =~= Seq::<u8>::empty());
        assert(digits_value(s.drop_last()) == 0);
    } else {
        lemma_decimal_is_digits(n / 10);
        let t = ascii_bytes(decimal(n / 10));
        assert(s.drop_last() =~= t);
        assert(s.last() == digit_char(n % 10) as u8);
        assert forall|i: int| 0 <= i < s.len() implies is_digit(#[trigger] s[i]) by {
            if i < t.len() {
                assert(s[i] == t[i]);
            }
        }
    }
}

/// The length that an upload declares is the length that a download
/// reads: rendering a length and reading it back gives the length again.
pub proof fn lemma_declared_length_round_trips(n: u64)
    ensures
        spec_parse_length(ascii_bytes(decimal(n as nat))) == Some(n),
{
    let s = ascii_bytes(decimal(n as nat));
    lemma_decimal_is_digits(n as nat);
    assert(is_digit(s[0]));
    assert(is_digit(s[s.len() - 1]));
    assert(trim_start(s) == s);
    assert(trim_end(s) == s);
}

fn byte_is_space(b: u8) -> (r: bool)
    ensures
        r == is_space(b),
{
    b == 0x20 || (0x09 <= b && b <= 0x0d)
}

fn byte_is_digit(b: u8) -> (r: bool)
    ensures
        r == is_digit(b),
{
    0x30 <= b && b <= 0x39
}

fn byte_lower(b: u8) -> (r: u8)
    ensures
        r == lower(b),
{
    if 0x41 <= b && b <= 0x5a {
        b + 0x20
    } else {
        b
    }
}

/// Reads a run of digits as a number of at most 64 bits.
fn parse_digits(digits: &[u8]) -> (r: Option<u64>)
    ensures
        r == if all_digits(digits@) && digits_value(digits@) <= u64::MAX {
            Some(digits_value(digits@) as u64)
        } else {
            None
        },
{
    let n: usize = digits.len();
    let mut value: u64 = 0;
    let mut i: usize = 0;
    while i < n
        invariant
            i <= n,
            n == digits@.len(),
            all_digits(digits@.take(i as int)),
            value == digits_value(digits@.take(i as int)),
        decreases n - i,
    {
        let b: u8 = digits[i];
        proof {
            assert(digits@.take(i + 1).drop_last() =~= digits@.take(i as int));
            assert(digits@.take(i + 1).last() == b);
        }
        if !byte_is_digit(b) {
            return None;
        }
        let d: u64 = (b - 0x30) as u64;
        assert(all_digits(digits@.take(i + 1))) by {
            assert forall|j: int| 0 <= j < i + 1 implies is_digit(
                #[trigger] digits@.take(i + 1)[j],
            ) by {
                if j < i {
                    assert(digits@.take(i as int)[j] == digits@[j]);
                }
            }
        }
        if value > (u64::MAX - d) / 10 {
            proof {
                assert(digits_value(digits@.take(i + 1)) > u64::MAX);
                if all_digits(digits@) {
                    lemma_digits_prefix(digits@, i + 1);
                }
            }
            return None;
        }
        value = value * 10 + d;
        i += 1;
    }
    assert(digits@.take(n as int) =~= digits@);
    Some(value)
}

/// Reads the value of a content length header.
pub fn parse_length(value: &[u8]) -> (r: Option<u64>)
    ensures
        r == spec_parse_length(value@),
{
    let n: usize = value.len();
    let mut a: usize = 0;
    while a < n && byte_is_space(value[a])
        invariant
            a <= n,
            n == value@.len(),
            forall|i: int| 0 <= i < a ==> is_space(#[trigger] value@[i]),
        decreases n - a,
    {
        a += 1;
    }
    let mut b: usize = n;
    while b > a && byte_is_space(value[b - 1])
        invariant
            a <= b <= n,
            n == value@.len(),
            forall|i: int| b <= i < n ==> is_space(#[trigger] value@[i]),
        decreases b,
    {
        b -= 1;
    }
    let ghost front = value@.skip(a as int);
    let ghost core = value@.subrange(a as int, b as int);
    proof {
        lemma_trim_start(value@, a as int);
        assert forall|i: int| b - a <= i < front.len() implies is_space(#[trigger] front[i]) by {
            assert(front[i] == value@[i + a]);
        }
        lemma_trim_end(front, b - a);
        assert(front.take(b - a) =~= core);
        assert(trim(value@) == core);
    }
    if a == b {
        return None;
    }
    let signed = value[a] == 0x2b;
    let start: usize = if signed {
        a + 1
    } else {
        a
    };
    let digits = vstd::slice::slice_subrange(value, start, b);
    proof {
        assert(core[0] == value@[a as int]);
        if signed {
            assert(core.skip(1) =~= digits@);
        } else {
            assert(core =~= digits@);
        }
    }
    if start == b {
        return None;
    }
    parse_digits(digits)
}

/// Whether `line` begins with `prefix`, whatever the case of its letters.
fn line_has_prefix(line: &[u8], prefix: &str) -> (r: bool)
    requires
        prefix.is_ascii(),
    ensures
        r == has_prefix(line@, prefix@),
{
    let n: usize = prefix.unicode_len();
    if line.len() < n {
        return false;
    }
    let mut i: usize = 0;
    while i < n
        invariant
            i <= n,
            n == prefix@.len(),
            n <= line@.len(),
            prefix.is_ascii(),
            forall|j: int| 0 <= j < i ==> lower(#[trigger] line@[j]) as char == prefix@[j],
        decreases n - i,
    {
        if byte_lower(line[i]) != prefix.get_ascii(i) {
            assert(lower(line@[i as int]) as char != prefix@[i as int]);
            return false;
        }
        i += 1;
    }
    true
}

/// The declared content length, as far as the header lines read so far
/// give it.
#[derive(Debug, Clone, Copy, PartialEq, Eq)]
pub struct HeaderScan {
    /// The length declared by the headers read so far.
    pub length: Option<u64>,
}

impl HeaderScan {
    /// No header line was read yet.
    pub fn new() -> (r: HeaderScan)
        ensures
            r.length is None,
    {
        HeaderScan { length: None }
    }

    /// Reads one more header line.
    pub fn line(&mut self, line: &[u8])
        ensures
            final(self).length == spec_scan_line(old(self).length, line@),
    {
        proof {
            reveal_strlit("http/");
            reveal_strlit("content-length:");
        }
        if line_has_prefix(line, "http/") {
            self.length = None;
        } else if line_has_prefix(line, "content-length:") {
            let rest = vstd::slice::slice_subrange(line, 15, line.len());
            assert(rest@ =~= line@.skip(15));
            self.length = parse_length(rest);
        }
    }
}

} // verus!
